//! The synthesizers: the text of the generated unit.
//!
//! For a record `N` the generated unit holds, in order: a factory
//! `N::builder()` returning a fresh `NBuilder` with every slot absent; the
//! `NBuilder` type itself, one optional slot per field; and an `impl` with
//! one chainable setter per field plus the finalizing `build` method.  Each
//! piece's exact text is a spec function here, and each emitting function
//! is proved to produce it.

use vstd::prelude::*;
use vstd::string::StringExecFns;
use crate::ast::{DataShape, FieldDecl, FieldLayout, ShapeError, SourceDecl};
use crate::classify::{effective_type_text, is_option_shape, is_option_type, render_effective_type};
use crate::model::missing_field_message;

verus! {

/// The generated companion type's name: the record's name with `Builder`
/// appended.
pub open spec fn builder_name_text(name: Seq<char>) -> Seq<char> {
    name + "Builder"@
}

/// Renders the companion type's name.
pub fn emit_builder_name(name: &String) -> (r: String)
    ensures
        r@ == builder_name_text(name@),
{
    let mut s = name.clone();
    s.append("Builder");
    s
}

/// One slot declaration: the field's name, typed optional-of-effective.
/// A required field's slot wraps its declared type; an optional field's
/// slot wraps the unwrapped inner type — the two converge syntactically.
pub open spec fn slot_line_text(f: FieldDecl) -> Seq<char> {
    "    "@ + f.name@ + ": Option<"@ + effective_type_text(f.ty) + ">,\n"@
}

/// One slot initializer: the field's name, absent.
pub open spec fn init_line_text(f: FieldDecl) -> Seq<char> {
    "            "@ + f.name@ + ": None,\n"@
}

/// One chainable setter: takes the effective type, stores it present in
/// the field's own slot, returns the builder for further calls.
pub open spec fn setter_text(f: FieldDecl) -> Seq<char> {
    "    pub fn "@ + f.name@ + "(&mut self, "@ + f.name@ + ": "@ + effective_type_text(f.ty)
        + ") -> &mut Self {\n        self."@ + f.name@ + " = Some("@ + f.name@
        + ");\n        self\n    }\n"@
}

/// One field of the finalizer's record literal.  An optional field passes
/// its slot through unchanged; a required field duplicates its slot's
/// value, or fails with the field's missing-field message when the slot is
/// absent.
pub open spec fn build_line_text(f: FieldDecl) -> Seq<char> {
    if is_option_shape(f.ty) {
        "            "@ + f.name@ + ": self."@ + f.name@ + ".clone(),\n"@
    } else {
        "            "@ + f.name@ + ": self."@ + f.name@
            + ".clone().ok_or(Box::<dyn std::error::Error>::from(\""@ + missing_field_message(
            f.name@,
        ) + "\".to_string()))?,\n"@
    }
}

/// The slot declarations of every field, in declaration order.
pub open spec fn slot_lines_text(fs: Seq<FieldDecl>) -> Seq<char>
    decreases fs.len(),
{
    if fs.len() == 0 {
        Seq::empty()
    } else {
        slot_lines_text(fs.drop_last()) + slot_line_text(fs.last())
    }
}

/// The slot initializers of every field, in declaration order.
pub open spec fn init_lines_text(fs: Seq<FieldDecl>) -> Seq<char>
    decreases fs.len(),
{
    if fs.len() == 0 {
        Seq::empty()
    } else {
        init_lines_text(fs.drop_last()) + init_line_text(fs.last())
    }
}

/// The setters of every field, in declaration order.
pub open spec fn setters_text(fs: Seq<FieldDecl>) -> Seq<char>
    decreases fs.len(),
{
    if fs.len() == 0 {
        Seq::empty()
    } else {
        setters_text(fs.drop_last()) + setter_text(fs.last())
    }
}

/// The finalizer's record literal fields, in declaration order.
pub open spec fn build_lines_text(fs: Seq<FieldDecl>) -> Seq<char>
    decreases fs.len(),
{
    if fs.len() == 0 {
        Seq::empty()
    } else {
        build_lines_text(fs.drop_last()) + build_line_text(fs.last())
    }
}

fn emit_slot_line(f: &FieldDecl) -> (r: String)
    ensures
        r@ == slot_line_text(*f),
{
    let mut s = String::from_str("    ");
    s.append(f.name.as_str());
    s.append(": Option<");
    let eff = render_effective_type(&f.ty);
    s.append(eff.as_str());
    s.append(">,\n");
    proof {
        assert(s@ =~= slot_line_text(*f));
    }
    s
}

fn emit_init_line(f: &FieldDecl) -> (r: String)
    ensures
        r@ == init_line_text(*f),
{
    let mut s = String::from_str("            ");
    s.append(f.name.as_str());
    s.append(": None,\n");
    proof {
        assert(s@ =~= init_line_text(*f));
    }
    s
}

fn emit_setter(f: &FieldDecl) -> (r: String)
    ensures
        r@ == setter_text(*f),
{
    let mut s = String::from_str("    pub fn ");
    s.append(f.name.as_str());
    s.append("(&mut self, ");
    s.append(f.name.as_str());
    s.append(": ");
    let eff = render_effective_type(&f.ty);
    s.append(eff.as_str());
    s.append(") -> &mut Self {\n        self.");
    s.append(f.name.as_str());
    s.append(" = Some(");
    s.append(f.name.as_str());
    s.append(");\n        self\n    }\n");
    proof {
        assert(s@ =~= setter_text(*f));
    }
    s
}

fn emit_build_line(f: &FieldDecl) -> (r: String)
    ensures
        r@ == build_line_text(*f),
{
    let mut s = String::from_str("            ");
    s.append(f.name.as_str());
    if is_option_type(&f.ty) {
        s.append(": self.");
        s.append(f.name.as_str());
        s.append(".clone(),\n");
    } else {
        s.append(": self.");
        s.append(f.name.as_str());
        s.append(".clone().ok_or(Box::<dyn std::error::Error>::from(\"");
        s.append("field ");
        s.append(f.name.as_str());
        s.append(" is not set");
        s.append("\".to_string()))?,\n");
    }
    proof {
        assert(s@ =~= build_line_text(*f));
    }
    s
}

fn emit_slot_lines(fields: &Vec<FieldDecl>) -> (r: String)
    ensures
        r@ == slot_lines_text(fields@),
{
    let mut s = String::new();
    let n: usize = fields.len();
    proof {
        assert(s@ =~= slot_lines_text(fields@.take(0)));
    }
    for i in 0..n
        invariant
            n == fields@.len(),
            s@ == slot_lines_text(fields@.take(i as int)),
    {
        let line = emit_slot_line(&fields[i]);
        s.append(line.as_str());
        proof {
            assert(fields@.take(i as int + 1).drop_last() =~= fields@.take(i as int));
            assert(s@ =~= slot_lines_text(fields@.take(i as int + 1)));
        }
    }
    proof {
        assert(fields@.take(n as int) =~= fields@);
    }
    s
}

fn emit_init_lines(fields: &Vec<FieldDecl>) -> (r: String)
    ensures
        r@ == init_lines_text(fields@),
{
    let mut s = String::new();
    let n: usize = fields.len();
    proof {
        assert(s@ =~= init_lines_text(fields@.take(0)));
    }
    for i in 0..n
        invariant
            n == fields@.len(),
            s@ == init_lines_text(fields@.take(i as int)),
    {
        let line = emit_init_line(&fields[i]);
        s.append(line.as_str());
        proof {
            assert(fields@.take(i as int + 1).drop_last() =~= fields@.take(i as int));
            assert(s@ =~= init_lines_text(fields@.take(i as int + 1)));
        }
    }
    proof {
        assert(fields@.take(n as int) =~= fields@);
    }
    s
}

fn emit_setters(fields: &Vec<FieldDecl>) -> (r: String)
    ensures
        r@ == setters_text(fields@),
{
    let mut s = String::new();
    let n: usize = fields.len();
    proof {
        assert(s@ =~= setters_text(fields@.take(0)));
    }
    for i in 0..n
        invariant
            n == fields@.len(),
            s@ == setters_text(fields@.take(i as int)),
    {
        let block = emit_setter(&fields[i]);
        s.append(block.as_str());
        proof {
            assert(fields@.take(i as int + 1).drop_last() =~= fields@.take(i as int));
            assert(s@ =~= setters_text(fields@.take(i as int + 1)));
        }
    }
    proof {
        assert(fields@.take(n as int) =~= fields@);
    }
    s
}

fn emit_build_lines(fields: &Vec<FieldDecl>) -> (r: String)
    ensures
        r@ == build_lines_text(fields@),
{
    let mut s = String::new();
    let n: usize = fields.len();
    proof {
        assert(s@ =~= build_lines_text(fields@.take(0)));
    }
    for i in 0..n
        invariant
            n == fields@.len(),
            s@ == build_lines_text(fields@.take(i as int)),
    {
        let line = emit_build_line(&fields[i]);
        s.append(line.as_str());
        proof {
            assert(fields@.take(i as int + 1).drop_last() =~= fields@.take(i as int));
            assert(s@ =~= build_lines_text(fields@.take(i as int + 1)));
        }
    }
    proof {
        assert(fields@.take(n as int) =~= fields@);
    }
    s
}

/// The factory: `impl N { pub fn builder() -> NBuilder { ... } }`, every
/// slot initialized absent.
pub open spec fn factory_text(name: Seq<char>, fields: Seq<FieldDecl>) -> Seq<char> {
    "impl "@ + name + " {\n    pub fn builder() -> "@ + builder_name_text(name) + " {\n        "@
        + builder_name_text(name) + " {\n"@ + init_lines_text(fields) + "        }\n    }\n}\n"@
}

/// The companion type: the source declaration's visibility, one optional
/// slot per field.
pub open spec fn builder_struct_text(vis: Seq<char>, name: Seq<char>, fields: Seq<FieldDecl>) -> Seq<
    char,
> {
    vis_prefix_text(vis) + "struct "@ + builder_name_text(name) + " {\n"@ + slot_lines_text(fields)
        + "}\n"@
}

/// The visibility marker followed by a space, or nothing when private.
pub open spec fn vis_prefix_text(vis: Seq<char>) -> Seq<char> {
    if vis.len() == 0 {
        Seq::empty()
    } else {
        vis + " "@
    }
}

/// The builder's methods: every setter, then the finalizer.
pub open spec fn builder_impl_text(name: Seq<char>, fields: Seq<FieldDecl>) -> Seq<char> {
    "impl "@ + builder_name_text(name) + " {\n"@ + setters_text(fields)
        + "    pub fn build(&mut self) -> Result<"@ + name
        + ", Box<dyn std::error::Error>> {\n        Ok("@ + name + " {\n"@ + build_lines_text(
        fields,
    ) + "        })\n    }\n}\n"@
}

/// The whole generated unit: factory, companion type, methods, in that
/// order, blank-line separated.
pub open spec fn unit_text(vis: Seq<char>, name: Seq<char>, fields: Seq<FieldDecl>) -> Seq<char> {
    factory_text(name, fields) + "\n"@ + builder_struct_text(vis, name, fields) + "\n"@
        + builder_impl_text(name, fields)
}

fn emit_factory(name: &String, fields: &Vec<FieldDecl>) -> (r: String)
    ensures
        r@ == factory_text(name@, fields@),
{
    let bname = emit_builder_name(name);
    let mut s = String::from_str("impl ");
    s.append(name.as_str());
    s.append(" {\n    pub fn builder() -> ");
    s.append(bname.as_str());
    s.append(" {\n        ");
    s.append(bname.as_str());
    s.append(" {\n");
    let inits = emit_init_lines(fields);
    s.append(inits.as_str());
    s.append("        }\n    }\n}\n");
    proof {
        assert(s@ =~= factory_text(name@, fields@));
    }
    s
}

fn emit_builder_struct(vis: &String, name: &String, fields: &Vec<FieldDecl>) -> (r: String)
    ensures
        r@ == builder_struct_text(vis@, name@, fields@),
{
    let mut s = String::new();
    if !vis.as_str().is_empty() {
        s.append(vis.as_str());
        s.append(" ");
    }
    proof {
        assert(s@ =~= vis_prefix_text(vis@));
    }
    s.append("struct ");
    let bname = emit_builder_name(name);
    s.append(bname.as_str());
    s.append(" {\n");
    let slots = emit_slot_lines(fields);
    s.append(slots.as_str());
    s.append("}\n");
    proof {
        assert(s@ =~= builder_struct_text(vis@, name@, fields@));
    }
    s
}

fn emit_builder_impl(name: &String, fields: &Vec<FieldDecl>) -> (r: String)
    ensures
        r@ == builder_impl_text(name@, fields@),
{
    let bname = emit_builder_name(name);
    let mut s = String::from_str("impl ");
    s.append(bname.as_str());
    s.append(" {\n");
    let setters = emit_setters(fields);
    s.append(setters.as_str());
    s.append("    pub fn build(&mut self) -> Result<");
    s.append(name.as_str());
    s.append(", Box<dyn std::error::Error>> {\n        Ok(");
    s.append(name.as_str());
    s.append(" {\n");
    let build_fields = emit_build_lines(fields);
    s.append(build_fields.as_str());
    s.append("        })\n    }\n}\n");
    proof {
        assert(s@ =~= builder_impl_text(name@, fields@));
    }
    s
}

/// The shape extractor: succeeds exactly on a record with named fields,
/// and otherwise refuses with the diagnostic naming the offending shape.
pub fn extract_named_fields(decl: &SourceDecl) -> (r: Result<&Vec<FieldDecl>, ShapeError>)
    ensures
        decl.data matches DataShape::Record(FieldLayout::Named(fs)) ==> (r matches Ok(f) && f@
            == fs@),
        decl.data matches DataShape::Record(FieldLayout::Positional) ==> r == Err::<
            &Vec<FieldDecl>,
            ShapeError,
        >(ShapeError::NotNamedFields),
        decl.data matches DataShape::Record(FieldLayout::Unit) ==> r == Err::<
            &Vec<FieldDecl>,
            ShapeError,
        >(ShapeError::NotNamedFields),
        decl.data matches DataShape::TaggedUnion ==> r == Err::<&Vec<FieldDecl>, ShapeError>(
            ShapeError::NotRecord,
        ),
        decl.data matches DataShape::UntaggedUnion ==> r == Err::<&Vec<FieldDecl>, ShapeError>(
            ShapeError::NotRecord,
        ),
{
    match &decl.data {
        DataShape::Record(FieldLayout::Named(fields)) => Ok(fields),
        DataShape::Record(FieldLayout::Positional) => Err(ShapeError::NotNamedFields),
        DataShape::Record(FieldLayout::Unit) => Err(ShapeError::NotNamedFields),
        DataShape::TaggedUnion => Err(ShapeError::NotRecord),
        DataShape::UntaggedUnion => Err(ShapeError::NotRecord),
    }
}

/// The generator: for a record with named fields, the full generated
/// unit's text; for every other shape, the refusal that aborts generation,
/// and no output.
pub fn derive(decl: &SourceDecl) -> (r: Result<String, ShapeError>)
    ensures
        decl.data matches DataShape::Record(FieldLayout::Named(fs)) ==> (r matches Ok(code)
            && code@ == unit_text(decl.vis@, decl.name@, fs@)),
        decl.data matches DataShape::Record(FieldLayout::Positional) ==> r == Err::<
            String,
            ShapeError,
        >(ShapeError::NotNamedFields),
        decl.data matches DataShape::Record(FieldLayout::Unit) ==> r == Err::<String, ShapeError>(
            ShapeError::NotNamedFields,
        ),
        decl.data matches DataShape::TaggedUnion ==> r == Err::<String, ShapeError>(
            ShapeError::NotRecord,
        ),
        decl.data matches DataShape::UntaggedUnion ==> r == Err::<String, ShapeError>(
            ShapeError::NotRecord,
        ),
{
    let fields = match extract_named_fields(decl) {
        Ok(fields) => fields,
        Err(e) => {
            return Err(e);
        },
    };
    let mut s = emit_factory(&decl.name, fields);
    s.append("\n");
    let strukt = emit_builder_struct(&decl.vis, &decl.name, fields);
    s.append(strukt.as_str());
    s.append("\n");
    let methods = emit_builder_impl(&decl.name, fields);
    s.append(methods.as_str());
    proof {
        assert(s@ =~= unit_text(decl.vis@, decl.name@, fields@));
    }
    Ok(s)
}

} // verus!
