//! The structural model of an input declaration.
//!
//! The generator works on a declaration's *shape*, never on resolved types:
//! a type reference is carried either as a single applied name with the
//! source text of its angle-bracketed type arguments, or verbatim as its
//! source text.  The front end that parses real source text converts the
//! parsed tree into these types; everything the generator reads is here.

use vstd::prelude::*;
use vstd::string::StringExecFns;

verus! {

/// A reference to a type, as far as the classifier reads it.
///
/// `Applied` stands for a single, unqualified named type applied to an
/// angle-bracketed list of *type* arguments (`Vec<u8>`, `Option<String>`),
/// each argument carried as its source text.  Every other shape — plain
/// names, qualified or multi-segment paths, references, tuples, an argument
/// list holding a lifetime or a constant — is carried whole as `Other`,
/// with its source text.
#[derive(Debug)]
pub enum TypeRef {
    /// `name<args[0], args[1], ...>`
    Applied { name: String, args: Vec<String> },
    /// any other type shape, as source text
    Other { text: String },
}

/// One named field of a record: its name and its declared type.
#[derive(Debug)]
pub struct FieldDecl {
    /// the field's name
    pub name: String,
    /// the field's declared type
    pub ty: TypeRef,
}

/// How a record lays out its fields.
#[derive(Debug)]
pub enum FieldLayout {
    /// named fields, in declaration order
    Named(Vec<FieldDecl>),
    /// positional (tuple-style) fields
    Positional,
    /// no fields at all
    Unit,
}

/// The kind of declaration the generator was pointed at.
#[derive(Debug)]
pub enum DataShape {
    /// a single structural record
    Record(FieldLayout),
    /// a tagged union (an enum)
    TaggedUnion,
    /// an untagged union
    UntaggedUnion,
}

/// The input declaration: its visibility marker (empty for a private
/// declaration), its name, and its shape.
#[derive(Debug)]
pub struct SourceDecl {
    /// the visibility marker, as source text; empty when private
    pub vis: String,
    /// the declaration's name
    pub name: String,
    /// the declaration's shape
    pub data: DataShape,
}

/// Why generation was refused: the declaration is not of the one supported
/// shape, a record with named fields.
#[derive(Clone, Copy, Debug, PartialEq, Eq, Structural)]
pub enum ShapeError {
    /// the declaration is not a record
    NotRecord,
    /// the record's fields are not named
    NotNamedFields,
}

impl ShapeError {
    /// The fixed diagnostic for this refusal.
    pub fn message(&self) -> (r: &'static str)
        ensures
            *self is NotRecord ==> r@ == "Builder derive only supports struct"@,
            *self is NotNamedFields ==> r@ == "Builder derive only supports named fields"@,
    {
        match self {
            ShapeError::NotRecord => "Builder derive only supports struct",
            ShapeError::NotNamedFields => "Builder derive only supports named fields",
        }
    }
}

/// The text of an angle-bracketed argument list, the arguments separated by
/// `", "`.
pub open spec fn type_args_text(args: Seq<String>) -> Seq<char>
    decreases args.len(),
{
    if args.len() == 0 {
        Seq::empty()
    } else if args.len() == 1 {
        args[0]@
    } else {
        type_args_text(args.drop_last()) + ", "@ + args.last()@
    }
}

/// The source text a type reference renders to.
pub open spec fn type_text(t: TypeRef) -> Seq<char> {
    match t {
        TypeRef::Applied { name, args } => name@ + "<"@ + type_args_text(args@) + ">"@,
        TypeRef::Other { text } => text@,
    }
}

/// Renders a type reference back to source text.
pub fn render_type(t: &TypeRef) -> (r: String)
    ensures
        r@ == type_text(*t),
{
    match t {
        TypeRef::Applied { name, args } => {
            let mut s = String::new();
            s.append(name.as_str());
            s.append("<");
            proof {
                assert(s@ =~= name@ + "<"@ + type_args_text(args@.take(0)));
            }
            let n: usize = args.len();
            for i in 0..n
                invariant
                    n == args.len(),
                    s@ == name@ + "<"@ + type_args_text(args@.take(i as int)),
            {
                if i != 0 {
                    s.append(", ");
                }
                s.append(args[i].as_str());
                proof {
                    assert(args@.take(i as int + 1).drop_last() =~= args@.take(i as int));
                    assert(s@ =~= name@ + "<"@ + type_args_text(args@.take(i as int + 1)));
                }
            }
            proof {
                assert(args@.take(n as int) =~= args@);
            }
            s.append(">");
            s
        },
        TypeRef::Other { text } => {
            let mut s = String::new();
            s.append(text.as_str());
            proof {
                assert(s@ =~= text@);
            }
            s
        },
    }
}

} // verus!
