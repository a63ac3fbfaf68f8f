//! The field classifier.
//!
//! A field is *optional* exactly when its declared type is a single,
//! unqualified named-type reference literally named `Option`, applied to
//! exactly one generic type argument; the inner type is then the field's
//! *effective* type.  Every other shape — a multi-segment path, another
//! name, zero or several arguments — makes the field *required*, with its
//! declared type unchanged as the effective type.  The check is syntactic:
//! renaming or re-exporting the optional wrapper defeats it, and such a
//! field is classified required.

use vstd::prelude::*;
use vstd::string::StringExecFns;
use crate::ast::{type_text, TypeRef};

verus! {

/// Holds when a declared type has the optional-wrapper shape: a single
/// unqualified name that is literally `Option`, with exactly one generic
/// type argument.
pub open spec fn is_option_shape(t: TypeRef) -> bool {
    t matches TypeRef::Applied { name, args } && name@ == "Option"@ && args@.len() == 1
}

/// The text of the single type argument under the optional wrapper.
pub open spec fn option_inner_text(t: TypeRef) -> Seq<char>
    recommends
        is_option_shape(t),
{
    match t {
        TypeRef::Applied { name, args } => args@[0]@,
        TypeRef::Other { text } => text@,
    }
}

/// The field's *effective* type: the unwrapped inner type when the declared
/// type is the optional wrapper, the declared type itself otherwise.
pub open spec fn effective_type_text(t: TypeRef) -> Seq<char> {
    if is_option_shape(t) {
        option_inner_text(t)
    } else {
        type_text(t)
    }
}

/// Decides whether a declared type has the optional-wrapper shape.
pub fn is_option_type(t: &TypeRef) -> (r: bool)
    ensures
        r == is_option_shape(*t),
{
    match t {
        TypeRef::Applied { name, args } => {
            let wrapper = String::from_str("Option");
            *name == wrapper && args.len() == 1
        },
        TypeRef::Other { .. } => false,
    }
}

/// The classifier: `Ok` with the inner type's text when the declared type
/// is the optional wrapper, `Err` with the declared type's own text
/// otherwise.  There is no failure path — the worst case is a required
/// classification.
pub fn try_get_option_generics(ty: &TypeRef) -> (r: Result<String, String>)
    ensures
        is_option_shape(*ty) ==> (r matches Ok(inner) && inner@ == option_inner_text(*ty)),
        !is_option_shape(*ty) ==> (r matches Err(original) && original@ == type_text(*ty)),
{
    match ty {
        TypeRef::Applied { name, args } => {
            let wrapper = String::from_str("Option");
            if *name == wrapper && args.len() == 1 {
                Ok(args[0].clone())
            } else {
                Err(crate::ast::render_type(ty))
            }
        },
        TypeRef::Other { .. } => Err(crate::ast::render_type(ty)),
    }
}

/// Renders a field's effective type.
pub fn render_effective_type(ty: &TypeRef) -> (r: String)
    ensures
        r@ == effective_type_text(*ty),
{
    match try_get_option_generics(ty) {
        Ok(inner) => inner,
        Err(original) => original,
    }
}

} // verus!
