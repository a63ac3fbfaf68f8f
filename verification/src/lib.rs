//! A compile-time companion-builder generator.
//!
//! Given the structural description of a record with named fields, the
//! library synthesizes the text of a companion builder type: one optional
//! slot per field, a fluent setter per field, and a `build` method that
//! fails on the first required field that was never set.  Fields whose
//! declared type is already the optional wrapper `Option<T>` are treated as
//! not required, and their setter takes the unwrapped inner type.
//!
//! The modules, in dependency order:
//! - [`ast`] — the structural model of the input declaration and its types;
//! - [`classify`] — decides per field whether it is required or optional;
//! - [`model`] — the runtime behaviour that the generated builder exhibits,
//!   stated and proved over a slot model;
//! - [`emit`] — synthesizes the generated unit's text.

pub mod ast;
pub mod classify;
pub mod model;
pub mod emit;
