//! A small library of constrained value types: wrappers that guarantee,
//! for the lifetime of every instance, that an invariant over a primitive
//! value holds — a numeric value inside an inclusive range, a string whose
//! content passes a pluggable validator, a collection with at least one
//! element. Validation happens at construction, so downstream code can
//! treat the invariant as a fact; every constructor's behaviour is stated
//! in its contract and proved.

pub mod strutil;
pub mod decimal;
pub mod errors;
pub mod bounded;
pub mod validated_string;
pub mod collection;
pub mod scope_functions;
pub mod scope_functions_ext;
pub mod str_extension;
