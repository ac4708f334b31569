//! Strong types: single-field wrappers that give a primitive value a distinct
//! identity, the generator that decides which trait implementations such a
//! wrapper receives, and the shared helpers that generated operators call.

pub mod codegen_framework;
pub mod declaration;
pub mod delegated_operators;
pub mod delegation;
pub mod error;
pub mod features;
pub mod laws;
pub mod lexing;
pub mod metadata;
pub mod semantics;
pub mod strong_type;
pub mod text;
pub mod tokens;
pub mod underlying_type_utils;

use vstd::prelude::*;

verus! {

/// Links a strong type to the type it wraps and to the primitive type it
/// ultimately stands for.
pub trait StrongType: core::fmt::Debug + PartialEq + PartialOrd + Clone {
    type UnderlyingType;

    type PrimitiveType;
}

} // verus!
