//! The type classifier.
//!
//! A value type is classified by its name alone: an exact match against the
//! closed list of built-in scalar and text types, which the six categories
//! partition.

use vstd::prelude::*;
use crate::text::str_eq;

verus! {

/// Whether a strong type wraps a primitive directly or wraps another strong
/// type.
#[derive(Debug, Clone, Copy, PartialEq, Eq)]
pub enum UnderlyingType {
    /// The wrapped type is one of the built-in primitives.
    Primitive,
    /// The wrapped type is itself a strong type.
    Derived,
}

/// The category of the primitive a strong type stands for, with its
/// provenance.
#[derive(Debug, Clone, Copy, PartialEq, Eq)]
pub enum ValueTypeGroup {
    Int(UnderlyingType),
    Float(UnderlyingType),
    UInt(UnderlyingType),
    Bool(UnderlyingType),
    Char(UnderlyingType),
    String(UnderlyingType),
}

impl ValueTypeGroup {
    /// The provenance of the group.
    pub open spec fn spec_underlying(self) -> UnderlyingType {
        match self {
            ValueTypeGroup::Int(underlying)
            | ValueTypeGroup::Float(underlying)
            | ValueTypeGroup::UInt(underlying)
            | ValueTypeGroup::Bool(underlying)
            | ValueTypeGroup::Char(underlying)
            | ValueTypeGroup::String(underlying) => underlying,
        }
    }

    /// The provenance of the group.
    #[verifier::when_used_as_spec(spec_underlying)]
    pub fn underlying(self) -> (underlying: UnderlyingType)
        ensures
            underlying == self.spec_underlying(),
    {
        match self {
            ValueTypeGroup::Int(underlying)
            | ValueTypeGroup::Float(underlying)
            | ValueTypeGroup::UInt(underlying)
            | ValueTypeGroup::Bool(underlying)
            | ValueTypeGroup::Char(underlying)
            | ValueTypeGroup::String(underlying) => underlying,
        }
    }
}

/// The names of the signed integer types.
pub open spec fn is_signed_integer(name: Seq<char>) -> bool {
    ||| name == "i8"@
    ||| name == "i16"@
    ||| name == "i32"@
    ||| name == "i64"@
    ||| name == "i128"@
    ||| name == "isize"@
}

/// The names of the unsigned integer types.
pub open spec fn is_unsigned_integer(name: Seq<char>) -> bool {
    ||| name == "u8"@
    ||| name == "u16"@
    ||| name == "u32"@
    ||| name == "u64"@
    ||| name == "u128"@
    ||| name == "usize"@
}

/// The names of the floating-point types.
pub open spec fn is_floating(name: Seq<char>) -> bool {
    name == "f32"@ || name == "f64"@
}

/// The group of the primitive called `name`, with the given provenance;
/// `None` where `name` is no supported primitive.
pub open spec fn type_group_of(name: Seq<char>, underlying: UnderlyingType) -> Option<
    ValueTypeGroup,
> {
    if is_signed_integer(name) {
        Some(ValueTypeGroup::Int(underlying))
    } else if is_unsigned_integer(name) {
        Some(ValueTypeGroup::UInt(underlying))
    } else if is_floating(name) {
        Some(ValueTypeGroup::Float(underlying))
    } else if name == "bool"@ {
        Some(ValueTypeGroup::Bool(underlying))
    } else if name == "char"@ {
        Some(ValueTypeGroup::Char(underlying))
    } else if name == "String"@ {
        Some(ValueTypeGroup::String(underlying))
    } else {
        None
    }
}

/// Classifies a primitive by its name.
pub fn get_type_group(value_type: &str, underlying_type: UnderlyingType) -> (group: Option<
    ValueTypeGroup,
>)
    ensures
        group == type_group_of(value_type@, underlying_type),
{
    if str_eq(value_type, "i8") || str_eq(value_type, "i16") || str_eq(value_type, "i32") || str_eq(
        value_type,
        "i64",
    ) || str_eq(value_type, "i128") || str_eq(value_type, "isize") {
        return Some(ValueTypeGroup::Int(underlying_type));
    }
    if str_eq(value_type, "u8") || str_eq(value_type, "u16") || str_eq(value_type, "u32") || str_eq(
        value_type,
        "u64",
    ) || str_eq(value_type, "u128") || str_eq(value_type, "usize") {
        return Some(ValueTypeGroup::UInt(underlying_type));
    }
    if str_eq(value_type, "f32") || str_eq(value_type, "f64") {
        return Some(ValueTypeGroup::Float(underlying_type));
    }
    if str_eq(value_type, "bool") {
        return Some(ValueTypeGroup::Bool(underlying_type));
    }
    if str_eq(value_type, "char") {
        return Some(ValueTypeGroup::Char(underlying_type));
    }
    if str_eq(value_type, "String") {
        return Some(ValueTypeGroup::String(underlying_type));
    }
    None
}

} // verus!
