//! The binary operators of the catalog.

use vstd::prelude::*;
use super::BinaryOperatorSpec;

verus! {

/// The descriptor of `+`, whose reduction is `Sum`.
pub open spec fn spec_addition() -> BinaryOperatorSpec {
    BinaryOperatorSpec {
        trait_name: "Add",
        method: "add",
        op_symbol: "+",
        assign_trait: "AddAssign",
        assign_method: "add_assign",
        assign_op_symbol: "+=",
        iterator_trait: Some("Sum"),
    }
}

/// The descriptor of `+`, whose reduction is `Sum`.
#[verifier::when_used_as_spec(spec_addition)]
pub fn addition() -> (op: BinaryOperatorSpec)
    ensures
        op == spec_addition(),
{
    BinaryOperatorSpec {
        trait_name: "Add",
        method: "add",
        op_symbol: "+",
        assign_trait: "AddAssign",
        assign_method: "add_assign",
        assign_op_symbol: "+=",
        iterator_trait: Some("Sum"),
    }
}

/// The descriptor of `-`.
pub open spec fn spec_subtraction() -> BinaryOperatorSpec {
    BinaryOperatorSpec {
        trait_name: "Sub",
        method: "sub",
        op_symbol: "-",
        assign_trait: "SubAssign",
        assign_method: "sub_assign",
        assign_op_symbol: "-=",
        iterator_trait: None,
    }
}

/// The descriptor of `-`.
#[verifier::when_used_as_spec(spec_subtraction)]
pub fn subtraction() -> (op: BinaryOperatorSpec)
    ensures
        op == spec_subtraction(),
{
    BinaryOperatorSpec {
        trait_name: "Sub",
        method: "sub",
        op_symbol: "-",
        assign_trait: "SubAssign",
        assign_method: "sub_assign",
        assign_op_symbol: "-=",
        iterator_trait: None,
    }
}

/// The descriptor of `*`, whose reduction is `Product`.
pub open spec fn spec_multiplication() -> BinaryOperatorSpec {
    BinaryOperatorSpec {
        trait_name: "Mul",
        method: "mul",
        op_symbol: "*",
        assign_trait: "MulAssign",
        assign_method: "mul_assign",
        assign_op_symbol: "*=",
        iterator_trait: Some("Product"),
    }
}

/// The descriptor of `*`, whose reduction is `Product`.
#[verifier::when_used_as_spec(spec_multiplication)]
pub fn multiplication() -> (op: BinaryOperatorSpec)
    ensures
        op == spec_multiplication(),
{
    BinaryOperatorSpec {
        trait_name: "Mul",
        method: "mul",
        op_symbol: "*",
        assign_trait: "MulAssign",
        assign_method: "mul_assign",
        assign_op_symbol: "*=",
        iterator_trait: Some("Product"),
    }
}

/// The descriptor of `/`.
pub open spec fn spec_division() -> BinaryOperatorSpec {
    BinaryOperatorSpec {
        trait_name: "Div",
        method: "div",
        op_symbol: "/",
        assign_trait: "DivAssign",
        assign_method: "div_assign",
        assign_op_symbol: "/=",
        iterator_trait: None,
    }
}

/// The descriptor of `/`.
#[verifier::when_used_as_spec(spec_division)]
pub fn division() -> (op: BinaryOperatorSpec)
    ensures
        op == spec_division(),
{
    BinaryOperatorSpec {
        trait_name: "Div",
        method: "div",
        op_symbol: "/",
        assign_trait: "DivAssign",
        assign_method: "div_assign",
        assign_op_symbol: "/=",
        iterator_trait: None,
    }
}

/// The descriptor of `%`.
pub open spec fn spec_remainder() -> BinaryOperatorSpec {
    BinaryOperatorSpec {
        trait_name: "Rem",
        method: "rem",
        op_symbol: "%",
        assign_trait: "RemAssign",
        assign_method: "rem_assign",
        assign_op_symbol: "%=",
        iterator_trait: None,
    }
}

/// The descriptor of `%`.
#[verifier::when_used_as_spec(spec_remainder)]
pub fn remainder() -> (op: BinaryOperatorSpec)
    ensures
        op == spec_remainder(),
{
    BinaryOperatorSpec {
        trait_name: "Rem",
        method: "rem",
        op_symbol: "%",
        assign_trait: "RemAssign",
        assign_method: "rem_assign",
        assign_op_symbol: "%=",
        iterator_trait: None,
    }
}

/// The descriptor of `&`.
pub open spec fn spec_bit_and() -> BinaryOperatorSpec {
    BinaryOperatorSpec {
        trait_name: "BitAnd",
        method: "bitand",
        op_symbol: "&",
        assign_trait: "BitAndAssign",
        assign_method: "bitand_assign",
        assign_op_symbol: "&=",
        iterator_trait: None,
    }
}

/// The descriptor of `&`.
#[verifier::when_used_as_spec(spec_bit_and)]
pub fn bit_and() -> (op: BinaryOperatorSpec)
    ensures
        op == spec_bit_and(),
{
    BinaryOperatorSpec {
        trait_name: "BitAnd",
        method: "bitand",
        op_symbol: "&",
        assign_trait: "BitAndAssign",
        assign_method: "bitand_assign",
        assign_op_symbol: "&=",
        iterator_trait: None,
    }
}

/// The descriptor of `|`.
pub open spec fn spec_bit_or() -> BinaryOperatorSpec {
    BinaryOperatorSpec {
        trait_name: "BitOr",
        method: "bitor",
        op_symbol: "|",
        assign_trait: "BitOrAssign",
        assign_method: "bitor_assign",
        assign_op_symbol: "|=",
        iterator_trait: None,
    }
}

/// The descriptor of `|`.
#[verifier::when_used_as_spec(spec_bit_or)]
pub fn bit_or() -> (op: BinaryOperatorSpec)
    ensures
        op == spec_bit_or(),
{
    BinaryOperatorSpec {
        trait_name: "BitOr",
        method: "bitor",
        op_symbol: "|",
        assign_trait: "BitOrAssign",
        assign_method: "bitor_assign",
        assign_op_symbol: "|=",
        iterator_trait: None,
    }
}

/// The descriptor of `^`.
pub open spec fn spec_bit_xor() -> BinaryOperatorSpec {
    BinaryOperatorSpec {
        trait_name: "BitXor",
        method: "bitxor",
        op_symbol: "^",
        assign_trait: "BitXorAssign",
        assign_method: "bitxor_assign",
        assign_op_symbol: "^=",
        iterator_trait: None,
    }
}

/// The descriptor of `^`.
#[verifier::when_used_as_spec(spec_bit_xor)]
pub fn bit_xor() -> (op: BinaryOperatorSpec)
    ensures
        op == spec_bit_xor(),
{
    BinaryOperatorSpec {
        trait_name: "BitXor",
        method: "bitxor",
        op_symbol: "^",
        assign_trait: "BitXorAssign",
        assign_method: "bitxor_assign",
        assign_op_symbol: "^=",
        iterator_trait: None,
    }
}

} // verus!
