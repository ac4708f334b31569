//! The scalar operators of the catalog.

use vstd::prelude::*;
use super::ScalarOperatorSpec;

verus! {

/// The descriptor of `*` against a bare value, in either order of the operands.
pub open spec fn spec_multiplication() -> ScalarOperatorSpec {
    ScalarOperatorSpec {
        trait_name: "Mul",
        method: "mul",
        op_symbol: "*",
        assign_trait: "MulAssign",
        assign_method: "mul_assign",
        assign_op_symbol: "*=",
        commutative: true,
    }
}

/// The descriptor of `*` against a bare value, in either order of the operands.
#[verifier::when_used_as_spec(spec_multiplication)]
pub fn multiplication() -> (op: ScalarOperatorSpec)
    ensures
        op == spec_multiplication(),
{
    ScalarOperatorSpec {
        trait_name: "Mul",
        method: "mul",
        op_symbol: "*",
        assign_trait: "MulAssign",
        assign_method: "mul_assign",
        assign_op_symbol: "*=",
        commutative: true,
    }
}

/// The descriptor of `/` by a bare value.
pub open spec fn spec_division() -> ScalarOperatorSpec {
    ScalarOperatorSpec {
        trait_name: "Div",
        method: "div",
        op_symbol: "/",
        assign_trait: "DivAssign",
        assign_method: "div_assign",
        assign_op_symbol: "/=",
        commutative: false,
    }
}

/// The descriptor of `/` by a bare value.
#[verifier::when_used_as_spec(spec_division)]
pub fn division() -> (op: ScalarOperatorSpec)
    ensures
        op == spec_division(),
{
    ScalarOperatorSpec {
        trait_name: "Div",
        method: "div",
        op_symbol: "/",
        assign_trait: "DivAssign",
        assign_method: "div_assign",
        assign_op_symbol: "/=",
        commutative: false,
    }
}

/// The descriptor of `%` by a bare value.
pub open spec fn spec_remainder() -> ScalarOperatorSpec {
    ScalarOperatorSpec {
        trait_name: "Rem",
        method: "rem",
        op_symbol: "%",
        assign_trait: "RemAssign",
        assign_method: "rem_assign",
        assign_op_symbol: "%=",
        commutative: false,
    }
}

/// The descriptor of `%` by a bare value.
#[verifier::when_used_as_spec(spec_remainder)]
pub fn remainder() -> (op: ScalarOperatorSpec)
    ensures
        op == spec_remainder(),
{
    ScalarOperatorSpec {
        trait_name: "Rem",
        method: "rem",
        op_symbol: "%",
        assign_trait: "RemAssign",
        assign_method: "rem_assign",
        assign_op_symbol: "%=",
        commutative: false,
    }
}

} // verus!
