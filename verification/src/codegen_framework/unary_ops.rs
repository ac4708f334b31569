//! The unary operators of the catalog.

use vstd::prelude::*;
use super::UnaryOperatorSpec;

verus! {

/// The descriptor of `-`, the arithmetic negation.
pub open spec fn spec_negation() -> UnaryOperatorSpec {
    UnaryOperatorSpec { trait_name: "Neg", method: "neg", op_symbol: "-" }
}

/// The descriptor of `-`, the arithmetic negation.
#[verifier::when_used_as_spec(spec_negation)]
pub fn negation() -> (op: UnaryOperatorSpec)
    ensures
        op == spec_negation(),
{
    UnaryOperatorSpec { trait_name: "Neg", method: "neg", op_symbol: "-" }
}

/// The descriptor of `!`, the logical complement.
pub open spec fn spec_logical_not() -> UnaryOperatorSpec {
    UnaryOperatorSpec { trait_name: "Not", method: "not", op_symbol: "!" }
}

/// The descriptor of `!`, the logical complement.
#[verifier::when_used_as_spec(spec_logical_not)]
pub fn logical_not() -> (op: UnaryOperatorSpec)
    ensures
        op == spec_logical_not(),
{
    UnaryOperatorSpec { trait_name: "Not", method: "not", op_symbol: "!" }
}

} // verus!
