//! Operators that compute through the shared helpers.
//!
//! In delegated mode a type has the operators of full mode. The body of each
//! operator on owned operands calls the helper of [`crate::delegation`] in
//! place of the primitive operator, so that every strong type over one
//! primitive shares one compiled body. The forms with a borrowed operand
//! stay inline.

use vstd::prelude::*;
use proc_macro2::TokenStream;
use crate::codegen_framework::{
    arithmetic_catalog,
    arithmetic_operators,
    binary_family_sources,
    bit_shift_sources,
    bool_sources,
    generate_unary_operator_with_strategy,
    render_binary_family,
    render_bit_shift_sources,
    render_bool_sources,
    render_scalar_family,
    scalable_catalog,
    scalable_operators,
    scalar_family_sources,
    unary_operator_text,
    unary_ops,
    DelegationStrategy,
    GenerationMode,
};
use crate::error::StrongTypeError;
use crate::lexing::{is_lexing_of, tokenize_all};

verus! {

/// Generates the arithmetic operators `+ - * / %`, delegating.
pub fn implement_delegated_arithmetic(name: &str) -> (outcome: Result<
    TokenStream,
    StrongTypeError,
>)
    ensures
        is_lexing_of(
            outcome,
            binary_family_sources(
                name@,
                arithmetic_operators(),
                GenerationMode::Full,
                DelegationStrategy::Delegate,
            ).flatten(),
        ),
{
    let sources = render_binary_family(
        name,
        &arithmetic_catalog(),
        GenerationMode::Full,
        DelegationStrategy::Delegate,
    );
    tokenize_all(&sources)
}

/// Generates the negation, delegating.
pub fn implement_delegated_negate(name: &str) -> (outcome: Result<TokenStream, StrongTypeError>)
    ensures
        is_lexing_of(
            outcome,
            unary_operator_text(
                name@,
                unary_ops::negation(),
                GenerationMode::Full,
                DelegationStrategy::Delegate,
            ),
        ),
{
    generate_unary_operator_with_strategy(
        name,
        &unary_ops::negation(),
        GenerationMode::Full,
        DelegationStrategy::Delegate,
    )
}

/// Generates the operators of a boolean type, `! & | ^`, delegating.
pub fn implement_delegated_bool_ops(name: &str) -> (outcome: Result<TokenStream, StrongTypeError>)
    ensures
        is_lexing_of(
            outcome,
            bool_sources(name@, GenerationMode::Full, DelegationStrategy::Delegate).flatten(),
        ),
{
    let sources = render_bool_sources(name, GenerationMode::Full, DelegationStrategy::Delegate);
    tokenize_all(&sources)
}

/// Generates the operators `* / %` against a bare value, delegating.
pub fn implement_delegated_scalable(name: &str, value_type: &str) -> (outcome: Result<
    TokenStream,
    StrongTypeError,
>)
    ensures
        is_lexing_of(
            outcome,
            scalar_family_sources(
                name@,
                value_type@,
                scalable_operators(),
                DelegationStrategy::Delegate,
            ).flatten(),
        ),
{
    let sources = render_scalar_family(
        name,
        value_type,
        &scalable_catalog(),
        DelegationStrategy::Delegate,
    );
    tokenize_all(&sources)
}

/// Generates the bit shifts by every integer type, delegating.
pub fn implement_delegated_bit_shift(name: &str) -> (outcome: Result<TokenStream, StrongTypeError>)
    ensures
        is_lexing_of(
            outcome,
            bit_shift_sources(name@, DelegationStrategy::Delegate).flatten(),
        ),
{
    let sources = render_bit_shift_sources(name, DelegationStrategy::Delegate);
    tokenize_all(&sources)
}

} // verus!
