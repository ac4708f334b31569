//! Laws of the operators on integer strong types.
//!
//! An operator of a strong type computes on the wrapped values and wraps the
//! outcome, so a strong type over a built-in integer obeys the laws of that
//! integer's operators wherever they neither overflow nor divide by zero.
//! The laws are stated once, in [`IntegerPrimitive`] and
//! [`SignedPrimitive`], over the operator specifications through which
//! [`crate::delegation`] states what its helpers return, and proved for each
//! built-in integer type.

use vstd::prelude::*;
use vstd::std_specs::ops::*;
use crate::delegation::StrongTypeOps;

verus! {

/// A built-in integer type, with the laws its operators obey.
pub trait IntegerPrimitive: Copy + core::ops::Add<Output = Self> + core::ops::Sub<
    Output = Self,
> + core::ops::Mul<Output = Self> {
    /// The additive identity, the value of the constant `ZERO`.
    spec fn zero() -> Self;

    /// The multiplicative identity, the value of the constant `ONE`.
    spec fn one() -> Self;

    /// The operators are specified.
    proof fn operators_obey_specs()
        ensures
            Self::obeys_add_spec(),
            Self::obeys_sub_spec(),
            Self::obeys_mul_spec(),
    ;

    /// Round trip: `a + b - b == a` wherever `a + b` does not overflow.
    proof fn add_then_sub(a: Self, b: Self)
        requires
            a.add_req(b),
        ensures
            a.add_spec(b).sub_req(b),
            a.add_spec(b).sub_spec(b) == a,
    ;

    /// `a + ZERO == a`, and the sum never overflows.
    proof fn add_zero(a: Self)
        ensures
            a.add_req(Self::zero()),
            a.add_spec(Self::zero()) == a,
    ;

    /// `a * ONE == a`, and the product never overflows.
    proof fn mul_one(a: Self)
        ensures
            a.mul_req(Self::one()),
            a.mul_spec(Self::one()) == a,
    ;

    /// `ZERO + a == a`, and the sum never overflows.
    proof fn zero_add(a: Self)
        ensures
            Self::zero().add_req(a),
            Self::zero().add_spec(a) == a,
    ;

    /// `ONE * a == a`, and the product never overflows.
    proof fn one_mul(a: Self)
        ensures
            Self::one().mul_req(a),
            Self::one().mul_spec(a) == a,
    ;
}

/// A built-in signed integer type, with the law of its negation.
pub trait SignedPrimitive: IntegerPrimitive + core::ops::Neg<Output = Self> {
    /// The negation is specified.
    proof fn negation_obeys_spec()
        ensures
            Self::obeys_neg_spec(),
    ;

    /// Double negation: `-(-a) == a` wherever `-a` does not overflow.
    proof fn neg_then_neg(a: Self)
        requires
            a.neg_req(),
        ensures
            a.neg_spec().neg_req(),
            a.neg_spec().neg_spec() == a,
    ;
}

impl IntegerPrimitive for i8 {
    open spec fn zero() -> i8 {
        0
    }

    open spec fn one() -> i8 {
        1
    }

    proof fn operators_obey_specs() {
    }

    proof fn add_then_sub(a: i8, b: i8) {
    }

    proof fn add_zero(a: i8) {
    }

    proof fn mul_one(a: i8) {
    }

    proof fn zero_add(a: i8) {
    }

    proof fn one_mul(a: i8) {
    }
}

impl IntegerPrimitive for i16 {
    open spec fn zero() -> i16 {
        0
    }

    open spec fn one() -> i16 {
        1
    }

    proof fn operators_obey_specs() {
    }

    proof fn add_then_sub(a: i16, b: i16) {
    }

    proof fn add_zero(a: i16) {
    }

    proof fn mul_one(a: i16) {
    }

    proof fn zero_add(a: i16) {
    }

    proof fn one_mul(a: i16) {
    }
}

impl IntegerPrimitive for i32 {
    open spec fn zero() -> i32 {
        0
    }

    open spec fn one() -> i32 {
        1
    }

    proof fn operators_obey_specs() {
    }

    proof fn add_then_sub(a: i32, b: i32) {
    }

    proof fn add_zero(a: i32) {
    }

    proof fn mul_one(a: i32) {
    }

    proof fn zero_add(a: i32) {
    }

    proof fn one_mul(a: i32) {
    }
}

impl IntegerPrimitive for i64 {
    open spec fn zero() -> i64 {
        0
    }

    open spec fn one() -> i64 {
        1
    }

    proof fn operators_obey_specs() {
    }

    proof fn add_then_sub(a: i64, b: i64) {
    }

    proof fn add_zero(a: i64) {
    }

    proof fn mul_one(a: i64) {
    }

    proof fn zero_add(a: i64) {
    }

    proof fn one_mul(a: i64) {
    }
}

impl IntegerPrimitive for i128 {
    open spec fn zero() -> i128 {
        0
    }

    open spec fn one() -> i128 {
        1
    }

    proof fn operators_obey_specs() {
    }

    proof fn add_then_sub(a: i128, b: i128) {
    }

    proof fn add_zero(a: i128) {
    }

    proof fn mul_one(a: i128) {
    }

    proof fn zero_add(a: i128) {
    }

    proof fn one_mul(a: i128) {
    }
}

impl IntegerPrimitive for isize {
    open spec fn zero() -> isize {
        0
    }

    open spec fn one() -> isize {
        1
    }

    proof fn operators_obey_specs() {
    }

    proof fn add_then_sub(a: isize, b: isize) {
    }

    proof fn add_zero(a: isize) {
    }

    proof fn mul_one(a: isize) {
    }

    proof fn zero_add(a: isize) {
    }

    proof fn one_mul(a: isize) {
    }
}

impl IntegerPrimitive for u8 {
    open spec fn zero() -> u8 {
        0
    }

    open spec fn one() -> u8 {
        1
    }

    proof fn operators_obey_specs() {
    }

    proof fn add_then_sub(a: u8, b: u8) {
    }

    proof fn add_zero(a: u8) {
    }

    proof fn mul_one(a: u8) {
    }

    proof fn zero_add(a: u8) {
    }

    proof fn one_mul(a: u8) {
    }
}

impl IntegerPrimitive for u16 {
    open spec fn zero() -> u16 {
        0
    }

    open spec fn one() -> u16 {
        1
    }

    proof fn operators_obey_specs() {
    }

    proof fn add_then_sub(a: u16, b: u16) {
    }

    proof fn add_zero(a: u16) {
    }

    proof fn mul_one(a: u16) {
    }

    proof fn zero_add(a: u16) {
    }

    proof fn one_mul(a: u16) {
    }
}

impl IntegerPrimitive for u32 {
    open spec fn zero() -> u32 {
        0
    }

    open spec fn one() -> u32 {
        1
    }

    proof fn operators_obey_specs() {
    }

    proof fn add_then_sub(a: u32, b: u32) {
    }

    proof fn add_zero(a: u32) {
    }

    proof fn mul_one(a: u32) {
    }

    proof fn zero_add(a: u32) {
    }

    proof fn one_mul(a: u32) {
    }
}

impl IntegerPrimitive for u64 {
    open spec fn zero() -> u64 {
        0
    }

    open spec fn one() -> u64 {
        1
    }

    proof fn operators_obey_specs() {
    }

    proof fn add_then_sub(a: u64, b: u64) {
    }

    proof fn add_zero(a: u64) {
    }

    proof fn mul_one(a: u64) {
    }

    proof fn zero_add(a: u64) {
    }

    proof fn one_mul(a: u64) {
    }
}

impl IntegerPrimitive for u128 {
    open spec fn zero() -> u128 {
        0
    }

    open spec fn one() -> u128 {
        1
    }

    proof fn operators_obey_specs() {
    }

    proof fn add_then_sub(a: u128, b: u128) {
    }

    proof fn add_zero(a: u128) {
    }

    proof fn mul_one(a: u128) {
    }

    proof fn zero_add(a: u128) {
    }

    proof fn one_mul(a: u128) {
    }
}

impl IntegerPrimitive for usize {
    open spec fn zero() -> usize {
        0
    }

    open spec fn one() -> usize {
        1
    }

    proof fn operators_obey_specs() {
    }

    proof fn add_then_sub(a: usize, b: usize) {
    }

    proof fn add_zero(a: usize) {
    }

    proof fn mul_one(a: usize) {
    }

    proof fn zero_add(a: usize) {
    }

    proof fn one_mul(a: usize) {
    }
}

impl SignedPrimitive for i8 {
    proof fn negation_obeys_spec() {
    }

    proof fn neg_then_neg(a: i8) {
    }
}

impl SignedPrimitive for i16 {
    proof fn negation_obeys_spec() {
    }

    proof fn neg_then_neg(a: i16) {
    }
}

impl SignedPrimitive for i32 {
    proof fn negation_obeys_spec() {
    }

    proof fn neg_then_neg(a: i32) {
    }
}

impl SignedPrimitive for i64 {
    proof fn negation_obeys_spec() {
    }

    proof fn neg_then_neg(a: i64) {
    }
}

impl SignedPrimitive for i128 {
    proof fn negation_obeys_spec() {
    }

    proof fn neg_then_neg(a: i128) {
    }
}

impl SignedPrimitive for isize {
    proof fn negation_obeys_spec() {
    }

    proof fn neg_then_neg(a: isize) {
    }
}

/// The sum of a sequence of values, as the reduction `Sum` folds it: from
/// `ZERO`, by `+`.
pub open spec fn sum_of<P: IntegerPrimitive>(items: Seq<P>) -> P {
    items.fold_left(P::zero(), |total: P, item: P| total.add_spec(item))
}

/// The product of a sequence of values, as the reduction `Product` folds it:
/// from `ONE`, by `*`.
pub open spec fn product_of<P: IntegerPrimitive>(items: Seq<P>) -> P {
    items.fold_left(P::one(), |total: P, item: P| total.mul_spec(item))
}

/// The reduction of no items is the neutral element: the sum is `ZERO`, the
/// product is `ONE`.
pub proof fn law_empty_reduction<P: IntegerPrimitive>()
    ensures
        sum_of(Seq::<P>::empty()) == P::zero(),
        product_of(Seq::<P>::empty()) == P::one(),
{
}

/// Round trip on strong types: where `sum` is `a + b` and `back` is
/// `sum - b`, the subtraction is defined and `back` equals `a`.
pub proof fn law_add_sub_round_trip<T: StrongTypeOps>(a: T, b: T, sum: T, back: T) where
    T::Primitive: IntegerPrimitive,

    requires
        a.primitive().add_req(b.primitive()),
        sum.primitive() == a.primitive().add_spec(b.primitive()),
        back.primitive() == sum.primitive().sub_spec(b.primitive()),
    ensures
        sum.primitive().sub_req(b.primitive()),
        back.primitive() == a.primitive(),
{
    T::Primitive::add_then_sub(a.primitive(), b.primitive());
}

/// Multiplicative identity on strong types: where `one` wraps `ONE` and
/// `product` is `a * one`, the multiplication is defined and `product`
/// equals `a`.
pub proof fn law_mul_identity<T: StrongTypeOps>(a: T, one: T, product: T) where
    T::Primitive: IntegerPrimitive,

    requires
        one.primitive() == T::Primitive::one(),
        product.primitive() == a.primitive().mul_spec(one.primitive()),
    ensures
        a.primitive().mul_req(one.primitive()),
        product.primitive() == a.primitive(),
{
    T::Primitive::mul_one(a.primitive());
}

/// Double negation on strong types: where `negated` is `-a` and `back` is
/// `-negated`, the second negation is defined and `back` equals `a`.
pub proof fn law_double_negation<T: StrongTypeOps>(a: T, negated: T, back: T) where
    T::Primitive: SignedPrimitive,

    requires
        a.primitive().neg_req(),
        negated.primitive() == a.primitive().neg_spec(),
        back.primitive() == negated.primitive().neg_spec(),
    ensures
        negated.primitive().neg_req(),
        back.primitive() == a.primitive(),
{
    T::Primitive::neg_then_neg(a.primitive());
}

} // verus!
