//! Shared operator helpers.
//!
//! Generated operators in delegated mode call these functions, so that all
//! strong types over one primitive share a single compiled body per operator.
//! Every helper unwraps its operands, applies the primitive's own operator and
//! wraps the outcome again: the value an inline operator body computes.
//!
//! A helper's precondition is the primitive operator's own (no overflow, no
//! division by zero, a shift amount below the bit width). Its postcondition is
//! stated through the primitive's operator specification and holds wherever
//! the primitive type obeys that specification. The built-in integers obey
//! it for every operator here, a shift only where the amount has the
//! integer's own type; `bool` obeys it for `!` and `^`. For any other
//! primitive and operator, `bool` with `&` and `|` and the floating types
//! among them, neither the precondition nor the postcondition is known to
//! the verifier: verified code cannot call the helper there, and code that
//! is not verified gets what the primitive's operator computes.

use vstd::prelude::*;
use vstd::std_specs::ops::*;
use core::ops::{Neg, Not};

verus! {

/// Access to the primitive value a strong type wraps.
///
/// Strong types compare by their wrapped values, so `primitive` is the
/// mathematical view through which every helper below is specified.
pub trait StrongTypeOps: Sized {
    type Primitive: Copy;

    /// The wrapped primitive value. An implementation says what it is;
    /// where one does not, nothing is known of it.
    open spec fn primitive(self) -> Self::Primitive {
        arbitrary()
    }

    /// Extracts the primitive value from the strong type.
    fn to_primitive(self) -> (val: Self::Primitive)
        ensures
            val == self.primitive(),
    ;

    /// Creates a strong type from a primitive value.
    fn from_primitive(val: Self::Primitive) -> (wrapped: Self)
        ensures
            wrapped.primitive() == val,
    ;
}

/// Adds the wrapped values and wraps the sum.
#[inline(never)]
pub fn delegate_add<T>(lhs: T, rhs: T) -> (out: T) where
    T: StrongTypeOps,
    T::Primitive: core::ops::Add<Output = T::Primitive>,

    requires
        lhs.primitive().add_req(rhs.primitive()),
    ensures
        T::Primitive::obeys_add_spec() ==> out.primitive() == lhs.primitive().add_spec(
            rhs.primitive(),
        ),
{
    T::from_primitive(lhs.to_primitive() + rhs.to_primitive())
}

/// Subtracts the right wrapped value from the left one and wraps the difference.
#[inline(never)]
pub fn delegate_sub<T>(lhs: T, rhs: T) -> (out: T) where
    T: StrongTypeOps,
    T::Primitive: core::ops::Sub<Output = T::Primitive>,

    requires
        lhs.primitive().sub_req(rhs.primitive()),
    ensures
        T::Primitive::obeys_sub_spec() ==> out.primitive() == lhs.primitive().sub_spec(
            rhs.primitive(),
        ),
{
    T::from_primitive(lhs.to_primitive() - rhs.to_primitive())
}

/// Multiplies the wrapped values and wraps the product.
#[inline(never)]
pub fn delegate_mul<T>(lhs: T, rhs: T) -> (out: T) where
    T: StrongTypeOps,
    T::Primitive: core::ops::Mul<Output = T::Primitive>,

    requires
        lhs.primitive().mul_req(rhs.primitive()),
    ensures
        T::Primitive::obeys_mul_spec() ==> out.primitive() == lhs.primitive().mul_spec(
            rhs.primitive(),
        ),
{
    T::from_primitive(lhs.to_primitive() * rhs.to_primitive())
}

/// Divides the left wrapped value by the right one and wraps the quotient.
#[inline(never)]
pub fn delegate_div<T>(lhs: T, rhs: T) -> (out: T) where
    T: StrongTypeOps,
    T::Primitive: core::ops::Div<Output = T::Primitive>,

    requires
        lhs.primitive().div_req(rhs.primitive()),
    ensures
        T::Primitive::obeys_div_spec() ==> out.primitive() == lhs.primitive().div_spec(
            rhs.primitive(),
        ),
{
    T::from_primitive(lhs.to_primitive() / rhs.to_primitive())
}

/// Wraps the remainder of dividing the left wrapped value by the right one.
#[inline(never)]
pub fn delegate_rem<T>(lhs: T, rhs: T) -> (out: T) where
    T: StrongTypeOps,
    T::Primitive: core::ops::Rem<Output = T::Primitive>,

    requires
        lhs.primitive().rem_req(rhs.primitive()),
    ensures
        T::Primitive::obeys_rem_spec() ==> out.primitive() == lhs.primitive().rem_spec(
            rhs.primitive(),
        ),
{
    T::from_primitive(lhs.to_primitive() % rhs.to_primitive())
}

/// Wraps the bitwise conjunction of the wrapped values.
#[inline(never)]
pub fn delegate_bitand<T>(lhs: T, rhs: T) -> (out: T) where
    T: StrongTypeOps,
    T::Primitive: core::ops::BitAnd<Output = T::Primitive>,

    requires
        lhs.primitive().bitand_req(rhs.primitive()),
    ensures
        T::Primitive::obeys_bitand_spec() ==> out.primitive() == lhs.primitive().bitand_spec(
            rhs.primitive(),
        ),
{
    T::from_primitive(lhs.to_primitive() & rhs.to_primitive())
}

/// Wraps the bitwise disjunction of the wrapped values.
#[inline(never)]
pub fn delegate_bitor<T>(lhs: T, rhs: T) -> (out: T) where
    T: StrongTypeOps,
    T::Primitive: core::ops::BitOr<Output = T::Primitive>,

    requires
        lhs.primitive().bitor_req(rhs.primitive()),
    ensures
        T::Primitive::obeys_bitor_spec() ==> out.primitive() == lhs.primitive().bitor_spec(
            rhs.primitive(),
        ),
{
    T::from_primitive(lhs.to_primitive() | rhs.to_primitive())
}

/// Wraps the bitwise exclusive disjunction of the wrapped values.
#[inline(never)]
pub fn delegate_bitxor<T>(lhs: T, rhs: T) -> (out: T) where
    T: StrongTypeOps,
    T::Primitive: core::ops::BitXor<Output = T::Primitive>,

    requires
        lhs.primitive().bitxor_req(rhs.primitive()),
    ensures
        T::Primitive::obeys_bitxor_spec() ==> out.primitive() == lhs.primitive().bitxor_spec(
            rhs.primitive(),
        ),
{
    T::from_primitive(lhs.to_primitive() ^ rhs.to_primitive())
}

/// Wraps the negation of the wrapped value.
#[inline(never)]
pub fn delegate_neg<T>(val: T) -> (out: T) where
    T: StrongTypeOps,
    T::Primitive: core::ops::Neg<Output = T::Primitive>,

    requires
        val.primitive().neg_req(),
    ensures
        T::Primitive::obeys_neg_spec() ==> out.primitive() == val.primitive().neg_spec(),
{
    T::from_primitive(val.to_primitive().neg())
}

/// Wraps the complement of the wrapped value.
#[inline(never)]
pub fn delegate_not<T>(val: T) -> (out: T) where
    T: StrongTypeOps,
    T::Primitive: core::ops::Not<Output = T::Primitive>,

    requires
        val.primitive().not_req(),
    ensures
        T::Primitive::obeys_not_spec() ==> out.primitive() == val.primitive().not_spec(),
{
    T::from_primitive(val.to_primitive().not())
}

/// Shifts the wrapped value left by `rhs` and wraps the outcome.
#[inline(never)]
pub fn delegate_shl<T, Rhs>(lhs: T, rhs: Rhs) -> (out: T) where
    T: StrongTypeOps,
    T::Primitive: core::ops::Shl<Rhs, Output = T::Primitive>,
    Rhs: Copy,

    requires
        lhs.primitive().shl_req(rhs),
    ensures
        <T::Primitive as ShlSpec<Rhs>>::obeys_shl_spec() ==> out.primitive()
            == lhs.primitive().shl_spec(rhs),
{
    T::from_primitive(lhs.to_primitive() << rhs)
}

/// Shifts the wrapped value right by `rhs` and wraps the outcome.
#[inline(never)]
pub fn delegate_shr<T, Rhs>(lhs: T, rhs: Rhs) -> (out: T) where
    T: StrongTypeOps,
    T::Primitive: core::ops::Shr<Rhs, Output = T::Primitive>,
    Rhs: Copy,

    requires
        lhs.primitive().shr_req(rhs),
    ensures
        <T::Primitive as ShrSpec<Rhs>>::obeys_shr_spec() ==> out.primitive()
            == lhs.primitive().shr_spec(rhs),
{
    T::from_primitive(lhs.to_primitive() >> rhs)
}

/// Multiplies the wrapped value by a bare primitive and wraps the product.
#[inline(never)]
pub fn delegate_scalar_mul<T>(lhs: T, rhs: T::Primitive) -> (out: T) where
    T: StrongTypeOps,
    T::Primitive: core::ops::Mul<Output = T::Primitive>,

    requires
        lhs.primitive().mul_req(rhs),
    ensures
        T::Primitive::obeys_mul_spec() ==> out.primitive() == lhs.primitive().mul_spec(rhs),
{
    T::from_primitive(lhs.to_primitive() * rhs)
}

/// Divides the wrapped value by a bare primitive and wraps the quotient.
#[inline(never)]
pub fn delegate_scalar_div<T>(lhs: T, rhs: T::Primitive) -> (out: T) where
    T: StrongTypeOps,
    T::Primitive: core::ops::Div<Output = T::Primitive>,

    requires
        lhs.primitive().div_req(rhs),
    ensures
        T::Primitive::obeys_div_spec() ==> out.primitive() == lhs.primitive().div_spec(rhs),
{
    T::from_primitive(lhs.to_primitive() / rhs)
}

/// Wraps the remainder of dividing the wrapped value by a bare primitive.
#[inline(never)]
pub fn delegate_scalar_rem<T>(lhs: T, rhs: T::Primitive) -> (out: T) where
    T: StrongTypeOps,
    T::Primitive: core::ops::Rem<Output = T::Primitive>,

    requires
        lhs.primitive().rem_req(rhs),
    ensures
        T::Primitive::obeys_rem_spec() ==> out.primitive() == lhs.primitive().rem_spec(rhs),
{
    T::from_primitive(lhs.to_primitive() % rhs)
}

} // verus!
