//! What the emitted operators compute.
//!
//! The emitter writes few shapes of body. An inline operator body,
//! `Self::new(self.value() + rhs.value())`, unwraps the operands, applies the
//! primitive's operator and wraps the outcome. A delegated body,
//! `delegate_add(self, rhs)`, returns what the helper returns. An assignment
//! body, `self.0 += rhs.value()`, stores the outcome of the primitive's
//! operator. A reduction body, `iter.fold(Self::ZERO, std::ops::Add::add)`,
//! folds the items from the left, starting from the neutral element. The
//! emitted equality, `self.value() == rhs.value()`, compares the wrapped
//! values. The primitive accessor of a wrapper of a primitive,
//! `self.value()`, hands out the wrapped value; that of a wrapper of a strong
//! type, `self.0.primitive()`, forwards one level down.
//!
//! This module reads each shape as a relation between the wrapped values
//! that go in and the wrapped value that comes out: for the inline shapes
//! the specification of the primitive's operator, for the delegated shape
//! the postcondition that [`crate::delegation`] proves of the helper. Over
//! that reading it states the laws of the operators, for every
//! implementation that the emitter plans and for every built-in integer.
//! Nothing here runs the emitted text: that a body computes what its shape
//! reads as is the meaning of the Rust it is written in.

use vstd::prelude::*;
use vstd::std_specs::ops::*;
use crate::codegen_framework::{
    binary_operator_impls,
    binary_ops,
    neutral_element,
    reduction_name,
    BinaryImpl,
    BinaryOperatorSpec,
    DelegationStrategy,
    GenerationMode,
    UnaryImpl,
};
use crate::laws::{IntegerPrimitive, SignedPrimitive};

verus! {

/// The arithmetic operators whose laws are stated here.
pub enum Arithmetic {
    Add,
    Sub,
    Mul,
}

impl Arithmetic {
    /// The descriptor from which the emitter writes the operator.
    pub open spec fn descriptor(self) -> BinaryOperatorSpec {
        match self {
            Arithmetic::Add => binary_ops::addition(),
            Arithmetic::Sub => binary_ops::subtraction(),
            Arithmetic::Mul => binary_ops::multiplication(),
        }
    }

    /// Whether the primitive's operator is defined on `a` and `b`: whether
    /// its outcome does not overflow.
    pub open spec fn defined<P: IntegerPrimitive>(self, a: P, b: P) -> bool {
        match self {
            Arithmetic::Add => a.add_req(b),
            Arithmetic::Sub => a.sub_req(b),
            Arithmetic::Mul => a.mul_req(b),
        }
    }

    /// What the primitive's operator makes of `a` and `b`.
    pub open spec fn applied<P: IntegerPrimitive>(self, a: P, b: P) -> P {
        match self {
            Arithmetic::Add => a.add_spec(b),
            Arithmetic::Sub => a.sub_spec(b),
            Arithmetic::Mul => a.mul_spec(b),
        }
    }

    /// Whether the primitive's operator obeys its specification, the
    /// premise of what the helper promises.
    pub open spec fn obeyed<P: IntegerPrimitive>(self) -> bool {
        match self {
            Arithmetic::Add => P::obeys_add_spec(),
            Arithmetic::Sub => P::obeys_sub_spec(),
            Arithmetic::Mul => P::obeys_mul_spec(),
        }
    }

    /// The neutral element a reduction by the operator starts from: `ZERO`
    /// for the sum, `ONE` for the product.
    pub open spec fn neutral<P: IntegerPrimitive>(self) -> P {
        match self {
            Arithmetic::Add => P::zero(),
            _ => P::one(),
        }
    }
}

/// Whether an emitted implementation of an operator, called on operands that
/// wrap `a` and `b`, yields a value that wraps `out`.
///
/// An inline operator and an assignment yield what the primitive's operator
/// makes of the wrapped values, whichever way the operands are taken. A
/// delegated operator yields what the helper's postcondition allows. A
/// reduction takes no two operands and yields nothing here.
pub open spec fn yields<P: IntegerPrimitive>(
    op: Arithmetic,
    item: BinaryImpl,
    a: P,
    b: P,
    out: P,
) -> bool {
    match item {
        BinaryImpl::Operator { strategy: DelegationStrategy::Inline, .. } => out == op.applied(
            a,
            b,
        ),
        BinaryImpl::Operator { strategy: DelegationStrategy::Delegate, .. } => op.obeyed::<P>()
            ==> out == op.applied(a, b),
        BinaryImpl::Assignment { .. } => out == op.applied(a, b),
        BinaryImpl::Reduction { .. } => false,
    }
}

/// Whether an emitted implementation of the negation, called on an operand
/// that wraps `a`, yields a value that wraps `out`.
pub open spec fn negation_yields<P: SignedPrimitive>(item: UnaryImpl, a: P, out: P) -> bool {
    match item.strategy {
        DelegationStrategy::Inline => out == a.neg_spec(),
        DelegationStrategy::Delegate => P::obeys_neg_spec() ==> out == a.neg_spec(),
    }
}

/// What an emitted reduction by an operator yields on items that wrap
/// `items`: the fold from the left, from the neutral element.
pub open spec fn reduced<P: IntegerPrimitive>(op: Arithmetic, items: Seq<P>) -> P {
    items.fold_left(op.neutral::<P>(), |total: P, item: P| op.applied(total, item))
}

/// Whether the emitted equality holds of two values that wrap `a` and `b`.
pub open spec fn equal_as_emitted<V>(a: V, b: V) -> bool {
    a == b
}

/// What the primitive accessor yields for a value that reaches the primitive
/// value `bottom` through `levels` wrappers of strong types above the
/// innermost wrapper: the innermost hands out `bottom`, every other forwards
/// to the one it wraps.
pub open spec fn accessed<P>(levels: nat, bottom: P) -> P
    decreases levels,
{
    if levels == 0 {
        bottom
    } else {
        accessed((levels - 1) as nat, bottom)
    }
}

/// Forwarding composes: through any number of levels the primitive accessor
/// yields the primitive value at the bottom.
pub proof fn law_accessor_reaches_the_primitive<P>(levels: nat, bottom: P)
    ensures
        accessed(levels, bottom) == bottom,
    decreases levels,
{
    if levels > 0 {
        law_accessor_reaches_the_primitive((levels - 1) as nat, bottom);
    }
}

/// The text of a reduction starts from the neutral element of its operator:
/// the sum from `Self::ZERO`, the product from `Self::ONE`.
pub proof fn law_reduction_text_names_the_neutral_element()
    ensures
        neutral_element(reduction_name(Arithmetic::Add.descriptor())) == "Self::ZERO"@,
        neutral_element(reduction_name(Arithmetic::Mul.descriptor())) == "Self::ONE"@,
        Arithmetic::Sub.descriptor().iterator_trait.is_none(),
{
    reveal_strlit("Sum");
    reveal_strlit("Product");
    assert("Sum"@.len() != "Product"@.len());
}

/// Every form of an operator computes alike: whatever the mode, the
/// strategy and the way the operands are taken, an implementation that the
/// emitter plans yields what the primitive's operator makes of the wrapped
/// values. So minimal mode computes what full mode computes, and delegated
/// mode computes what inline bodies compute.
pub proof fn law_every_form_computes_alike<P: IntegerPrimitive>(
    op: Arithmetic,
    mode: GenerationMode,
    strategy: DelegationStrategy,
    i: int,
    a: P,
    b: P,
    out: P,
)
    requires
        0 <= i < binary_operator_impls(
            op.descriptor().iterator_trait.is_some(),
            mode,
            strategy,
        ).len(),
        yields(
            op,
            binary_operator_impls(op.descriptor().iterator_trait.is_some(), mode, strategy)[i],
            a,
            b,
            out,
        ),
    ensures
        out == op.applied(a, b),
{
    P::operators_obey_specs();
}

/// Round trip under the emitted operators: `(a + b) - b == a` wherever
/// `a + b` does not overflow, by whichever implementations of `+` and `-`
/// the two steps are taken, owned or borrowed, inline or delegated. The
/// subtraction is then defined.
pub proof fn law_emitted_round_trip<P: IntegerPrimitive>(
    plus: BinaryImpl,
    minus: BinaryImpl,
    a: P,
    b: P,
    sum: P,
    back: P,
)
    requires
        Arithmetic::Add.defined(a, b),
        yields(Arithmetic::Add, plus, a, b, sum),
        yields(Arithmetic::Sub, minus, sum, b, back),
    ensures
        Arithmetic::Sub.defined(sum, b),
        back == a,
{
    P::operators_obey_specs();
    P::add_then_sub(a, b);
}

/// Identity under the emitted multiplication: `a * ONE == a` and
/// `ONE * a == a`, by every implementation of `*`; neither product
/// overflows.
pub proof fn law_emitted_identity<P: IntegerPrimitive>(
    times: BinaryImpl,
    a: P,
    right: P,
    left: P,
)
    requires
        yields(Arithmetic::Mul, times, a, P::one(), right),
        yields(Arithmetic::Mul, times, P::one(), a, left),
    ensures
        Arithmetic::Mul.defined(a, P::one()),
        Arithmetic::Mul.defined(P::one(), a),
        right == a,
        left == a,
{
    P::operators_obey_specs();
    P::mul_one(a);
    P::one_mul(a);
}

/// Double negation under the emitted negation: `-(-a) == a` wherever `-a`
/// does not overflow, through the owned form and through the form on a
/// reference alike. The second negation is then defined.
pub proof fn law_emitted_double_negation<P: SignedPrimitive>(
    first: UnaryImpl,
    second: UnaryImpl,
    a: P,
    negated: P,
    back: P,
)
    requires
        a.neg_req(),
        negation_yields(first, a, negated),
        negation_yields(second, negated, back),
    ensures
        negated.neg_req(),
        back == a,
{
    P::negation_obeys_spec();
    P::neg_then_neg(a);
}

/// The emitted reductions: of no items the sum is `ZERO` and the product is
/// `ONE`; of one more item the reduction is the operator applied to the
/// reduction so far and that item, the fold from the left.
pub proof fn law_emitted_reduction<P: IntegerPrimitive>(op: Arithmetic, items: Seq<P>, item: P)
    ensures
        reduced(Arithmetic::Add, Seq::<P>::empty()) == P::zero(),
        reduced(Arithmetic::Mul, Seq::<P>::empty()) == P::one(),
        reduced(op, items.push(item)) == op.applied(reduced(op, items), item),
{
    assert(items.push(item).drop_last() =~= items);
}

/// The emitted equality is equality of the wrapped values: it holds between
/// values that wrap the same, and between no others.
pub proof fn law_emitted_equality<V>(a: V, b: V, c: V)
    ensures
        equal_as_emitted(a, b) <==> a == b,
        equal_as_emitted(a, a),
        equal_as_emitted(a, b) ==> equal_as_emitted(b, a),
        equal_as_emitted(a, b) && equal_as_emitted(b, c) ==> equal_as_emitted(a, c),
{
}

} // verus!
