//! The operator emitter.
//!
//! An operator family is described by data: a [`BinaryOperatorSpec`], a
//! [`UnaryOperatorSpec`] or a [`ScalarOperatorSpec`]. The emitter holds no
//! knowledge of any one operator. From a descriptor, a [`GenerationMode`] and
//! a [`DelegationStrategy`] it decides which trait implementations a type
//! receives (the plan), writes the source text of each, and hands the text to
//! the lexer.

pub mod binary_ops;
pub mod scalar_ops;
pub mod unary_ops;

use vstd::prelude::*;
use vstd::string::StringExecFns;
use proc_macro2::TokenStream;
use crate::error::StrongTypeError;
use crate::text::{lowercase, lowercased, str_eq};
use crate::lexing::{is_lexing_of, texts_of, tokenize, tokenize_all};

verus! {

broadcast use Seq::lemma_flatten_push;

/// Describes a binary operator family such as `Add` or `BitXor`.
#[derive(Debug, Clone)]
pub struct BinaryOperatorSpec {
    /// The operator trait, such as `Add`.
    pub trait_name: &'static str,
    /// The trait's method, such as `add`.
    pub method: &'static str,
    /// The operator symbol, such as `+`.
    pub op_symbol: &'static str,
    /// The assignment trait, such as `AddAssign`.
    pub assign_trait: &'static str,
    /// The assignment trait's method, such as `add_assign`.
    pub assign_method: &'static str,
    /// The assignment operator symbol, such as `+=`.
    pub assign_op_symbol: &'static str,
    /// The reduction trait the operator gives rise to, if any: `Sum` for
    /// `Add`, `Product` for `Mul`.
    pub iterator_trait: Option<&'static str>,
}

/// Describes a unary operator family such as `Neg` or `Not`.
#[derive(Debug, Clone)]
pub struct UnaryOperatorSpec {
    /// The operator trait, such as `Neg`.
    pub trait_name: &'static str,
    /// The trait's method, such as `neg`.
    pub method: &'static str,
    /// The operator symbol, such as `-`.
    pub op_symbol: &'static str,
}

/// Describes an operator between a strong type and a bare value of its
/// underlying type.
#[derive(Debug, Clone)]
pub struct ScalarOperatorSpec {
    /// The operator trait, such as `Mul`.
    pub trait_name: &'static str,
    /// The trait's method, such as `mul`.
    pub method: &'static str,
    /// The operator symbol, such as `*`.
    pub op_symbol: &'static str,
    /// The assignment trait, such as `MulAssign`.
    pub assign_trait: &'static str,
    /// The assignment trait's method, such as `mul_assign`.
    pub assign_method: &'static str,
    /// The assignment operator symbol, such as `*=`.
    pub assign_op_symbol: &'static str,
    /// Whether the bare value may also stand on the left.
    pub commutative: bool,
}

/// How much of an operator's surface is generated.
#[derive(Debug, Clone, Copy, PartialEq, Eq)]
pub enum GenerationMode {
    /// Every combination of owned and borrowed operands.
    Full,
    /// Owned operands only.
    Minimal,
}

/// How the body of an operator on owned operands computes.
#[derive(Debug, Clone, Copy, PartialEq, Eq)]
pub enum DelegationStrategy {
    /// The body applies the primitive operator itself.
    Inline,
    /// The body calls the shared helper in [`crate::delegation`].
    Delegate,
}

/// How an operand is taken.
#[derive(Debug, Clone, Copy, PartialEq, Eq)]
pub enum Operand {
    /// By value.
    Owned,
    /// By shared reference.
    Borrowed,
}

/// One trait implementation a binary operator family contributes.
#[derive(Debug, Clone, Copy, PartialEq, Eq)]
pub enum BinaryImpl {
    /// The operator trait for `lhs op rhs`, its body computing by `strategy`.
    Operator { lhs: Operand, rhs: Operand, strategy: DelegationStrategy },
    /// The assignment trait for `value op= rhs`.
    Assignment { rhs: Operand },
    /// The reduction trait over items taken as `item`.
    Reduction { item: Operand },
}

impl BinaryImpl {
    /// Whether the implementation takes every operand by value.
    pub open spec fn takes_owned_only(self) -> bool {
        match self {
            BinaryImpl::Operator { lhs, rhs, .. } => lhs == Operand::Owned && rhs == Operand::Owned,
            BinaryImpl::Assignment { rhs } => rhs == Operand::Owned,
            BinaryImpl::Reduction { item } => item == Operand::Owned,
        }
    }
}

/// The implementations a binary operator family contributes, in the order
/// they are emitted.
///
/// Full mode covers the four operand combinations, both assignment forms
/// and, where the family has a reduction, both reduction forms. Minimal mode
/// keeps the owned forms only. Only the operator on two owned operands ever
/// delegates.
pub open spec fn binary_operator_impls(
    has_reduction: bool,
    mode: GenerationMode,
    strategy: DelegationStrategy,
) -> Seq<BinaryImpl> {
    match mode {
        GenerationMode::Full => seq![
            BinaryImpl::Operator { lhs: Operand::Owned, rhs: Operand::Owned, strategy },
            BinaryImpl::Operator {
                lhs: Operand::Owned,
                rhs: Operand::Borrowed,
                strategy: DelegationStrategy::Inline,
            },
            BinaryImpl::Operator {
                lhs: Operand::Borrowed,
                rhs: Operand::Owned,
                strategy: DelegationStrategy::Inline,
            },
            BinaryImpl::Operator {
                lhs: Operand::Borrowed,
                rhs: Operand::Borrowed,
                strategy: DelegationStrategy::Inline,
            },
            BinaryImpl::Assignment { rhs: Operand::Owned },
            BinaryImpl::Assignment { rhs: Operand::Borrowed },
        ] + if has_reduction {
            seq![
                BinaryImpl::Reduction { item: Operand::Owned },
                BinaryImpl::Reduction { item: Operand::Borrowed },
            ]
        } else {
            Seq::empty()
        },
        GenerationMode::Minimal => seq![
            BinaryImpl::Operator { lhs: Operand::Owned, rhs: Operand::Owned, strategy },
            BinaryImpl::Assignment { rhs: Operand::Owned },
        ] + if has_reduction {
            seq![BinaryImpl::Reduction { item: Operand::Owned }]
        } else {
            Seq::empty()
        },
    }
}

/// Decides which implementations a binary operator family contributes.
pub fn plan_binary_operator(
    spec: &BinaryOperatorSpec,
    mode: GenerationMode,
    strategy: DelegationStrategy,
) -> (plan: Vec<BinaryImpl>)
    ensures
        plan@ == binary_operator_impls(spec.iterator_trait.is_some(), mode, strategy),
{
    let mut plan: Vec<BinaryImpl> = Vec::new();
    plan.push(BinaryImpl::Operator { lhs: Operand::Owned, rhs: Operand::Owned, strategy });
    match mode {
        GenerationMode::Full => {
            plan.push(
                BinaryImpl::Operator {
                    lhs: Operand::Owned,
                    rhs: Operand::Borrowed,
                    strategy: DelegationStrategy::Inline,
                },
            );
            plan.push(
                BinaryImpl::Operator {
                    lhs: Operand::Borrowed,
                    rhs: Operand::Owned,
                    strategy: DelegationStrategy::Inline,
                },
            );
            plan.push(
                BinaryImpl::Operator {
                    lhs: Operand::Borrowed,
                    rhs: Operand::Borrowed,
                    strategy: DelegationStrategy::Inline,
                },
            );
            plan.push(BinaryImpl::Assignment { rhs: Operand::Owned });
            plan.push(BinaryImpl::Assignment { rhs: Operand::Borrowed });
        },
        GenerationMode::Minimal => {
            plan.push(BinaryImpl::Assignment { rhs: Operand::Owned });
        },
    }
    if spec.iterator_trait.is_some() {
        plan.push(BinaryImpl::Reduction { item: Operand::Owned });
        match mode {
            GenerationMode::Full => {
                plan.push(BinaryImpl::Reduction { item: Operand::Borrowed });
            },
            GenerationMode::Minimal => {},
        }
    }
    assert(plan@ =~= binary_operator_impls(spec.iterator_trait.is_some(), mode, strategy));
    plan
}

/// How the type refers to itself in an implementation for an operand taken
/// as `lhs`: `Self` where the implementation is for the type, the type's
/// name where it is for a reference to the type.
pub open spec fn self_name(name: Seq<char>, lhs: Operand) -> Seq<char> {
    match lhs {
        Operand::Owned => "Self"@,
        Operand::Borrowed => name,
    }
}

/// The reference sigil of an operand: `&` for a borrowed one.
pub open spec fn sigil(operand: Operand) -> Seq<char> {
    match operand {
        Operand::Owned => ""@,
        Operand::Borrowed => "&"@,
    }
}

/// The source text of the operator trait implementation for `lhs op rhs`.
pub open spec fn binary_operator_impl_text(
    name: Seq<char>,
    spec: BinaryOperatorSpec,
    lhs: Operand,
    rhs: Operand,
    strategy: DelegationStrategy,
) -> Seq<char> {
    let head = match lhs {
        Operand::Owned => "impl std::ops::"@,
        Operand::Borrowed => "impl<'a> std::ops::"@,
    };
    let target = match lhs {
        Operand::Owned => "> for "@,
        Operand::Borrowed => "> for &'a "@,
    };
    let own = self_name(name, lhs);
    let signature = head + spec.trait_name@ + "<"@ + sigil(rhs) + own + target + name
        + " { type Output = "@ + own + "; fn "@ + spec.method@ + "(self, rhs: "@ + sigil(rhs) + own
        + ") -> Self::Output { "@;
    match strategy {
        DelegationStrategy::Inline => signature + own + "::new(self.value() "@ + spec.op_symbol@
            + " rhs.value()) } }\n"@,
        DelegationStrategy::Delegate => signature + "::strong_type::delegation::delegate_"@
            + spec.method@ + "(self, rhs) } }\n"@,
    }
}

/// The source text of the assignment trait implementation for
/// `value op= rhs`.
pub open spec fn binary_assignment_impl_text(
    name: Seq<char>,
    spec: BinaryOperatorSpec,
    rhs: Operand,
) -> Seq<char> {
    "impl std::ops::"@ + spec.assign_trait@ + "<"@ + sigil(rhs) + "Self> for "@ + name + " { fn "@
        + spec.assign_method@ + "(&mut self, rhs: "@ + sigil(rhs) + "Self) { self.0 "@
        + spec.assign_op_symbol@ + " rhs.value() } }\n"@
}

/// The neutral element a reduction starts from: the additive identity for
/// `Sum`, the multiplicative identity for any other reduction.
pub open spec fn neutral_element(reduction: Seq<char>) -> Seq<char> {
    if reduction == "Sum"@ {
        "Self::ZERO"@
    } else {
        "Self::ONE"@
    }
}

/// The source text of the reduction trait implementation that folds items
/// taken as `item` by the operator, starting from the neutral element. The
/// trait is `reduction` and its method is `method`.
pub open spec fn binary_reduction_impl_text(
    name: Seq<char>,
    spec: BinaryOperatorSpec,
    reduction: Seq<char>,
    method: Seq<char>,
    item: Operand,
) -> Seq<char> {
    let head = match item {
        Operand::Owned => "impl std::iter::"@,
        Operand::Borrowed => "impl<'a> std::iter::"@,
    };
    let item_type = match item {
        Operand::Owned => "Self"@,
        Operand::Borrowed => "&'a Self"@,
    };
    head + reduction + "<"@ + item_type + "> for "@ + name + " { fn "@ + method
        + "<I: Iterator<Item = "@ + item_type + ">>(iter: I) -> Self { iter.fold("@
        + neutral_element(reduction) + ", std::ops::"@ + spec.trait_name@ + "::"@ + spec.method@
        + ") } }\n"@
}

/// The name of the reduction trait in a descriptor, empty where it has none.
pub open spec fn reduction_name(spec: BinaryOperatorSpec) -> Seq<char> {
    match spec.iterator_trait {
        Some(reduction) => reduction@,
        None => ""@,
    }
}

/// The source text of one implementation of a binary operator family. The
/// method of a reduction is the name of its trait in lower case.
pub open spec fn binary_impl_text(name: Seq<char>, spec: BinaryOperatorSpec, item: BinaryImpl) -> Seq<
    char,
> {
    match item {
        BinaryImpl::Operator { lhs, rhs, strategy } => binary_operator_impl_text(
            name,
            spec,
            lhs,
            rhs,
            strategy,
        ),
        BinaryImpl::Assignment { rhs } => binary_assignment_impl_text(name, spec, rhs),
        BinaryImpl::Reduction { item } => binary_reduction_impl_text(
            name,
            spec,
            reduction_name(spec),
            lowercased(reduction_name(spec)),
            item,
        ),
    }
}

/// The source text a binary operator family contributes to a type: the texts
/// of its planned implementations, one after the other.
pub open spec fn binary_operator_text(
    name: Seq<char>,
    spec: BinaryOperatorSpec,
    mode: GenerationMode,
    strategy: DelegationStrategy,
) -> Seq<char> {
    binary_operator_impls(spec.iterator_trait.is_some(), mode, strategy).map_values(
        |item: BinaryImpl| binary_impl_text(name, spec, item),
    ).flatten()
}

/// Appends the reference sigil of an operand.
fn push_sigil(out: &mut String, operand: Operand)
    ensures
        final(out)@ == old(out)@ + sigil(operand),
{
    match operand {
        Operand::Owned => out.append(""),
        Operand::Borrowed => out.append("&"),
    }
}

/// Appends the way the type refers to itself.
fn push_self_name(out: &mut String, name: &str, lhs: Operand)
    ensures
        final(out)@ == old(out)@ + self_name(name@, lhs),
{
    match lhs {
        Operand::Owned => out.append("Self"),
        Operand::Borrowed => out.append(name),
    }
}

/// Writes the source text of one implementation of a binary operator family.
pub fn render_binary_impl(name: &str, spec: &BinaryOperatorSpec, item: BinaryImpl) -> (text: String)
    ensures
        text@ == binary_impl_text(name@, *spec, item),
{
    match item {
        BinaryImpl::Operator { lhs, rhs, strategy } => {
            let mut text = match lhs {
                Operand::Owned => String::from_str("impl std::ops::"),
                Operand::Borrowed => String::from_str("impl<'a> std::ops::"),
            };
            text.append(spec.trait_name);
            text.append("<");
            push_sigil(&mut text, rhs);
            push_self_name(&mut text, name, lhs);
            match lhs {
                Operand::Owned => text.append("> for "),
                Operand::Borrowed => text.append("> for &'a "),
            }
            text.append(name);
            text.append(" { type Output = ");
            push_self_name(&mut text, name, lhs);
            text.append("; fn ");
            text.append(spec.method);
            text.append("(self, rhs: ");
            push_sigil(&mut text, rhs);
            push_self_name(&mut text, name, lhs);
            text.append(") -> Self::Output { ");
            match strategy {
                DelegationStrategy::Inline => {
                    push_self_name(&mut text, name, lhs);
                    text.append("::new(self.value() ");
                    text.append(spec.op_symbol);
                    text.append(" rhs.value()) } }\n");
                },
                DelegationStrategy::Delegate => {
                    text.append("::strong_type::delegation::delegate_");
                    text.append(spec.method);
                    text.append("(self, rhs) } }\n");
                },
            }
            text
        },
        BinaryImpl::Assignment { rhs } => {
            let mut text = String::from_str("impl std::ops::");
            text.append(spec.assign_trait);
            text.append("<");
            push_sigil(&mut text, rhs);
            text.append("Self> for ");
            text.append(name);
            text.append(" { fn ");
            text.append(spec.assign_method);
            text.append("(&mut self, rhs: ");
            push_sigil(&mut text, rhs);
            text.append("Self) { self.0 ");
            text.append(spec.assign_op_symbol);
            text.append(" rhs.value() } }\n");
            text
        },
        BinaryImpl::Reduction { item } => {
            let reduction = match spec.iterator_trait {
                Some(reduction) => reduction,
                None => "",
            };
            let method = lowercase(reduction);
            render_reduction_impl(name, spec, reduction, method.as_str(), item)
        },
    }
}

/// Writes the source text of a reduction trait implementation whose trait is
/// `reduction` and whose method is `method`.
pub fn render_reduction_impl(
    name: &str,
    spec: &BinaryOperatorSpec,
    reduction: &str,
    method: &str,
    item: Operand,
) -> (text: String)
    ensures
        text@ == binary_reduction_impl_text(name@, *spec, reduction@, method@, item),
{
    let mut text = match item {
        Operand::Owned => String::from_str("impl std::iter::"),
        Operand::Borrowed => String::from_str("impl<'a> std::iter::"),
    };
    text.append(reduction);
    text.append("<");
    match item {
        Operand::Owned => text.append("Self"),
        Operand::Borrowed => text.append("&'a Self"),
    }
    text.append("> for ");
    text.append(name);
    text.append(" { fn ");
    text.append(method);
    text.append("<I: Iterator<Item = ");
    match item {
        Operand::Owned => text.append("Self"),
        Operand::Borrowed => text.append("&'a Self"),
    }
    text.append(">>(iter: I) -> Self { iter.fold(");
    if str_eq(reduction, "Sum") {
        text.append("Self::ZERO");
    } else {
        text.append("Self::ONE");
    }
    text.append(", std::ops::");
    text.append(spec.trait_name);
    text.append("::");
    text.append(spec.method);
    text.append(") } }\n");
    text
}

/// Writes the source text a binary operator family contributes to a type.
pub fn render_binary_operator(
    name: &str,
    spec: &BinaryOperatorSpec,
    mode: GenerationMode,
    strategy: DelegationStrategy,
) -> (text: String)
    ensures
        text@ == binary_operator_text(name@, *spec, mode, strategy),
{
    let plan = plan_binary_operator(spec, mode, strategy);
    let ghost texts = plan@.map_values(|item: BinaryImpl| binary_impl_text(name@, *spec, item));
    let mut text = String::new();
    let mut i: usize = 0;
    while i < plan.len()
        invariant
            i <= plan.len(),
            texts == plan@.map_values(|item: BinaryImpl| binary_impl_text(name@, *spec, item)),
            text@ == texts.take(i as int).flatten(),
        decreases plan.len() - i,
    {
        let piece = render_binary_impl(name, spec, plan[i]);
        text.append(piece.as_str());
        proof {
            assert(texts.take(i + 1) =~= texts.take(i as int).push(texts[i as int]));
        }
        i += 1;
    }
    proof {
        assert(texts.take(i as int) =~= texts);
    }
    text
}

/// Generates a binary operator family with inline bodies.
pub fn generate_binary_operator(name: &str, spec: &BinaryOperatorSpec, mode: GenerationMode) -> (outcome:
    Result<TokenStream, StrongTypeError>)
    ensures
        is_lexing_of(
            outcome,
            binary_operator_text(name@, *spec, mode, DelegationStrategy::Inline),
        ),
{
    generate_binary_operator_with_strategy(name, spec, mode, DelegationStrategy::Inline)
}

/// Generates a binary operator family: the tokens of the implementations
/// that `mode` and `strategy` select for it.
pub fn generate_binary_operator_with_strategy(
    name: &str,
    spec: &BinaryOperatorSpec,
    mode: GenerationMode,
    strategy: DelegationStrategy,
) -> (outcome: Result<TokenStream, StrongTypeError>)
    ensures
        is_lexing_of(outcome, binary_operator_text(name@, *spec, mode, strategy)),
{
    let text = render_binary_operator(name, spec, mode, strategy);
    tokenize(text.as_str())
}

/// One trait implementation a unary operator family contributes: the
/// operator trait for an operand taken as `operand`, its body computing by
/// `strategy`.
#[derive(Debug, Clone, Copy, PartialEq, Eq)]
pub struct UnaryImpl {
    pub operand: Operand,
    pub strategy: DelegationStrategy,
}

/// The implementations a unary operator family contributes, in the order
/// they are emitted: the owned form, and in full mode the borrowed form,
/// which never delegates.
pub open spec fn unary_operator_impls(mode: GenerationMode, strategy: DelegationStrategy) -> Seq<
    UnaryImpl,
> {
    match mode {
        GenerationMode::Full => seq![
            UnaryImpl { operand: Operand::Owned, strategy },
            UnaryImpl { operand: Operand::Borrowed, strategy: DelegationStrategy::Inline },
        ],
        GenerationMode::Minimal => seq![UnaryImpl { operand: Operand::Owned, strategy }],
    }
}

/// Decides which implementations a unary operator family contributes.
pub fn plan_unary_operator(mode: GenerationMode, strategy: DelegationStrategy) -> (plan: Vec<
    UnaryImpl,
>)
    ensures
        plan@ == unary_operator_impls(mode, strategy),
{
    let mut plan: Vec<UnaryImpl> = Vec::new();
    plan.push(UnaryImpl { operand: Operand::Owned, strategy });
    match mode {
        GenerationMode::Full => {
            plan.push(
                UnaryImpl { operand: Operand::Borrowed, strategy: DelegationStrategy::Inline },
            );
        },
        GenerationMode::Minimal => {},
    }
    assert(plan@ =~= unary_operator_impls(mode, strategy));
    plan
}

/// The source text of one implementation of a unary operator family.
pub open spec fn unary_impl_text(name: Seq<char>, spec: UnaryOperatorSpec, item: UnaryImpl) -> Seq<
    char,
> {
    let head = match item.operand {
        Operand::Owned => "impl std::ops::"@,
        Operand::Borrowed => "impl<'a> std::ops::"@,
    };
    let target = match item.operand {
        Operand::Owned => " for "@,
        Operand::Borrowed => " for &'a "@,
    };
    let own = self_name(name, item.operand);
    let signature = head + spec.trait_name@ + target + name + " { type Output = "@ + own + "; fn "@
        + spec.method@ + "(self) -> Self::Output { "@;
    match item.strategy {
        DelegationStrategy::Inline => signature + own + "::new("@ + spec.op_symbol@
            + " self.value()) } }\n"@,
        DelegationStrategy::Delegate => signature + "::strong_type::delegation::delegate_"@
            + spec.method@ + "(self) } }\n"@,
    }
}

/// The source text a unary operator family contributes to a type.
pub open spec fn unary_operator_text(
    name: Seq<char>,
    spec: UnaryOperatorSpec,
    mode: GenerationMode,
    strategy: DelegationStrategy,
) -> Seq<char> {
    unary_operator_impls(mode, strategy).map_values(
        |item: UnaryImpl| unary_impl_text(name, spec, item),
    ).flatten()
}

/// Writes the source text of one implementation of a unary operator family.
pub fn render_unary_impl(name: &str, spec: &UnaryOperatorSpec, item: UnaryImpl) -> (text: String)
    ensures
        text@ == unary_impl_text(name@, *spec, item),
{
    let mut text = match item.operand {
        Operand::Owned => String::from_str("impl std::ops::"),
        Operand::Borrowed => String::from_str("impl<'a> std::ops::"),
    };
    text.append(spec.trait_name);
    match item.operand {
        Operand::Owned => text.append(" for "),
        Operand::Borrowed => text.append(" for &'a "),
    }
    text.append(name);
    text.append(" { type Output = ");
    push_self_name(&mut text, name, item.operand);
    text.append("; fn ");
    text.append(spec.method);
    text.append("(self) -> Self::Output { ");
    match item.strategy {
        DelegationStrategy::Inline => {
            push_self_name(&mut text, name, item.operand);
            text.append("::new(");
            text.append(spec.op_symbol);
            text.append(" self.value()) } }\n");
        },
        DelegationStrategy::Delegate => {
            text.append("::strong_type::delegation::delegate_");
            text.append(spec.method);
            text.append("(self) } }\n");
        },
    }
    text
}

/// Writes the source text a unary operator family contributes to a type.
pub fn render_unary_operator(
    name: &str,
    spec: &UnaryOperatorSpec,
    mode: GenerationMode,
    strategy: DelegationStrategy,
) -> (text: String)
    ensures
        text@ == unary_operator_text(name@, *spec, mode, strategy),
{
    let plan = plan_unary_operator(mode, strategy);
    let ghost texts = plan@.map_values(|item: UnaryImpl| unary_impl_text(name@, *spec, item));
    let mut text = String::new();
    let mut i: usize = 0;
    while i < plan.len()
        invariant
            i <= plan.len(),
            texts == plan@.map_values(|item: UnaryImpl| unary_impl_text(name@, *spec, item)),
            text@ == texts.take(i as int).flatten(),
        decreases plan.len() - i,
    {
        let piece = render_unary_impl(name, spec, plan[i]);
        text.append(piece.as_str());
        proof {
            assert(texts.take(i + 1) =~= texts.take(i as int).push(texts[i as int]));
        }
        i += 1;
    }
    proof {
        assert(texts.take(i as int) =~= texts);
    }
    text
}

/// Generates a unary operator family with inline bodies.
pub fn generate_unary_operator(name: &str, spec: &UnaryOperatorSpec, mode: GenerationMode) -> (outcome:
    Result<TokenStream, StrongTypeError>)
    ensures
        is_lexing_of(outcome, unary_operator_text(name@, *spec, mode, DelegationStrategy::Inline)),
{
    generate_unary_operator_with_strategy(name, spec, mode, DelegationStrategy::Inline)
}

/// Generates a unary operator family: the tokens of the implementations
/// that `mode` and `strategy` select for it.
pub fn generate_unary_operator_with_strategy(
    name: &str,
    spec: &UnaryOperatorSpec,
    mode: GenerationMode,
    strategy: DelegationStrategy,
) -> (outcome: Result<TokenStream, StrongTypeError>)
    ensures
        is_lexing_of(outcome, unary_operator_text(name@, *spec, mode, strategy)),
{
    let text = render_unary_operator(name, spec, mode, strategy);
    tokenize(text.as_str())
}

/// One trait implementation a scalar operator family contributes.
#[derive(Debug, Clone, Copy, PartialEq, Eq)]
pub enum ScalarImpl {
    /// The operator trait for `lhs op scalar`, its body computing by
    /// `strategy`.
    Operator { lhs: Operand, strategy: DelegationStrategy },
    /// The assignment trait for `value op= scalar`.
    Assignment,
    /// The operator trait of the bare type, for `scalar op rhs`.
    Commuted { rhs: Operand },
}

/// The implementations a scalar operator family contributes, in the order
/// they are emitted: the type and a reference to it by a scalar, the
/// assignment, and for a commutative operator the scalar by the type and by
/// a reference to it.
pub open spec fn scalar_operator_impls(commutative: bool, strategy: DelegationStrategy) -> Seq<
    ScalarImpl,
> {
    seq![
        ScalarImpl::Operator { lhs: Operand::Owned, strategy },
        ScalarImpl::Operator { lhs: Operand::Borrowed, strategy: DelegationStrategy::Inline },
        ScalarImpl::Assignment,
    ] + if commutative {
        seq![
            ScalarImpl::Commuted { rhs: Operand::Owned },
            ScalarImpl::Commuted { rhs: Operand::Borrowed },
        ]
    } else {
        Seq::empty()
    }
}

/// Decides which implementations a scalar operator family contributes.
pub fn plan_scalar_operator(spec: &ScalarOperatorSpec, strategy: DelegationStrategy) -> (plan: Vec<
    ScalarImpl,
>)
    ensures
        plan@ == scalar_operator_impls(spec.commutative, strategy),
{
    let mut plan: Vec<ScalarImpl> = Vec::new();
    plan.push(ScalarImpl::Operator { lhs: Operand::Owned, strategy });
    plan.push(
        ScalarImpl::Operator { lhs: Operand::Borrowed, strategy: DelegationStrategy::Inline },
    );
    plan.push(ScalarImpl::Assignment);
    if spec.commutative {
        plan.push(ScalarImpl::Commuted { rhs: Operand::Owned });
        plan.push(ScalarImpl::Commuted { rhs: Operand::Borrowed });
    }
    assert(plan@ =~= scalar_operator_impls(spec.commutative, strategy));
    plan
}

/// The source text of one implementation of a scalar operator family.
pub open spec fn scalar_impl_text(
    name: Seq<char>,
    value_type: Seq<char>,
    spec: ScalarOperatorSpec,
    item: ScalarImpl,
) -> Seq<char> {
    match item {
        ScalarImpl::Operator { lhs, strategy } => {
            let head = match lhs {
                Operand::Owned => "impl std::ops::"@,
                Operand::Borrowed => "impl<'a> std::ops::"@,
            };
            let target = match lhs {
                Operand::Owned => "> for "@,
                Operand::Borrowed => "> for &'a "@,
            };
            let own = self_name(name, lhs);
            let signature = head + spec.trait_name@ + "<"@ + value_type + target + name
                + " { type Output = "@ + own + "; fn "@ + spec.method@ + "(self, rhs: "@
                + value_type + ") -> Self::Output { "@;
            match strategy {
                DelegationStrategy::Inline => signature + own + "(self.0 "@ + spec.op_symbol@
                    + " rhs) } }\n"@,
                DelegationStrategy::Delegate => signature
                    + "::strong_type::delegation::delegate_scalar_"@ + spec.method@
                    + "(self, rhs) } }\n"@,
            }
        },
        ScalarImpl::Assignment => "impl std::ops::"@ + spec.assign_trait@ + "<"@ + value_type
            + "> for "@ + name + " { fn "@ + spec.assign_method@ + "(&mut self, rhs: "@ + value_type
            + ") { self.0 "@ + spec.assign_op_symbol@ + " rhs; } }\n"@,
        ScalarImpl::Commuted { rhs } => {
            let head = match rhs {
                Operand::Owned => "impl std::ops::"@,
                Operand::Borrowed => "impl<'a> std::ops::"@,
            };
            head + spec.trait_name@ + "<"@ + sigil(rhs) + name + "> for "@ + value_type
                + " { type Output = "@ + name + "; fn "@ + spec.method@ + "(self, rhs: "@ + sigil(
                rhs,
            ) + name + ") -> Self::Output { "@ + name + "(self "@ + spec.op_symbol@
                + " rhs.0) } }\n"@
        },
    }
}

/// The source text a scalar operator family contributes to a type.
pub open spec fn scalar_operator_text(
    name: Seq<char>,
    value_type: Seq<char>,
    spec: ScalarOperatorSpec,
    strategy: DelegationStrategy,
) -> Seq<char> {
    scalar_operator_impls(spec.commutative, strategy).map_values(
        |item: ScalarImpl| scalar_impl_text(name, value_type, spec, item),
    ).flatten()
}

/// Writes the source text of one implementation of a scalar operator family.
pub fn render_scalar_impl(
    name: &str,
    value_type: &str,
    spec: &ScalarOperatorSpec,
    item: ScalarImpl,
) -> (text: String)
    ensures
        text@ == scalar_impl_text(name@, value_type@, *spec, item),
{
    match item {
        ScalarImpl::Operator { lhs, strategy } => {
            let mut text = match lhs {
                Operand::Owned => String::from_str("impl std::ops::"),
                Operand::Borrowed => String::from_str("impl<'a> std::ops::"),
            };
            text.append(spec.trait_name);
            text.append("<");
            text.append(value_type);
            match lhs {
                Operand::Owned => text.append("> for "),
                Operand::Borrowed => text.append("> for &'a "),
            }
            text.append(name);
            text.append(" { type Output = ");
            push_self_name(&mut text, name, lhs);
            text.append("; fn ");
            text.append(spec.method);
            text.append("(self, rhs: ");
            text.append(value_type);
            text.append(") -> Self::Output { ");
            match strategy {
                DelegationStrategy::Inline => {
                    push_self_name(&mut text, name, lhs);
                    text.append("(self.0 ");
                    text.append(spec.op_symbol);
                    text.append(" rhs) } }\n");
                },
                DelegationStrategy::Delegate => {
                    text.append("::strong_type::delegation::delegate_scalar_");
                    text.append(spec.method);
                    text.append("(self, rhs) } }\n");
                },
            }
            text
        },
        ScalarImpl::Assignment => {
            let mut text = String::from_str("impl std::ops::");
            text.append(spec.assign_trait);
            text.append("<");
            text.append(value_type);
            text.append("> for ");
            text.append(name);
            text.append(" { fn ");
            text.append(spec.assign_method);
            text.append("(&mut self, rhs: ");
            text.append(value_type);
            text.append(") { self.0 ");
            text.append(spec.assign_op_symbol);
            text.append(" rhs; } }\n");
            text
        },
        ScalarImpl::Commuted { rhs } => {
            let mut text = match rhs {
                Operand::Owned => String::from_str("impl std::ops::"),
                Operand::Borrowed => String::from_str("impl<'a> std::ops::"),
            };
            text.append(spec.trait_name);
            text.append("<");
            push_sigil(&mut text, rhs);
            text.append(name);
            text.append("> for ");
            text.append(value_type);
            text.append(" { type Output = ");
            text.append(name);
            text.append("; fn ");
            text.append(spec.method);
            text.append("(self, rhs: ");
            push_sigil(&mut text, rhs);
            text.append(name);
            text.append(") -> Self::Output { ");
            text.append(name);
            text.append("(self ");
            text.append(spec.op_symbol);
            text.append(" rhs.0) } }\n");
            text
        },
    }
}

/// Writes the source text a scalar operator family contributes to a type.
pub fn render_scalar_operator(
    name: &str,
    value_type: &str,
    spec: &ScalarOperatorSpec,
    strategy: DelegationStrategy,
) -> (text: String)
    ensures
        text@ == scalar_operator_text(name@, value_type@, *spec, strategy),
{
    let plan = plan_scalar_operator(spec, strategy);
    let ghost texts = plan@.map_values(
        |item: ScalarImpl| scalar_impl_text(name@, value_type@, *spec, item),
    );
    let mut text = String::new();
    let mut i: usize = 0;
    while i < plan.len()
        invariant
            i <= plan.len(),
            texts == plan@.map_values(
                |item: ScalarImpl| scalar_impl_text(name@, value_type@, *spec, item),
            ),
            text@ == texts.take(i as int).flatten(),
        decreases plan.len() - i,
    {
        let piece = render_scalar_impl(name, value_type, spec, plan[i]);
        text.append(piece.as_str());
        proof {
            assert(texts.take(i + 1) =~= texts.take(i as int).push(texts[i as int]));
        }
        i += 1;
    }
    proof {
        assert(texts.take(i as int) =~= texts);
    }
    text
}

/// Generates a scalar operator family with inline bodies.
pub fn generate_scalar_operator(name: &str, value_type: &str, spec: &ScalarOperatorSpec) -> (outcome:
    Result<TokenStream, StrongTypeError>)
    ensures
        is_lexing_of(
            outcome,
            scalar_operator_text(name@, value_type@, *spec, DelegationStrategy::Inline),
        ),
{
    generate_scalar_operator_with_strategy(name, value_type, spec, DelegationStrategy::Inline)
}

/// Generates a scalar operator family: the tokens of the implementations
/// that the descriptor and `strategy` select for it.
pub fn generate_scalar_operator_with_strategy(
    name: &str,
    value_type: &str,
    spec: &ScalarOperatorSpec,
    strategy: DelegationStrategy,
) -> (outcome: Result<TokenStream, StrongTypeError>)
    ensures
        is_lexing_of(outcome, scalar_operator_text(name@, value_type@, *spec, strategy)),
{
    let text = render_scalar_operator(name, value_type, spec, strategy);
    tokenize(text.as_str())
}

/// The direction of a bit shift.
#[derive(Debug, Clone, Copy, PartialEq, Eq)]
pub enum ShiftDirection {
    Left,
    Right,
}

/// One trait implementation the bit shifts by one shift-amount type
/// contribute.
#[derive(Debug, Clone, Copy, PartialEq, Eq)]
pub enum ShiftImpl {
    /// The shift trait for `lhs << amount` or `lhs >> amount`, its body
    /// computing by `strategy`.
    Operator { direction: ShiftDirection, lhs: Operand, strategy: DelegationStrategy },
    /// The shift assignment trait for `value <<= amount` or
    /// `value >>= amount`.
    Assignment { direction: ShiftDirection },
}

/// The implementations the bit shifts by one shift-amount type contribute,
/// in the order they are emitted: for each direction the owned shift and the
/// shift assignment, then the two borrowed shifts, which never delegate.
pub open spec fn bit_shift_impls(strategy: DelegationStrategy) -> Seq<ShiftImpl> {
    seq![
        ShiftImpl::Operator { direction: ShiftDirection::Left, lhs: Operand::Owned, strategy },
        ShiftImpl::Assignment { direction: ShiftDirection::Left },
        ShiftImpl::Operator { direction: ShiftDirection::Right, lhs: Operand::Owned, strategy },
        ShiftImpl::Assignment { direction: ShiftDirection::Right },
        ShiftImpl::Operator {
            direction: ShiftDirection::Left,
            lhs: Operand::Borrowed,
            strategy: DelegationStrategy::Inline,
        },
        ShiftImpl::Operator {
            direction: ShiftDirection::Right,
            lhs: Operand::Borrowed,
            strategy: DelegationStrategy::Inline,
        },
    ]
}

/// Decides which implementations the bit shifts by one shift-amount type
/// contribute.
pub fn plan_bit_shift(strategy: DelegationStrategy) -> (plan: Vec<ShiftImpl>)
    ensures
        plan@ == bit_shift_impls(strategy),
{
    let mut plan: Vec<ShiftImpl> = Vec::new();
    plan.push(
        ShiftImpl::Operator { direction: ShiftDirection::Left, lhs: Operand::Owned, strategy },
    );
    plan.push(ShiftImpl::Assignment { direction: ShiftDirection::Left });
    plan.push(
        ShiftImpl::Operator { direction: ShiftDirection::Right, lhs: Operand::Owned, strategy },
    );
    plan.push(ShiftImpl::Assignment { direction: ShiftDirection::Right });
    plan.push(
        ShiftImpl::Operator {
            direction: ShiftDirection::Left,
            lhs: Operand::Borrowed,
            strategy: DelegationStrategy::Inline,
        },
    );
    plan.push(
        ShiftImpl::Operator {
            direction: ShiftDirection::Right,
            lhs: Operand::Borrowed,
            strategy: DelegationStrategy::Inline,
        },
    );
    assert(plan@ =~= bit_shift_impls(strategy));
    plan
}

/// The shift trait of a direction.
pub open spec fn shift_trait(direction: ShiftDirection) -> Seq<char> {
    match direction {
        ShiftDirection::Left => "Shl"@,
        ShiftDirection::Right => "Shr"@,
    }
}

/// The shift method of a direction.
pub open spec fn shift_method(direction: ShiftDirection) -> Seq<char> {
    match direction {
        ShiftDirection::Left => "shl"@,
        ShiftDirection::Right => "shr"@,
    }
}

/// The shift symbol of a direction.
pub open spec fn shift_symbol(direction: ShiftDirection) -> Seq<char> {
    match direction {
        ShiftDirection::Left => "<<"@,
        ShiftDirection::Right => ">>"@,
    }
}

/// The source text of one implementation of the bit shifts by `shift_type`.
pub open spec fn bit_shift_impl_text(name: Seq<char>, shift_type: Seq<char>, item: ShiftImpl) -> Seq<
    char,
> {
    match item {
        ShiftImpl::Operator { direction, lhs, strategy } => {
            let own = self_name(name, lhs);
            let signature = "impl std::ops::"@ + shift_trait(direction) + "<"@ + shift_type
                + "> for "@ + sigil(lhs) + name + " { type Output = "@ + own + "; fn "@
                + shift_method(direction) + "(self, rhs: "@ + shift_type
                + ") -> Self::Output { "@;
            match strategy {
                DelegationStrategy::Inline => signature + own + "::new(self.value() "@
                    + shift_symbol(direction) + " rhs) } }\n"@,
                DelegationStrategy::Delegate => signature
                    + "::strong_type::delegation::delegate_"@ + shift_method(direction)
                    + "(self, rhs) } }\n"@,
            }
        },
        ShiftImpl::Assignment { direction } => "impl std::ops::"@ + shift_trait(direction)
            + "Assign<"@ + shift_type + "> for "@ + name + " { fn "@ + shift_method(direction)
            + "_assign(&mut self, rhs: "@ + shift_type + ") { self.0 "@ + shift_symbol(direction)
            + "= rhs; } }\n"@,
    }
}

/// The source text the bit shifts by `shift_type` contribute to a type.
pub open spec fn bit_shift_text(
    name: Seq<char>,
    shift_type: Seq<char>,
    strategy: DelegationStrategy,
) -> Seq<char> {
    bit_shift_impls(strategy).map_values(
        |item: ShiftImpl| bit_shift_impl_text(name, shift_type, item),
    ).flatten()
}

/// Appends the shift trait of a direction.
fn push_shift_trait(out: &mut String, direction: ShiftDirection)
    ensures
        final(out)@ == old(out)@ + shift_trait(direction),
{
    match direction {
        ShiftDirection::Left => out.append("Shl"),
        ShiftDirection::Right => out.append("Shr"),
    }
}

/// Appends the shift method of a direction.
fn push_shift_method(out: &mut String, direction: ShiftDirection)
    ensures
        final(out)@ == old(out)@ + shift_method(direction),
{
    match direction {
        ShiftDirection::Left => out.append("shl"),
        ShiftDirection::Right => out.append("shr"),
    }
}

/// Appends the shift symbol of a direction.
fn push_shift_symbol(out: &mut String, direction: ShiftDirection)
    ensures
        final(out)@ == old(out)@ + shift_symbol(direction),
{
    match direction {
        ShiftDirection::Left => out.append("<<"),
        ShiftDirection::Right => out.append(">>"),
    }
}

/// Writes the source text of one implementation of the bit shifts by
/// `shift_type`.
pub fn render_bit_shift_impl(name: &str, shift_type: &str, item: ShiftImpl) -> (text: String)
    ensures
        text@ == bit_shift_impl_text(name@, shift_type@, item),
{
    let mut text = String::from_str("impl std::ops::");
    match item {
        ShiftImpl::Operator { direction, lhs, strategy } => {
            push_shift_trait(&mut text, direction);
            text.append("<");
            text.append(shift_type);
            text.append("> for ");
            push_sigil(&mut text, lhs);
            text.append(name);
            text.append(" { type Output = ");
            push_self_name(&mut text, name, lhs);
            text.append("; fn ");
            push_shift_method(&mut text, direction);
            text.append("(self, rhs: ");
            text.append(shift_type);
            text.append(") -> Self::Output { ");
            match strategy {
                DelegationStrategy::Inline => {
                    push_self_name(&mut text, name, lhs);
                    text.append("::new(self.value() ");
                    push_shift_symbol(&mut text, direction);
                    text.append(" rhs) } }\n");
                },
                DelegationStrategy::Delegate => {
                    text.append("::strong_type::delegation::delegate_");
                    push_shift_method(&mut text, direction);
                    text.append("(self, rhs) } }\n");
                },
            }
        },
        ShiftImpl::Assignment { direction } => {
            push_shift_trait(&mut text, direction);
            text.append("Assign<");
            text.append(shift_type);
            text.append("> for ");
            text.append(name);
            text.append(" { fn ");
            push_shift_method(&mut text, direction);
            text.append("_assign(&mut self, rhs: ");
            text.append(shift_type);
            text.append(") { self.0 ");
            push_shift_symbol(&mut text, direction);
            text.append("= rhs; } }\n");
        },
    }
    text
}

/// Writes the source text the bit shifts by `shift_type` contribute to a
/// type.
pub fn render_bit_shift(name: &str, shift_type: &str, strategy: DelegationStrategy) -> (text: String)
    ensures
        text@ == bit_shift_text(name@, shift_type@, strategy),
{
    let plan = plan_bit_shift(strategy);
    let ghost texts = plan@.map_values(
        |item: ShiftImpl| bit_shift_impl_text(name@, shift_type@, item),
    );
    let mut text = String::new();
    let mut i: usize = 0;
    while i < plan.len()
        invariant
            i <= plan.len(),
            texts == plan@.map_values(
                |item: ShiftImpl| bit_shift_impl_text(name@, shift_type@, item),
            ),
            text@ == texts.take(i as int).flatten(),
        decreases plan.len() - i,
    {
        let piece = render_bit_shift_impl(name, shift_type, plan[i]);
        text.append(piece.as_str());
        proof {
            assert(texts.take(i + 1) =~= texts.take(i as int).push(texts[i as int]));
        }
        i += 1;
    }
    proof {
        assert(texts.take(i as int) =~= texts);
    }
    text
}

/// Generates the bit shifts by `shift_type` with inline bodies.
pub fn generate_bit_shift_for_type(name: &str, shift_type: &str) -> (outcome: Result<
    TokenStream,
    StrongTypeError,
>)
    ensures
        is_lexing_of(outcome, bit_shift_text(name@, shift_type@, DelegationStrategy::Inline)),
{
    generate_bit_shift_for_type_with_strategy(name, shift_type, DelegationStrategy::Inline)
}

/// Generates the bit shifts by `shift_type`: left and right shift of the
/// type and of a reference to it, and both shift assignments.
pub fn generate_bit_shift_for_type_with_strategy(
    name: &str,
    shift_type: &str,
    strategy: DelegationStrategy,
) -> (outcome: Result<TokenStream, StrongTypeError>)
    ensures
        is_lexing_of(outcome, bit_shift_text(name@, shift_type@, strategy)),
{
    let text = render_bit_shift(name, shift_type, strategy);
    tokenize(text.as_str())
}

/// The source text of the implementation of
/// [`crate::delegation::StrongTypeOps`] that delegated operators rely on.
pub open spec fn strong_type_ops_text(name: Seq<char>, primitive_type: Seq<char>) -> Seq<char> {
    "impl ::strong_type::delegation::StrongTypeOps for "@ + name + " { type Primitive = "@
        + primitive_type
        + "; #[inline(always)] fn to_primitive(self) -> Self::Primitive { self.0 } #[inline(always)] fn from_primitive(val: Self::Primitive) -> Self { Self(val) } }\n"@
}

/// Writes the implementation of [`crate::delegation::StrongTypeOps`].
pub fn render_strong_type_ops_impl(name: &str, primitive_type: &str) -> (text: String)
    ensures
        text@ == strong_type_ops_text(name@, primitive_type@),
{
    let mut text = String::from_str("impl ::strong_type::delegation::StrongTypeOps for ");
    text.append(name);
    text.append(" { type Primitive = ");
    text.append(primitive_type);
    text.append(
        "; #[inline(always)] fn to_primitive(self) -> Self::Primitive { self.0 } #[inline(always)] fn from_primitive(val: Self::Primitive) -> Self { Self(val) } }\n",
    );
    text
}

/// Generates the implementation of [`crate::delegation::StrongTypeOps`].
pub fn generate_strong_type_ops_impl(name: &str, primitive_type: &str) -> (outcome: Result<
    TokenStream,
    StrongTypeError,
>)
    ensures
        is_lexing_of(outcome, strong_type_ops_text(name@, primitive_type@)),
{
    let text = render_strong_type_ops_impl(name, primitive_type);
    tokenize(text.as_str())
}

/// The arithmetic operators: `+ - * / %`.
pub open spec fn arithmetic_operators() -> Seq<BinaryOperatorSpec> {
    seq![
        binary_ops::addition(),
        binary_ops::subtraction(),
        binary_ops::multiplication(),
        binary_ops::division(),
        binary_ops::remainder(),
    ]
}

/// The operators of an addable type: `+ -`.
pub open spec fn addable_operators() -> Seq<BinaryOperatorSpec> {
    seq![binary_ops::addition(), binary_ops::subtraction()]
}

/// The bitwise operators: `& | ^`.
pub open spec fn bit_operators() -> Seq<BinaryOperatorSpec> {
    seq![binary_ops::bit_and(), binary_ops::bit_or(), binary_ops::bit_xor()]
}

/// The operators against a bare value: `* / %`.
pub open spec fn scalable_operators() -> Seq<ScalarOperatorSpec> {
    seq![scalar_ops::multiplication(), scalar_ops::division(), scalar_ops::remainder()]
}

/// The integer types a shift amount can have.
pub open spec fn shift_types() -> Seq<Seq<char>> {
    seq![
        "i8"@,
        "i16"@,
        "i32"@,
        "i64"@,
        "i128"@,
        "isize"@,
        "u8"@,
        "u16"@,
        "u32"@,
        "u64"@,
        "u128"@,
        "usize"@,
    ]
}

/// The source texts of several binary operator families, one text for each.
pub open spec fn binary_family_sources(
    name: Seq<char>,
    operators: Seq<BinaryOperatorSpec>,
    mode: GenerationMode,
    strategy: DelegationStrategy,
) -> Seq<Seq<char>> {
    operators.map_values(|spec: BinaryOperatorSpec| binary_operator_text(name, spec, mode, strategy))
}

/// The source texts of several scalar operator families, one text for each.
pub open spec fn scalar_family_sources(
    name: Seq<char>,
    value_type: Seq<char>,
    operators: Seq<ScalarOperatorSpec>,
    strategy: DelegationStrategy,
) -> Seq<Seq<char>> {
    operators.map_values(
        |spec: ScalarOperatorSpec| scalar_operator_text(name, value_type, spec, strategy),
    )
}

/// The source texts of the bit shifts, one text for each shift-amount type.
pub open spec fn bit_shift_sources(name: Seq<char>, strategy: DelegationStrategy) -> Seq<Seq<char>> {
    shift_types().map_values(|shift_type: Seq<char>| bit_shift_text(name, shift_type, strategy))
}

/// The source texts of the operators of a boolean type: the complement, then
/// the bitwise operators.
pub open spec fn bool_sources(
    name: Seq<char>,
    mode: GenerationMode,
    strategy: DelegationStrategy,
) -> Seq<Seq<char>> {
    seq![unary_operator_text(name, unary_ops::logical_not(), mode, strategy)]
        + binary_family_sources(name, bit_operators(), mode, strategy)
}

/// The source texts of every bit operation of an integer type: the shifts,
/// then the bitwise operators.
pub open spec fn all_bit_sources(
    name: Seq<char>,
    mode: GenerationMode,
    strategy: DelegationStrategy,
) -> Seq<Seq<char>> {
    bit_shift_sources(name, strategy) + binary_family_sources(name, bit_operators(), mode, strategy)
}

/// The descriptors of the arithmetic operators.
pub fn arithmetic_catalog() -> (operators: Vec<BinaryOperatorSpec>)
    ensures
        operators@ == arithmetic_operators(),
{
    let mut operators: Vec<BinaryOperatorSpec> = Vec::new();
    operators.push(binary_ops::addition());
    operators.push(binary_ops::subtraction());
    operators.push(binary_ops::multiplication());
    operators.push(binary_ops::division());
    operators.push(binary_ops::remainder());
    assert(operators@ =~= arithmetic_operators());
    operators
}

/// The descriptors of the operators of an addable type.
pub fn addable_catalog() -> (operators: Vec<BinaryOperatorSpec>)
    ensures
        operators@ == addable_operators(),
{
    let mut operators: Vec<BinaryOperatorSpec> = Vec::new();
    operators.push(binary_ops::addition());
    operators.push(binary_ops::subtraction());
    assert(operators@ =~= addable_operators());
    operators
}

/// The descriptors of the bitwise operators.
pub fn bit_catalog() -> (operators: Vec<BinaryOperatorSpec>)
    ensures
        operators@ == bit_operators(),
{
    let mut operators: Vec<BinaryOperatorSpec> = Vec::new();
    operators.push(binary_ops::bit_and());
    operators.push(binary_ops::bit_or());
    operators.push(binary_ops::bit_xor());
    assert(operators@ =~= bit_operators());
    operators
}

/// The descriptors of the operators against a bare value.
pub fn scalable_catalog() -> (operators: Vec<ScalarOperatorSpec>)
    ensures
        operators@ == scalable_operators(),
{
    let mut operators: Vec<ScalarOperatorSpec> = Vec::new();
    operators.push(scalar_ops::multiplication());
    operators.push(scalar_ops::division());
    operators.push(scalar_ops::remainder());
    assert(operators@ =~= scalable_operators());
    operators
}

/// The names of the integer types a shift amount can have.
pub fn shift_type_names() -> (names: Vec<&'static str>)
    ensures
        names@.map_values(|shift_type: &'static str| shift_type@) == shift_types(),
{
    let mut names: Vec<&'static str> = Vec::new();
    names.push("i8");
    names.push("i16");
    names.push("i32");
    names.push("i64");
    names.push("i128");
    names.push("isize");
    names.push("u8");
    names.push("u16");
    names.push("u32");
    names.push("u64");
    names.push("u128");
    names.push("usize");
    assert(names@.map_values(|shift_type: &'static str| shift_type@) =~= shift_types());
    names
}

/// Writes the source texts of several binary operator families.
pub fn render_binary_family(
    name: &str,
    operators: &Vec<BinaryOperatorSpec>,
    mode: GenerationMode,
    strategy: DelegationStrategy,
) -> (sources: Vec<String>)
    ensures
        texts_of(sources@) == binary_family_sources(name@, operators@, mode, strategy),
{
    let ghost expected = binary_family_sources(name@, operators@, mode, strategy);
    let mut sources: Vec<String> = Vec::new();
    let mut i: usize = 0;
    while i < operators.len()
        invariant
            i <= operators.len(),
            expected == binary_family_sources(name@, operators@, mode, strategy),
            texts_of(sources@) == expected.take(i as int),
        decreases operators.len() - i,
    {
        let text = render_binary_operator(name, &operators[i], mode, strategy);
        proof {
            assert(texts_of(sources@.push(text)) =~= texts_of(sources@).push(text@));
            assert(expected.take(i + 1) =~= expected.take(i as int).push(expected[i as int]));
        }
        sources.push(text);
        i += 1;
    }
    proof {
        assert(expected.take(i as int) =~= expected);
    }
    sources
}

/// Writes the source texts of several scalar operator families.
pub fn render_scalar_family(
    name: &str,
    value_type: &str,
    operators: &Vec<ScalarOperatorSpec>,
    strategy: DelegationStrategy,
) -> (sources: Vec<String>)
    ensures
        texts_of(sources@) == scalar_family_sources(name@, value_type@, operators@, strategy),
{
    let ghost expected = scalar_family_sources(name@, value_type@, operators@, strategy);
    let mut sources: Vec<String> = Vec::new();
    let mut i: usize = 0;
    while i < operators.len()
        invariant
            i <= operators.len(),
            expected == scalar_family_sources(name@, value_type@, operators@, strategy),
            texts_of(sources@) == expected.take(i as int),
        decreases operators.len() - i,
    {
        let text = render_scalar_operator(name, value_type, &operators[i], strategy);
        proof {
            assert(texts_of(sources@.push(text)) =~= texts_of(sources@).push(text@));
            assert(expected.take(i + 1) =~= expected.take(i as int).push(expected[i as int]));
        }
        sources.push(text);
        i += 1;
    }
    proof {
        assert(expected.take(i as int) =~= expected);
    }
    sources
}

/// Writes the source texts of the bit shifts, by every shift-amount type.
pub fn render_bit_shift_sources(name: &str, strategy: DelegationStrategy) -> (sources: Vec<String>)
    ensures
        texts_of(sources@) == bit_shift_sources(name@, strategy),
{
    let names = shift_type_names();
    let ghost expected = bit_shift_sources(name@, strategy);
    let mut sources: Vec<String> = Vec::new();
    let mut i: usize = 0;
    while i < names.len()
        invariant
            i <= names.len(),
            names@.map_values(|shift_type: &'static str| shift_type@) == shift_types(),
            expected == bit_shift_sources(name@, strategy),
            texts_of(sources@) == expected.take(i as int),
        decreases names.len() - i,
    {
        let text = render_bit_shift(name, names[i], strategy);
        proof {
            assert(names@.map_values(|shift_type: &'static str| shift_type@)[i as int]
                == names@[i as int]@);
            assert(texts_of(sources@.push(text)) =~= texts_of(sources@).push(text@));
            assert(expected.take(i + 1) =~= expected.take(i as int).push(expected[i as int]));
        }
        sources.push(text);
        i += 1;
    }
    proof {
        assert(names@.map_values(|shift_type: &'static str| shift_type@).len() == names@.len());
        assert(expected.take(i as int) =~= expected);
    }
    sources
}

/// Writes the source texts of the operators of a boolean type.
pub fn render_bool_sources(name: &str, mode: GenerationMode, strategy: DelegationStrategy) -> (sources:
    Vec<String>)
    ensures
        texts_of(sources@) == bool_sources(name@, mode, strategy),
{
    let mut sources: Vec<String> = Vec::new();
    let complement = render_unary_operator(name, &unary_ops::logical_not(), mode, strategy);
    sources.push(complement);
    let mut bitwise = render_binary_family(name, &bit_catalog(), mode, strategy);
    proof {
        assert(texts_of(sources@ + bitwise@) =~= texts_of(sources@) + texts_of(bitwise@));
        assert(texts_of(sources@) =~= seq![complement@]);
    }
    sources.append(&mut bitwise);
    sources
}

/// Writes the source texts of every bit operation of an integer type.
pub fn render_all_bit_sources(name: &str, mode: GenerationMode, strategy: DelegationStrategy) -> (sources:
    Vec<String>)
    ensures
        texts_of(sources@) == all_bit_sources(name@, mode, strategy),
{
    let mut sources = render_bit_shift_sources(name, strategy);
    let mut bitwise = render_binary_family(name, &bit_catalog(), mode, strategy);
    proof {
        assert(texts_of(sources@ + bitwise@) =~= texts_of(sources@) + texts_of(bitwise@));
    }
    sources.append(&mut bitwise);
    sources
}

/// Generates the arithmetic operators `+ - * / %` with inline bodies.
pub fn generate_arithmetic_operators(name: &str, mode: GenerationMode) -> (outcome: Result<
    TokenStream,
    StrongTypeError,
>)
    ensures
        is_lexing_of(
            outcome,
            binary_family_sources(name@, arithmetic_operators(), mode, DelegationStrategy::Inline).flatten(),
        ),
{
    let sources = render_binary_family(
        name,
        &arithmetic_catalog(),
        mode,
        DelegationStrategy::Inline,
    );
    tokenize_all(&sources)
}

/// Generates the operators `+ -` with inline bodies.
pub fn generate_addable_operators(name: &str, mode: GenerationMode) -> (outcome: Result<
    TokenStream,
    StrongTypeError,
>)
    ensures
        is_lexing_of(
            outcome,
            binary_family_sources(name@, addable_operators(), mode, DelegationStrategy::Inline).flatten(),
        ),
{
    let sources = render_binary_family(name, &addable_catalog(), mode, DelegationStrategy::Inline);
    tokenize_all(&sources)
}

/// Generates the operators `* / %` against a bare value of the underlying
/// type, with inline bodies.
pub fn generate_scalable_operators(name: &str, value_type: &str) -> (outcome: Result<
    TokenStream,
    StrongTypeError,
>)
    ensures
        is_lexing_of(
            outcome,
            scalar_family_sources(
                name@,
                value_type@,
                scalable_operators(),
                DelegationStrategy::Inline,
            ).flatten(),
        ),
{
    let sources = render_scalar_family(
        name,
        value_type,
        &scalable_catalog(),
        DelegationStrategy::Inline,
    );
    tokenize_all(&sources)
}

/// Generates the bitwise operators `& | ^` with inline bodies.
pub fn generate_bit_operators(name: &str, mode: GenerationMode) -> (outcome: Result<
    TokenStream,
    StrongTypeError,
>)
    ensures
        is_lexing_of(
            outcome,
            binary_family_sources(name@, bit_operators(), mode, DelegationStrategy::Inline).flatten(),
        ),
{
    let sources = render_binary_family(name, &bit_catalog(), mode, DelegationStrategy::Inline);
    tokenize_all(&sources)
}

/// Generates the negation with an inline body.
pub fn generate_negation(name: &str, mode: GenerationMode) -> (outcome: Result<
    TokenStream,
    StrongTypeError,
>)
    ensures
        is_lexing_of(
            outcome,
            unary_operator_text(name@, unary_ops::negation(), mode, DelegationStrategy::Inline),
        ),
{
    generate_unary_operator(name, &unary_ops::negation(), mode)
}

/// Generates the logical complement with an inline body.
pub fn generate_not(name: &str, mode: GenerationMode) -> (outcome: Result<
    TokenStream,
    StrongTypeError,
>)
    ensures
        is_lexing_of(
            outcome,
            unary_operator_text(name@, unary_ops::logical_not(), mode, DelegationStrategy::Inline),
        ),
{
    generate_unary_operator(name, &unary_ops::logical_not(), mode)
}

/// Generates the operators of a boolean type, `! & | ^`, with inline bodies.
pub fn generate_bool_operators(name: &str, mode: GenerationMode) -> (outcome: Result<
    TokenStream,
    StrongTypeError,
>)
    ensures
        is_lexing_of(
            outcome,
            bool_sources(name@, mode, DelegationStrategy::Inline).flatten(),
        ),
{
    let sources = render_bool_sources(name, mode, DelegationStrategy::Inline);
    tokenize_all(&sources)
}

/// Generates the bit shifts by every integer type, with inline bodies.
pub fn generate_bit_shift_operators(name: &str) -> (outcome: Result<TokenStream, StrongTypeError>)
    ensures
        is_lexing_of(
            outcome,
            bit_shift_sources(name@, DelegationStrategy::Inline).flatten(),
        ),
{
    let sources = render_bit_shift_sources(name, DelegationStrategy::Inline);
    tokenize_all(&sources)
}

/// Generates every bit operation of an integer type, shifts and bitwise
/// operators, with inline bodies.
pub fn generate_all_bit_operations(name: &str, mode: GenerationMode) -> (outcome: Result<
    TokenStream,
    StrongTypeError,
>)
    ensures
        is_lexing_of(
            outcome,
            all_bit_sources(name@, mode, DelegationStrategy::Inline).flatten(),
        ),
{
    let sources = render_all_bit_sources(name, mode, DelegationStrategy::Inline);
    tokenize_all(&sources)
}

/// Minimal mode against full mode: the operator on two owned operands is the
/// same implementation in both, so it computes the same; minimal mode only
/// leaves out implementations of full mode, those with a borrowed operand.
pub proof fn law_minimal_is_owned_part_of_full(has_reduction: bool, strategy: DelegationStrategy)
    ensures
        binary_operator_impls(has_reduction, GenerationMode::Minimal, strategy)[0]
            == binary_operator_impls(has_reduction, GenerationMode::Full, strategy)[0],
        binary_operator_impls(has_reduction, GenerationMode::Full, strategy)[0] == (
        BinaryImpl::Operator { lhs: Operand::Owned, rhs: Operand::Owned, strategy }),
        forall|item: BinaryImpl|
            (#[trigger] binary_operator_impls(
                has_reduction,
                GenerationMode::Minimal,
                strategy,
            ).contains(item)) ==> item.takes_owned_only() && binary_operator_impls(
                has_reduction,
                GenerationMode::Full,
                strategy,
            ).contains(item),
        forall|item: BinaryImpl|
            (#[trigger] binary_operator_impls(has_reduction, GenerationMode::Full, strategy).contains(
                item,
            )) && item.takes_owned_only() ==> binary_operator_impls(
                has_reduction,
                GenerationMode::Minimal,
                strategy,
            ).contains(item),
{
    let minimal = binary_operator_impls(has_reduction, GenerationMode::Minimal, strategy);
    let full = binary_operator_impls(has_reduction, GenerationMode::Full, strategy);
    assert forall|item: BinaryImpl| #[trigger] minimal.contains(item) implies item.takes_owned_only()
        && full.contains(item) by {
        let i = choose|i: int| 0 <= i < minimal.len() && minimal[i] == item;
        if i == 0 {
            assert(full[0] == item);
        } else if i == 1 {
            assert(full[4] == item);
        } else {
            assert(full[6] == item);
        }
    }
    assert forall|item: BinaryImpl| #[trigger]
        full.contains(item) && item.takes_owned_only() implies minimal.contains(item) by {
        let i = choose|i: int| 0 <= i < full.len() && full[i] == item;
        if i == 0 {
            assert(minimal[0] == item);
        } else if i == 4 {
            assert(minimal[1] == item);
        } else {
            assert(i == 6);
            assert(minimal[2] == item);
        }
    }
}

/// Delegation against inline computation: the two plans of a binary operator
/// family differ in one place only, the body of the operator on two owned
/// operands, which calls the shared helper instead of applying the
/// primitive operator. What the helper returns is stated in
/// [`crate::delegation`]: the value the inline body computes.
pub proof fn law_delegation_changes_owned_operator_only(has_reduction: bool, mode: GenerationMode)
    ensures
        binary_operator_impls(has_reduction, mode, DelegationStrategy::Delegate).len()
            == binary_operator_impls(has_reduction, mode, DelegationStrategy::Inline).len(),
        binary_operator_impls(has_reduction, mode, DelegationStrategy::Delegate)[0] == (
        BinaryImpl::Operator {
            lhs: Operand::Owned,
            rhs: Operand::Owned,
            strategy: DelegationStrategy::Delegate,
        }),
        binary_operator_impls(has_reduction, mode, DelegationStrategy::Inline)[0] == (
        BinaryImpl::Operator {
            lhs: Operand::Owned,
            rhs: Operand::Owned,
            strategy: DelegationStrategy::Inline,
        }),
        forall|i: int|
            0 < i < binary_operator_impls(has_reduction, mode, DelegationStrategy::Inline).len()
                ==> binary_operator_impls(has_reduction, mode, DelegationStrategy::Delegate)[i]
                == binary_operator_impls(has_reduction, mode, DelegationStrategy::Inline)[i],
{
}

/// Delegation against inline computation for the other operator families:
/// the plans of a unary operator, of a scalar operator and of the bit shifts
/// differ only in the body of the forms with an owned strong type on the
/// left.
pub proof fn law_delegation_keeps_borrowed_forms(mode: GenerationMode, commutative: bool)
    ensures
        forall|i: int|
            0 < i < unary_operator_impls(mode, DelegationStrategy::Inline).len()
                ==> unary_operator_impls(mode, DelegationStrategy::Delegate)[i]
                == unary_operator_impls(mode, DelegationStrategy::Inline)[i],
        forall|i: int|
            0 < i < scalar_operator_impls(commutative, DelegationStrategy::Inline).len()
                ==> scalar_operator_impls(commutative, DelegationStrategy::Delegate)[i]
                == scalar_operator_impls(commutative, DelegationStrategy::Inline)[i],
        forall|i: int|
            0 <= i < 6 && i != 0 && i != 2 ==> bit_shift_impls(DelegationStrategy::Delegate)[i]
                == bit_shift_impls(DelegationStrategy::Inline)[i],
{
}

} // verus!
