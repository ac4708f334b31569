//! The feature assembler.
//!
//! From the resolved metadata of a declaration the assembler decides which
//! features the strong type receives and in which order, writes the source
//! text of each and collects their tokens in one stream.

use vstd::prelude::*;
use proc_macro2::TokenStream;
use crate::codegen_framework::{
    addable_catalog,
    addable_operators,
    all_bit_sources,
    arithmetic_catalog,
    arithmetic_operators,
    binary_family_sources,
    bool_sources,
    render_all_bit_sources,
    render_binary_family,
    render_bool_sources,
    render_scalar_family,
    render_strong_type_ops_impl,
    render_unary_operator,
    scalable_catalog,
    scalable_operators,
    scalar_family_sources,
    strong_type_ops_text,
    unary_operator_text,
    unary_ops,
    DelegationStrategy,
    GenerationMode,
};
use crate::declaration::{is_single_field_tuple_struct, validate_struct, DeclarationDescriptor};
use crate::error::{ErrorView, StrongTypeError};
use crate::features::{
    basic_primitive_text,
    basic_string_text,
    basic_text,
    constants_derived_text,
    constants_text,
    conversion_text,
    display_text,
    hash_text,
    infinity_text,
    limit_text,
    nan_text,
    primitive_accessor_derived_text,
    primitive_accessor_text,
    primitive_str_accessor_derived_text,
    primitive_str_accessor_text,
    render_basic,
    render_basic_primitive,
    render_basic_string,
    render_constants,
    render_constants_derived,
    render_conversion,
    render_display,
    render_hash,
    render_infinity,
    render_limit,
    render_nan,
    render_primitive_accessor,
    render_primitive_accessor_derived,
    render_primitive_str_accessor,
    render_primitive_str_accessor_derived,
    render_str_conversion,
    str_conversion_text,
};
use crate::lexing::{is_lexing_of, join, texts_of, tokenize};
use crate::metadata::{
    lemma_resolution_is_no_lexing,
    metadata_of,
    AutoOperatorMode,
    MetadataView,
    TypeMetadata,
};
use crate::underlying_type_utils::{UnderlyingType, ValueTypeGroup};

verus! {

broadcast use Seq::lemma_flatten_push;

/// One building block of a strong type.
#[derive(Debug, Clone, Copy, PartialEq, Eq)]
pub enum Feature {
    /// Constructor, access to the value, the declaring trait, debug
    /// formatting, default construction and equality.
    Basic,
    /// Display formatting.
    Display,
    /// Conversions to and from the value type.
    Conversion,
    /// Construction from borrowed text.
    StrConversion,
    /// The primitive accessor of a scalar type that wraps a primitive.
    PrimitiveAccessor,
    /// The primitive accessor of a scalar type that wraps a strong type.
    PrimitiveAccessorDerived,
    /// The accessors of a text type that wraps a primitive.
    PrimitiveStrAccessor,
    /// The accessors of a text type that wraps a strong type.
    PrimitiveStrAccessorDerived,
    /// Copy, clone and partial order of a scalar type.
    BasicPrimitive,
    /// Clone and order of a text type.
    BasicString,
    /// Total equality, total order and hashing.
    Hash,
    /// The constants `MIN` and `MAX`.
    Limit,
    /// The constants `ZERO` and `ONE` of a type that wraps a primitive.
    Constants,
    /// The constants `ZERO` and `ONE` of a type that wraps a strong type.
    ConstantsDerived,
    /// The constant `NAN` with the predicates `is_nan` and `is_finite`.
    Nan,
    /// The constants `INFINITY` and `NEG_INFINITY`.
    Infinity,
    /// The access to the wrapped value that delegated operators rely on. The
    /// helpers compute on the type of the wrapped value, the value type.
    StrongTypeOps,
    /// The operators `+ - * / %`.
    Arithmetic(GenerationMode, DelegationStrategy),
    /// The operators `+ -` alone.
    Addable,
    /// The negation.
    Negation(GenerationMode, DelegationStrategy),
    /// The bit shifts by every integer type, and the operators `& | ^`.
    BitOperations(DelegationStrategy),
    /// The operators `! & | ^` of a boolean type.
    BoolOperators(GenerationMode, DelegationStrategy),
    /// The operators `* / %` against a bare value.
    Scalable(DelegationStrategy),
}

impl Feature {
    /// The step of the assembly that the feature belongs to: basic
    /// accessors, display, conversions, the primitive accessor, the
    /// supporting traits of the category, the operators.
    pub open spec fn step(self) -> nat {
        match self {
            Feature::Basic => 1,
            Feature::Display => 2,
            Feature::Conversion | Feature::StrConversion => 3,
            Feature::PrimitiveAccessor
            | Feature::PrimitiveAccessorDerived
            | Feature::PrimitiveStrAccessor
            | Feature::PrimitiveStrAccessorDerived => 4,
            Feature::BasicPrimitive
            | Feature::BasicString
            | Feature::Hash
            | Feature::Limit
            | Feature::Constants
            | Feature::ConstantsDerived
            | Feature::Nan
            | Feature::Infinity => 5,
            Feature::StrongTypeOps
            | Feature::Arithmetic(_, _)
            | Feature::Addable
            | Feature::Negation(_, _)
            | Feature::BitOperations(_)
            | Feature::BoolOperators(_, _)
            | Feature::Scalable(_) => 6,
        }
    }

    /// Whether the feature gives the type an operator.
    pub open spec fn is_operator(self) -> bool {
        match self {
            Feature::Arithmetic(_, _)
            | Feature::Addable
            | Feature::Negation(_, _)
            | Feature::BitOperations(_)
            | Feature::BoolOperators(_, _)
            | Feature::Scalable(_) => true,
            _ => false,
        }
    }
}

/// The accessor features of a type: which primitive accessor it has depends
/// on whether it wraps text, and on whether it wraps a primitive or a strong
/// type.
pub open spec fn accessor_features(type_group: ValueTypeGroup) -> Seq<Feature> {
    match type_group {
        ValueTypeGroup::String(UnderlyingType::Primitive) => seq![Feature::PrimitiveStrAccessor],
        ValueTypeGroup::String(UnderlyingType::Derived) => seq![
            Feature::PrimitiveStrAccessorDerived,
        ],
        _ => match type_group.underlying() {
            UnderlyingType::Primitive => seq![Feature::PrimitiveAccessor],
            UnderlyingType::Derived => seq![Feature::PrimitiveAccessorDerived],
        },
    }
}

/// The feature that gives a numeric type its constants `ZERO` and `ONE`.
pub open spec fn constants_feature(underlying: UnderlyingType) -> Feature {
    match underlying {
        UnderlyingType::Primitive => Feature::Constants,
        UnderlyingType::Derived => Feature::ConstantsDerived,
    }
}

/// The supporting features of each category.
pub open spec fn support_features(type_group: ValueTypeGroup) -> Seq<Feature> {
    match type_group {
        ValueTypeGroup::Int(underlying) | ValueTypeGroup::UInt(underlying) => seq![
            Feature::BasicPrimitive,
            Feature::Hash,
            Feature::Limit,
            constants_feature(underlying),
        ],
        ValueTypeGroup::Float(underlying) => seq![
            Feature::BasicPrimitive,
            Feature::Nan,
            Feature::Limit,
            Feature::Infinity,
            constants_feature(underlying),
        ],
        ValueTypeGroup::Bool(_) | ValueTypeGroup::Char(_) => seq![
            Feature::BasicPrimitive,
            Feature::Hash,
        ],
        ValueTypeGroup::String(_) => seq![Feature::BasicString, Feature::Hash],
    }
}

/// How operator bodies compute in a mode: through the shared helpers in
/// delegated mode, inline in every other.
pub open spec fn strategy_of(mode: AutoOperatorMode) -> DelegationStrategy {
    match mode {
        AutoOperatorMode::Delegated => DelegationStrategy::Delegate,
        _ => DelegationStrategy::Inline,
    }
}

/// The negation of a signed category, none for an unsigned one.
pub open spec fn negation_if(
    signed: bool,
    mode: GenerationMode,
    strategy: DelegationStrategy,
) -> Seq<Feature> {
    if signed {
        seq![Feature::Negation(mode, strategy)]
    } else {
        Seq::empty()
    }
}

/// The bit operations of an integer category, none for a floating one.
pub open spec fn bit_operations_if(integer: bool, strategy: DelegationStrategy) -> Seq<Feature> {
    if integer {
        seq![Feature::BitOperations(strategy)]
    } else {
        Seq::empty()
    }
}

/// The operator features of a numeric category.
///
/// The mode selects the arithmetic: all of it with negation and bit
/// operations in full and delegated mode, the owned forms of arithmetic and
/// negation in minimal mode, and with no mode `+ -` and negation where
/// `addable` asks for them. `scalable` adds the operators against a bare
/// value, and the negation where nothing before has brought it. Negation is
/// for signed categories only, bit operations for integers only.
pub open spec fn numeric_operator_features(
    signed: bool,
    integer: bool,
    mode: AutoOperatorMode,
    has_addable: bool,
    has_scalable: bool,
) -> Seq<Feature> {
    let selected = match mode {
        AutoOperatorMode::Full => seq![
            Feature::Arithmetic(GenerationMode::Full, DelegationStrategy::Inline),
        ] + negation_if(signed, GenerationMode::Full, DelegationStrategy::Inline)
            + bit_operations_if(integer, DelegationStrategy::Inline),
        AutoOperatorMode::Minimal => seq![
            Feature::Arithmetic(GenerationMode::Minimal, DelegationStrategy::Inline),
        ] + negation_if(signed, GenerationMode::Minimal, DelegationStrategy::Inline),
        AutoOperatorMode::Delegated => seq![
            Feature::StrongTypeOps,
            Feature::Arithmetic(GenerationMode::Full, DelegationStrategy::Delegate),
        ] + negation_if(signed, GenerationMode::Full, DelegationStrategy::Delegate)
            + bit_operations_if(integer, DelegationStrategy::Delegate),
        AutoOperatorMode::Off => if has_addable {
            seq![Feature::Addable] + negation_if(
                signed,
                GenerationMode::Full,
                DelegationStrategy::Inline,
            )
        } else {
            Seq::empty()
        },
    };
    let scalar = if has_scalable {
        seq![Feature::Scalable(strategy_of(mode))] + if mode == AutoOperatorMode::Off
            && !has_addable {
            negation_if(signed, GenerationMode::Full, DelegationStrategy::Inline)
        } else {
            Seq::empty()
        }
    } else {
        Seq::empty()
    };
    selected + scalar
}

/// The operator features of a boolean type: complement and bitwise
/// operators where a mode is set, none otherwise.
pub open spec fn bool_operator_features(mode: AutoOperatorMode) -> Seq<Feature> {
    match mode {
        AutoOperatorMode::Full => seq![
            Feature::BoolOperators(GenerationMode::Full, DelegationStrategy::Inline),
        ],
        AutoOperatorMode::Minimal => seq![
            Feature::BoolOperators(GenerationMode::Minimal, DelegationStrategy::Inline),
        ],
        AutoOperatorMode::Delegated => seq![
            Feature::StrongTypeOps,
            Feature::BoolOperators(GenerationMode::Full, DelegationStrategy::Delegate),
        ],
        AutoOperatorMode::Off => Seq::empty(),
    }
}

/// The operator features of a type, by its category. Characters and text
/// never have any.
pub open spec fn operator_features(metadata: MetadataView) -> Seq<Feature> {
    match metadata.type_group {
        ValueTypeGroup::Int(_) => numeric_operator_features(
            true,
            true,
            metadata.auto_operator_mode,
            metadata.has_addable,
            metadata.has_scalable,
        ),
        ValueTypeGroup::UInt(_) => numeric_operator_features(
            false,
            true,
            metadata.auto_operator_mode,
            metadata.has_addable,
            metadata.has_scalable,
        ),
        ValueTypeGroup::Float(_) => numeric_operator_features(
            true,
            false,
            metadata.auto_operator_mode,
            metadata.has_addable,
            metadata.has_scalable,
        ),
        ValueTypeGroup::Bool(_) => bool_operator_features(metadata.auto_operator_mode),
        ValueTypeGroup::Char(_) | ValueTypeGroup::String(_) => Seq::empty(),
    }
}

/// The display feature, unless the declaring code formats the type itself.
pub open spec fn display_features(metadata: MetadataView) -> Seq<Feature> {
    if metadata.has_custom_display {
        Seq::empty()
    } else {
        seq![Feature::Display]
    }
}

/// The conversion features, where they were asked for: conversions to and
/// from the value type and, for a type that wraps `String` itself,
/// construction from borrowed text.
pub open spec fn conversion_features(metadata: MetadataView) -> Seq<Feature> {
    if metadata.has_conversion {
        seq![Feature::Conversion] + if metadata.type_group == ValueTypeGroup::String(
            UnderlyingType::Primitive,
        ) {
            seq![Feature::StrConversion]
        } else {
            Seq::empty()
        }
    } else {
        Seq::empty()
    }
}

/// The features of a strong type, in the order they are emitted: basic
/// accessors, display, conversions, the primitive accessor, the supporting
/// traits of the category, and the operators.
pub open spec fn planned_features(metadata: MetadataView) -> Seq<Feature> {
    seq![Feature::Basic] + display_features(metadata) + conversion_features(metadata)
        + accessor_features(metadata.type_group) + support_features(metadata.type_group)
        + operator_features(metadata)
}

/// Appends the negation of a signed category to a plan.
fn push_negation(
    plan: &mut Vec<Feature>,
    signed: bool,
    mode: GenerationMode,
    strategy: DelegationStrategy,
)
    ensures
        final(plan)@ == old(plan)@ + negation_if(signed, mode, strategy),
{
    if signed {
        plan.push(Feature::Negation(mode, strategy));
    }
    assert(plan@ =~= old(plan)@ + negation_if(signed, mode, strategy));
}

/// Appends the operator features of a numeric category to a plan.
fn push_numeric_operators(
    plan: &mut Vec<Feature>,
    signed: bool,
    integer: bool,
    mode: AutoOperatorMode,
    has_addable: bool,
    has_scalable: bool,
)
    ensures
        final(plan)@ == old(plan)@ + numeric_operator_features(
            signed,
            integer,
            mode,
            has_addable,
            has_scalable,
        ),
{
    let ghost before = plan@;
    let mut with_negation = false;
    match mode {
        AutoOperatorMode::Full => {
            plan.push(Feature::Arithmetic(GenerationMode::Full, DelegationStrategy::Inline));
            push_negation(plan, signed, GenerationMode::Full, DelegationStrategy::Inline);
            if integer {
                plan.push(Feature::BitOperations(DelegationStrategy::Inline));
            }
            with_negation = true;
        },
        AutoOperatorMode::Minimal => {
            plan.push(Feature::Arithmetic(GenerationMode::Minimal, DelegationStrategy::Inline));
            push_negation(plan, signed, GenerationMode::Minimal, DelegationStrategy::Inline);
            with_negation = true;
        },
        AutoOperatorMode::Delegated => {
            plan.push(Feature::StrongTypeOps);
            plan.push(Feature::Arithmetic(GenerationMode::Full, DelegationStrategy::Delegate));
            push_negation(plan, signed, GenerationMode::Full, DelegationStrategy::Delegate);
            if integer {
                plan.push(Feature::BitOperations(DelegationStrategy::Delegate));
            }
            with_negation = true;
        },
        AutoOperatorMode::Off => {
            if has_addable {
                plan.push(Feature::Addable);
                push_negation(plan, signed, GenerationMode::Full, DelegationStrategy::Inline);
                with_negation = true;
            }
        },
    }
    if has_scalable {
        match mode {
            AutoOperatorMode::Delegated => {
                plan.push(Feature::Scalable(DelegationStrategy::Delegate));
            },
            _ => {
                plan.push(Feature::Scalable(DelegationStrategy::Inline));
            },
        }
        if !with_negation {
            push_negation(plan, signed, GenerationMode::Full, DelegationStrategy::Inline);
        }
    }
    assert(plan@ =~= before + numeric_operator_features(
        signed,
        integer,
        mode,
        has_addable,
        has_scalable,
    ));
}

/// Appends the display feature to a plan.
fn push_display_features(plan: &mut Vec<Feature>, metadata: &TypeMetadata)
    ensures
        final(plan)@ == old(plan)@ + display_features(metadata@),
{
    if !metadata.has_custom_display {
        plan.push(Feature::Display);
    }
    assert(plan@ =~= old(plan)@ + display_features(metadata@));
}

/// Appends the conversion features to a plan.
fn push_conversion_features(plan: &mut Vec<Feature>, metadata: &TypeMetadata)
    ensures
        final(plan)@ == old(plan)@ + conversion_features(metadata@),
{
    if metadata.has_conversion {
        plan.push(Feature::Conversion);
        match metadata.type_group {
            ValueTypeGroup::String(UnderlyingType::Primitive) => {
                plan.push(Feature::StrConversion);
            },
            _ => {},
        }
    }
    assert(plan@ =~= old(plan)@ + conversion_features(metadata@));
}

/// Appends the accessor feature of a group to a plan.
fn push_accessor_features(plan: &mut Vec<Feature>, type_group: ValueTypeGroup)
    ensures
        final(plan)@ == old(plan)@ + accessor_features(type_group),
{
    match type_group {
        ValueTypeGroup::String(underlying) => match underlying {
            UnderlyingType::Primitive => plan.push(Feature::PrimitiveStrAccessor),
            UnderlyingType::Derived => plan.push(Feature::PrimitiveStrAccessorDerived),
        },
        _ => match type_group.underlying() {
            UnderlyingType::Primitive => plan.push(Feature::PrimitiveAccessor),
            UnderlyingType::Derived => plan.push(Feature::PrimitiveAccessorDerived),
        },
    }
    assert(plan@ =~= old(plan)@ + accessor_features(type_group));
}

/// Appends the supporting features of a group to a plan.
fn push_support_features(plan: &mut Vec<Feature>, type_group: ValueTypeGroup)
    ensures
        final(plan)@ == old(plan)@ + support_features(type_group),
{
    let constants = match type_group.underlying() {
        UnderlyingType::Primitive => Feature::Constants,
        UnderlyingType::Derived => Feature::ConstantsDerived,
    };
    match type_group {
        ValueTypeGroup::Int(_) | ValueTypeGroup::UInt(_) => {
            plan.push(Feature::BasicPrimitive);
            plan.push(Feature::Hash);
            plan.push(Feature::Limit);
            plan.push(constants);
        },
        ValueTypeGroup::Float(_) => {
            plan.push(Feature::BasicPrimitive);
            plan.push(Feature::Nan);
            plan.push(Feature::Limit);
            plan.push(Feature::Infinity);
            plan.push(constants);
        },
        ValueTypeGroup::Bool(_) | ValueTypeGroup::Char(_) => {
            plan.push(Feature::BasicPrimitive);
            plan.push(Feature::Hash);
        },
        ValueTypeGroup::String(_) => {
            plan.push(Feature::BasicString);
            plan.push(Feature::Hash);
        },
    }
    assert(plan@ =~= old(plan)@ + support_features(type_group));
}

/// Appends the operator features of a boolean type to a plan.
fn push_bool_operators(plan: &mut Vec<Feature>, mode: AutoOperatorMode)
    ensures
        final(plan)@ == old(plan)@ + bool_operator_features(mode),
{
    match mode {
        AutoOperatorMode::Full => {
            plan.push(Feature::BoolOperators(GenerationMode::Full, DelegationStrategy::Inline));
        },
        AutoOperatorMode::Minimal => {
            plan.push(Feature::BoolOperators(GenerationMode::Minimal, DelegationStrategy::Inline));
        },
        AutoOperatorMode::Delegated => {
            plan.push(Feature::StrongTypeOps);
            plan.push(Feature::BoolOperators(GenerationMode::Full, DelegationStrategy::Delegate));
        },
        AutoOperatorMode::Off => {},
    }
    assert(plan@ =~= old(plan)@ + bool_operator_features(mode));
}

/// Appends the operator features of a type to a plan.
fn push_operator_features(plan: &mut Vec<Feature>, metadata: &TypeMetadata)
    ensures
        final(plan)@ == old(plan)@ + operator_features(metadata@),
{
    let mode = metadata.auto_operator_mode;
    match metadata.type_group {
        ValueTypeGroup::Int(_) => push_numeric_operators(
            plan,
            true,
            true,
            mode,
            metadata.has_addable,
            metadata.has_scalable,
        ),
        ValueTypeGroup::UInt(_) => push_numeric_operators(
            plan,
            false,
            true,
            mode,
            metadata.has_addable,
            metadata.has_scalable,
        ),
        ValueTypeGroup::Float(_) => push_numeric_operators(
            plan,
            true,
            false,
            mode,
            metadata.has_addable,
            metadata.has_scalable,
        ),
        ValueTypeGroup::Bool(_) => push_bool_operators(plan, mode),
        ValueTypeGroup::Char(_) | ValueTypeGroup::String(_) => {
            assert(plan@ =~= old(plan)@ + operator_features(metadata@));
        },
    }
}

/// Decides which features a strong type receives, and in which order.
pub fn plan_features(metadata: &TypeMetadata) -> (plan: Vec<Feature>)
    ensures
        plan@ == planned_features(metadata@),
{
    let mut plan: Vec<Feature> = Vec::new();
    plan.push(Feature::Basic);
    assert(plan@ =~= seq![Feature::Basic]);
    push_display_features(&mut plan, metadata);
    push_conversion_features(&mut plan, metadata);
    push_accessor_features(&mut plan, metadata.type_group);
    push_support_features(&mut plan, metadata.type_group);
    push_operator_features(&mut plan, metadata);
    plan
}

/// The source texts of a feature for a type, in order.
pub open spec fn feature_sources(feature: Feature, metadata: MetadataView) -> Seq<Seq<char>> {
    let name = metadata.name;
    let value_type = metadata.value_type;
    let primitive_type = metadata.primitive_type;
    match feature {
        Feature::Basic => seq![basic_text(name, value_type, primitive_type)],
        Feature::Display => seq![display_text(name)],
        Feature::Conversion => seq![conversion_text(name, value_type)],
        Feature::StrConversion => seq![str_conversion_text(name)],
        Feature::PrimitiveAccessor => seq![primitive_accessor_text(name, value_type)],
        Feature::PrimitiveAccessorDerived => seq![
            primitive_accessor_derived_text(name, primitive_type),
        ],
        Feature::PrimitiveStrAccessor => seq![primitive_str_accessor_text(name)],
        Feature::PrimitiveStrAccessorDerived => seq![
            primitive_str_accessor_derived_text(name, value_type),
        ],
        Feature::BasicPrimitive => seq![basic_primitive_text(name, value_type)],
        Feature::BasicString => seq![basic_string_text(name)],
        Feature::Hash => seq![hash_text(name)],
        Feature::Limit => seq![limit_text(name, value_type)],
        Feature::Constants => seq![constants_text(name, value_type)],
        Feature::ConstantsDerived => seq![constants_derived_text(name, value_type)],
        Feature::Nan => seq![nan_text(name, value_type)],
        Feature::Infinity => seq![infinity_text(name, value_type)],
        Feature::StrongTypeOps => seq![strong_type_ops_text(name, value_type)],
        Feature::Arithmetic(mode, strategy) => binary_family_sources(
            name,
            arithmetic_operators(),
            mode,
            strategy,
        ),
        Feature::Addable => binary_family_sources(
            name,
            addable_operators(),
            GenerationMode::Full,
            DelegationStrategy::Inline,
        ),
        Feature::Negation(mode, strategy) => seq![
            unary_operator_text(name, unary_ops::negation(), mode, strategy),
        ],
        Feature::BitOperations(strategy) => all_bit_sources(name, GenerationMode::Full, strategy),
        Feature::BoolOperators(mode, strategy) => bool_sources(name, mode, strategy),
        Feature::Scalable(strategy) => scalar_family_sources(
            name,
            value_type,
            scalable_operators(),
            strategy,
        ),
    }
}

/// The source texts of a strong type: those of its planned features, in
/// order.
pub open spec fn expansion_sources(metadata: MetadataView) -> Seq<Seq<char>> {
    planned_features(metadata).map_values(
        |feature: Feature| feature_sources(feature, metadata),
    ).flatten()
}

/// Holds one text in a list.
fn single(text: String) -> (sources: Vec<String>)
    ensures
        texts_of(sources@) == seq![text@],
{
    let mut sources: Vec<String> = Vec::new();
    sources.push(text);
    assert(texts_of(sources@) =~= seq![text@]);
    sources
}

/// Writes the source texts of a feature for a type.
pub fn render_feature(metadata: &TypeMetadata, feature: Feature) -> (sources: Vec<String>)
    ensures
        texts_of(sources@) == feature_sources(feature, metadata@),
{
    let name = metadata.name.as_str();
    let value_type = metadata.value_type.as_str();
    let primitive_type = metadata.primitive_type.as_str();
    match feature {
        Feature::Basic => single(render_basic(name, value_type, primitive_type)),
        Feature::Display => single(render_display(name)),
        Feature::Conversion => single(render_conversion(name, value_type)),
        Feature::StrConversion => single(render_str_conversion(name)),
        Feature::PrimitiveAccessor => single(render_primitive_accessor(name, value_type)),
        Feature::PrimitiveAccessorDerived => single(
            render_primitive_accessor_derived(name, primitive_type),
        ),
        Feature::PrimitiveStrAccessor => single(render_primitive_str_accessor(name)),
        Feature::PrimitiveStrAccessorDerived => single(
            render_primitive_str_accessor_derived(name, value_type),
        ),
        Feature::BasicPrimitive => single(render_basic_primitive(name, value_type)),
        Feature::BasicString => single(render_basic_string(name)),
        Feature::Hash => single(render_hash(name)),
        Feature::Limit => single(render_limit(name, value_type)),
        Feature::Constants => single(render_constants(name, value_type)),
        Feature::ConstantsDerived => single(render_constants_derived(name, value_type)),
        Feature::Nan => single(render_nan(name, value_type)),
        Feature::Infinity => single(render_infinity(name, value_type)),
        Feature::StrongTypeOps => single(render_strong_type_ops_impl(name, value_type)),
        Feature::Arithmetic(mode, strategy) => render_binary_family(
            name,
            &arithmetic_catalog(),
            mode,
            strategy,
        ),
        Feature::Addable => render_binary_family(
            name,
            &addable_catalog(),
            GenerationMode::Full,
            DelegationStrategy::Inline,
        ),
        Feature::Negation(mode, strategy) => single(
            render_unary_operator(name, &unary_ops::negation(), mode, strategy),
        ),
        Feature::BitOperations(strategy) => render_all_bit_sources(
            name,
            GenerationMode::Full,
            strategy,
        ),
        Feature::BoolOperators(mode, strategy) => render_bool_sources(name, mode, strategy),
        Feature::Scalable(strategy) => render_scalar_family(
            name,
            value_type,
            &scalable_catalog(),
            strategy,
        ),
    }
}

/// Writes the source texts of a strong type.
pub fn render_expansion(metadata: &TypeMetadata) -> (sources: Vec<String>)
    ensures
        texts_of(sources@) == expansion_sources(metadata@),
{
    let plan = plan_features(metadata);
    let ghost pieces = plan@.map_values(|feature: Feature| feature_sources(feature, metadata@));
    let mut sources: Vec<String> = Vec::new();
    let mut i: usize = 0;
    assert(texts_of(sources@) =~= pieces.take(0).flatten());
    while i < plan.len()
        invariant
            i <= plan.len(),
            plan@ == planned_features(metadata@),
            pieces == plan@.map_values(|feature: Feature| feature_sources(feature, metadata@)),
            texts_of(sources@) == pieces.take(i as int).flatten(),
        decreases plan.len() - i,
    {
        let mut piece = render_feature(metadata, plan[i]);
        proof {
            assert(texts_of(sources@ + piece@) =~= texts_of(sources@) + texts_of(piece@));
            assert(pieces.take(i + 1) =~= pieces.take(i as int).push(pieces[i as int]));
        }
        sources.append(&mut piece);
        i += 1;
    }
    proof {
        assert(pieces.take(i as int) =~= pieces);
    }
    sources
}

/// The source text of a strong type: its source texts joined, in order.
pub open spec fn expansion_text(metadata: MetadataView) -> Seq<char> {
    expansion_sources(metadata).flatten()
}

/// What a declaration expands to: the source text of its strong type, or
/// the error that its shape or its options are in.
pub open spec fn expansion_of(input: &DeclarationDescriptor) -> Result<Seq<char>, ErrorView> {
    if !is_single_field_tuple_struct(input) {
        Err(ErrorView::NotSingleFieldTupleStruct)
    } else {
        match metadata_of(input) {
            Ok(metadata) => Ok(expansion_text(metadata)),
            Err(error) => Err(error),
        }
    }
}

/// Says that `written` is what a declaration expands to: its source text,
/// or the error that its shape or its options are in.
pub open spec fn is_expansion_of(
    written: Result<String, StrongTypeError>,
    input: &DeclarationDescriptor,
) -> bool {
    match written {
        Ok(text) => expansion_of(input) == Ok::<Seq<char>, ErrorView>(text@),
        Err(error) => expansion_of(input) == Err::<Seq<char>, ErrorView>(error@),
    }
}

/// Writes the source text that a declaration expands to.
///
/// Fails exactly where the declaration is no tuple struct with one field or
/// its metadata does not resolve, with the error of the shape first and
/// never with the error that the lexer gives rise to.
pub fn write_expansion(input: &DeclarationDescriptor) -> (written: Result<String, StrongTypeError>)
    ensures
        is_expansion_of(written, input),
        written matches Err(error) ==> error@ != ErrorView::UnlexableCode,
{
    match validate_struct(input) {
        Ok(_) => {},
        Err(error) => {
            return Err(error);
        },
    }
    let metadata = match TypeMetadata::new(input) {
        Ok(metadata) => metadata,
        Err(error) => {
            proof {
                lemma_resolution_is_no_lexing(input);
            }
            return Err(error);
        },
    };
    let sources = render_expansion(&metadata);
    Ok(join(&sources))
}

/// Says that `outcome` comes from expanding a declaration: the error of the
/// declaration where it has one; else a stream that was lexed from the
/// source text of its strong type, or the error that tells that the lexer
/// refused that text.
pub open spec fn is_generated_from(
    outcome: Result<TokenStream, StrongTypeError>,
    input: &DeclarationDescriptor,
) -> bool {
    match expansion_of(input) {
        Ok(text) => is_lexing_of(outcome, text),
        Err(expected) => outcome matches Err(error) && error@ == expected,
    }
}

/// Generates the trait implementations of a strong type.
///
/// Fails with the error of the declaration exactly where the declaration is
/// no tuple struct with one field or its metadata does not resolve.
/// Otherwise the source text of every planned feature, in order, is handed
/// to the lexer in one piece: the stream that comes back was lexed from that
/// text, and any failure is the lexer's refusal of it.
pub fn expand_strong_type_impl(input: &DeclarationDescriptor) -> (outcome: Result<
    TokenStream,
    StrongTypeError,
>)
    ensures
        is_generated_from(outcome, input),
        expansion_of(input).is_err() <==> (outcome matches Err(error) && error@
            != ErrorView::UnlexableCode),
{
    match write_expansion(input) {
        Ok(text) => tokenize(text.as_str()),
        Err(error) => Err(error),
    }
}

/// The features a type has besides its operators.
pub open spec fn supporting_features(metadata: MetadataView) -> Seq<Feature> {
    seq![Feature::Basic] + display_features(metadata) + conversion_features(metadata)
        + accessor_features(metadata.type_group) + support_features(metadata.type_group)
}

/// Operators come last in a plan, and only from the operator step: no
/// feature before it gives the type an operator.
pub proof fn lemma_operators_come_last(metadata: MetadataView)
    ensures
        planned_features(metadata) == supporting_features(metadata) + operator_features(metadata),
        forall|i: int|
            0 <= i < supporting_features(metadata).len() ==> !(
            #[trigger] supporting_features(metadata)[i]).is_operator(),
        supporting_features(metadata)[0] == Feature::Basic,
        supporting_features(metadata).contains(Feature::BasicPrimitive) || supporting_features(
            metadata,
        ).contains(Feature::BasicString),
{
    let support = support_features(metadata.type_group);
    let front = seq![Feature::Basic] + display_features(metadata) + conversion_features(metadata)
        + accessor_features(metadata.type_group);
    assert(support[0] == Feature::BasicPrimitive || support[0] == Feature::BasicString);
    assert(supporting_features(metadata)[front.len() as int] == support[0]);
}

/// A type declared without options has the supporting traits of its category
/// and no operator: its metadata resolves, and its plan holds the basic
/// feature (the declaring trait, debug formatting, equality, default),
/// display formatting, the feature that brings clone and partial order, and
/// no feature that gives an operator.
pub proof fn law_no_options_no_operators(input: &DeclarationDescriptor, value_type: Seq<char>)
    requires
        input.options@.len() == 0,
        crate::declaration::value_type_of(input) == Some(value_type),
        crate::underlying_type_utils::type_group_of(value_type, UnderlyingType::Primitive).is_some(),
    ensures
        match metadata_of(input) {
            Ok(metadata) => {
                &&& planned_features(metadata)[0] == Feature::Basic
                &&& planned_features(metadata)[1] == Feature::Display
                &&& planned_features(metadata).contains(Feature::BasicPrimitive)
                    || planned_features(metadata).contains(Feature::BasicString)
                &&& forall|i: int|
                    0 <= i < planned_features(metadata).len() ==> !(#[trigger] planned_features(
                        metadata,
                    )[i]).is_operator()
            },
            Err(_) => false,
        },
{
    let metadata = metadata_of(input)->Ok_0;
    assert(metadata.auto_operator_mode == AutoOperatorMode::Off);
    assert(!metadata.has_addable && !metadata.has_scalable);
    lemma_operators_come_last(metadata);
    assert(operator_features(metadata) =~= Seq::<Feature>::empty());
    assert(planned_features(metadata) =~= supporting_features(metadata));
}

/// Operators are sound for the category: characters and text have none,
/// only signed numbers have a negation, only numbers have arithmetic and
/// scalar operators, only integers have bit operations, and only booleans
/// have the boolean operators.
pub proof fn law_operators_fit_category(metadata: MetadataView)
    ensures
        metadata.type_group is Char || metadata.type_group is String ==> operator_features(
            metadata,
        ).len() == 0,
        forall|i: int|
            0 <= i < operator_features(metadata).len() ==> match #[trigger] operator_features(
                metadata,
            )[i] {
                Feature::Negation(_, _) => metadata.type_group is Int
                    || metadata.type_group is Float,
                Feature::Arithmetic(_, _) | Feature::Addable | Feature::Scalable(_) =>
                    metadata.type_group is Int || metadata.type_group is UInt
                        || metadata.type_group is Float,
                Feature::BitOperations(_) => metadata.type_group is Int
                    || metadata.type_group is UInt,
                Feature::BoolOperators(_, _) => metadata.type_group is Bool,
                _ => true,
            },
{
}

/// Negation is emitted at most once, however many options ask for it.
pub proof fn law_negation_at_most_once(metadata: MetadataView)
    ensures
        forall|i: int, j: int|
            0 <= i < planned_features(metadata).len() && 0 <= j < planned_features(metadata).len()
                && (#[trigger] planned_features(metadata)[i]) is Negation
                && (#[trigger] planned_features(metadata)[j]) is Negation ==> i == j,
{
    lemma_operators_come_last(metadata);
    let front = supporting_features(metadata);
    let operators = operator_features(metadata);
    let plan = planned_features(metadata);
    assert forall|i: int, j: int|
        0 <= i < plan.len() && 0 <= j < plan.len() && (#[trigger] plan[i]) is Negation
            && (#[trigger] plan[j]) is Negation implies i == j by {
        assert(front[i].is_operator() || i >= front.len());
        assert(front[j].is_operator() || j >= front.len());
        assert(plan[i] == operators[i - front.len()]);
        assert(plan[j] == operators[j - front.len()]);
    }
}

/// The feature a delegated mode generates in place of an inline one: the
/// same operators, computing through the shared helpers.
pub open spec fn with_delegation(feature: Feature) -> Feature {
    match feature {
        Feature::Arithmetic(mode, _) => Feature::Arithmetic(mode, DelegationStrategy::Delegate),
        Feature::Negation(mode, _) => Feature::Negation(mode, DelegationStrategy::Delegate),
        Feature::BitOperations(_) => Feature::BitOperations(DelegationStrategy::Delegate),
        Feature::BoolOperators(mode, _) => Feature::BoolOperators(
            mode,
            DelegationStrategy::Delegate,
        ),
        Feature::Scalable(_) => Feature::Scalable(DelegationStrategy::Delegate),
        other => other,
    }
}

/// Delegated mode against full mode: a type has the same operators in both.
/// Delegated mode adds the access to the primitive value that the helpers
/// need, and has every operator of full mode compute through them.
pub proof fn law_delegated_features_mirror_full(metadata: MetadataView)
    requires
        !(metadata.type_group is Char),
        !(metadata.type_group is String),
    ensures
        operator_features(
            MetadataView { auto_operator_mode: AutoOperatorMode::Delegated, ..metadata },
        ) == seq![Feature::StrongTypeOps] + operator_features(
            MetadataView { auto_operator_mode: AutoOperatorMode::Full, ..metadata },
        ).map_values(|feature: Feature| with_delegation(feature)),
{
    let delegated = operator_features(
        MetadataView { auto_operator_mode: AutoOperatorMode::Delegated, ..metadata },
    );
    let full = operator_features(
        MetadataView { auto_operator_mode: AutoOperatorMode::Full, ..metadata },
    );
    assert(delegated =~= seq![Feature::StrongTypeOps] + full.map_values(
        |feature: Feature| with_delegation(feature),
    ));
}

/// Expanding a declaration is deterministic in all that the library
/// decides: two expansions of the same declaration write the same source
/// text, or fail with the same error.
pub proof fn law_expansion_is_deterministic(
    input: &DeclarationDescriptor,
    first: Result<String, StrongTypeError>,
    second: Result<String, StrongTypeError>,
)
    requires
        is_expansion_of(first, input),
        is_expansion_of(second, input),
    ensures
        match (first, second) {
            (Ok(one), Ok(other)) => one@ == other@,
            (Err(one), Err(other)) => one@ == other@,
            _ => false,
        },
{
}

/// Whether every feature of a list belongs to one step.
pub open spec fn all_of_step(features: Seq<Feature>, step: nat) -> bool {
    forall|i: int| 0 <= i < features.len() ==> (#[trigger] features[i]).step() == step
}

/// Whether the steps of a list of features never go back, and stay between
/// two bounds.
pub open spec fn in_step_order(features: Seq<Feature>, first: nat, last: nat) -> bool {
    &&& forall|i: int|
        0 <= i < features.len() ==> first <= (#[trigger] features[i]).step() <= last
    &&& forall|i: int, j: int|
        0 <= i <= j < features.len() ==> (#[trigger] features[i]).step() <= (
        #[trigger] features[j]).step()
}

/// A list in step order stays in step order when the features of a later
/// step follow it.
proof fn lemma_step_follows(front: Seq<Feature>, back: Seq<Feature>, first: nat, step: nat)
    requires
        in_step_order(front, first, (step - 1) as nat),
        first < step,
        all_of_step(back, step),
    ensures
        in_step_order(front + back, first, step),
{
    let all = front + back;
    assert forall|i: int| 0 <= i < all.len() implies first <= (#[trigger] all[i]).step()
        <= step by {
        if i < front.len() {
            assert(all[i] == front[i]);
        } else {
            assert(all[i] == back[i - front.len()]);
        }
    }
    assert forall|i: int, j: int| 0 <= i <= j < all.len() implies (#[trigger] all[i]).step() <= (
    #[trigger] all[j]).step() by {
        if i < front.len() {
            assert(all[i] == front[i]);
        } else {
            assert(all[i] == back[i - front.len()]);
        }
        if j < front.len() {
            assert(all[j] == front[j]);
        } else {
            assert(all[j] == back[j - front.len()]);
        }
    }
}

/// The assembly never reorders: along the plan of a type the steps never go
/// back. A step may be left out, as display is for a type that formats
/// itself.
pub proof fn law_features_keep_their_order(metadata: MetadataView)
    ensures
        in_step_order(planned_features(metadata), 1, 6),
{
    let basic = seq![Feature::Basic];
    assert(in_step_order(basic, 1, 1));
    lemma_step_follows(basic, display_features(metadata), 1, 2);
    let shown = basic + display_features(metadata);
    lemma_step_follows(shown, conversion_features(metadata), 1, 3);
    let converted = shown + conversion_features(metadata);
    lemma_step_follows(converted, accessor_features(metadata.type_group), 1, 4);
    let accessed = converted + accessor_features(metadata.type_group);
    lemma_step_follows(accessed, support_features(metadata.type_group), 1, 5);
    let supported = accessed + support_features(metadata.type_group);
    lemma_step_follows(supported, operator_features(metadata), 1, 6);
}

} // verus!
