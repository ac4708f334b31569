//! The option resolver.
//!
//! Merges what the declared field tells of the wrapped type with the options
//! attached to the declaration into one record, [`TypeMetadata`], which every
//! later decision reads.

use vstd::prelude::*;
use crate::declaration::{
    get_type,
    type_info_of,
    DeclarationDescriptor,
    OptionDescriptor,
    OptionValue,
    TypeInfo,
    TypeInfoView,
};
use crate::error::{ErrorView, StrongTypeError};
use crate::text::str_eq;
use crate::underlying_type_utils::{get_type_group, type_group_of, UnderlyingType, ValueTypeGroup};

verus! {

/// Which operators a type receives, and in which form.
#[derive(Debug, Clone, Copy, PartialEq, Eq)]
pub enum AutoOperatorMode {
    /// Only those that `addable` and `scalable` ask for.
    Off,
    /// Every operator of the category, for owned and borrowed operands.
    Full,
    /// The operators of the category for owned operands only.
    Minimal,
    /// The operators of full mode, computing through the shared helpers.
    Delegated,
}

/// The settings read from a declaration.
#[derive(Debug, Clone)]
pub struct StrongTypeAttributes {
    pub auto_operator_mode: AutoOperatorMode,
    pub has_addable: bool,
    pub has_scalable: bool,
    pub has_custom_display: bool,
    pub has_conversion: bool,
    pub type_info: TypeInfo,
}

/// The mathematical value of a [`StrongTypeAttributes`].
pub struct AttributesView {
    pub auto_operator_mode: AutoOperatorMode,
    pub has_addable: bool,
    pub has_scalable: bool,
    pub has_custom_display: bool,
    pub has_conversion: bool,
    pub type_info: TypeInfoView,
}

impl View for StrongTypeAttributes {
    type V = AttributesView;

    open spec fn view(&self) -> AttributesView {
        AttributesView {
            auto_operator_mode: self.auto_operator_mode,
            has_addable: self.has_addable,
            has_scalable: self.has_scalable,
            has_custom_display: self.has_custom_display,
            has_conversion: self.has_conversion,
            type_info: self.type_info@,
        }
    }
}

/// Everything the generator knows of a strong type, resolved once.
#[derive(Debug, Clone)]
pub struct TypeMetadata {
    /// The name of the strong type.
    pub name: String,
    /// The type of the wrapped value.
    pub value_type: String,
    /// The primitive the type stands for.
    pub primitive_type: String,
    /// The category of the primitive, with the provenance of the value type.
    pub type_group: ValueTypeGroup,
    /// Which operators are generated, and in which form.
    pub auto_operator_mode: AutoOperatorMode,
    /// Whether `+` and `-` were asked for.
    pub has_addable: bool,
    /// Whether the operators against a bare value were asked for.
    pub has_scalable: bool,
    /// Whether the declaring code supplies its own display formatting.
    pub has_custom_display: bool,
    /// Whether conversions to and from the value type were asked for.
    pub has_conversion: bool,
}

/// The mathematical value of a [`TypeMetadata`].
pub struct MetadataView {
    pub name: Seq<char>,
    pub value_type: Seq<char>,
    pub primitive_type: Seq<char>,
    pub type_group: ValueTypeGroup,
    pub auto_operator_mode: AutoOperatorMode,
    pub has_addable: bool,
    pub has_scalable: bool,
    pub has_custom_display: bool,
    pub has_conversion: bool,
}

impl View for TypeMetadata {
    type V = MetadataView;

    open spec fn view(&self) -> MetadataView {
        MetadataView {
            name: self.name@,
            value_type: self.value_type@,
            primitive_type: self.primitive_type@,
            type_group: self.type_group,
            auto_operator_mode: self.auto_operator_mode,
            has_addable: self.has_addable,
            has_scalable: self.has_scalable,
            has_custom_display: self.has_custom_display,
            has_conversion: self.has_conversion,
        }
    }
}

impl TypeInfoView {
    /// Whether the recorded group, where there is one, is the group of the
    /// recorded primitive, and a type of primitive provenance is its own
    /// primitive.
    pub open spec fn is_consistent(self) -> bool {
        match self.type_group {
            Some(group) => {
                &&& type_group_of(self.primitive_type, group.underlying()) == Some(group)
                &&& group.underlying() == UnderlyingType::Primitive ==> self.value_type
                    == self.primitive_type
            },
            None => true,
        }
    }
}

impl MetadataView {
    /// Whether the primitive type is one of the supported primitives, of the
    /// recorded category, and a type of primitive provenance wraps that
    /// primitive itself.
    pub open spec fn is_resolved(self) -> bool {
        &&& type_group_of(self.primitive_type, self.type_group.underlying()) == Some(
            self.type_group,
        )
        &&& self.type_group.underlying() == UnderlyingType::Primitive ==> self.value_type
            == self.primitive_type
    }
}

/// The settings before any option is read.
pub open spec fn initial_attributes(type_info: TypeInfoView) -> AttributesView {
    AttributesView {
        auto_operator_mode: AutoOperatorMode::Off,
        has_addable: false,
        has_scalable: false,
        has_custom_display: false,
        has_conversion: false,
        type_info,
    }
}

/// The mode that a text value of `auto_operators` selects.
pub open spec fn mode_named(value: Seq<char>) -> Option<AutoOperatorMode> {
    if value == "minimal"@ {
        Some(AutoOperatorMode::Minimal)
    } else if value == "full"@ {
        Some(AutoOperatorMode::Full)
    } else if value == "delegated"@ {
        Some(AutoOperatorMode::Delegated)
    } else {
        None
    }
}

/// The effect of a flag option: `updated` where it stands bare, an error
/// where a value follows it.
pub open spec fn flag_effect(option: OptionDescriptor, updated: AttributesView) -> Result<
    AttributesView,
    ErrorView,
> {
    match option.value {
        OptionValue::Flag => Ok(updated),
        _ => Err(ErrorView::UnexpectedOptionValue { option: option.name@ }),
    }
}

/// The effect of one option on the settings.
///
/// `auto_operators` selects the mode: full where it stands bare, else the
/// mode its text names. `addable`, `scalable`, `custom_display` and
/// `conversion` each raise their flag. `underlying` declares the primitive a
/// wrapped strong type stands for, by the last identifier of a path, which
/// must name a supported primitive. Any other name is an error.
pub open spec fn apply_option(settings: AttributesView, option: OptionDescriptor) -> Result<
    AttributesView,
    ErrorView,
> {
    if option.name@ == "auto_operators"@ {
        match option.value {
            OptionValue::Flag => Ok(
                AttributesView { auto_operator_mode: AutoOperatorMode::Full, ..settings },
            ),
            OptionValue::Text(value) => match mode_named(value@) {
                Some(mode) => Ok(AttributesView { auto_operator_mode: mode, ..settings }),
                None => Err(ErrorView::InvalidAutoOperators { value: value@ }),
            },
            _ => Err(ErrorView::AutoOperatorsNotText),
        }
    } else if option.name@ == "addable"@ {
        flag_effect(option, AttributesView { has_addable: true, ..settings })
    } else if option.name@ == "scalable"@ {
        flag_effect(option, AttributesView { has_scalable: true, ..settings })
    } else if option.name@ == "custom_display"@ {
        flag_effect(option, AttributesView { has_custom_display: true, ..settings })
    } else if option.name@ == "conversion"@ {
        flag_effect(option, AttributesView { has_conversion: true, ..settings })
    } else if option.name@ == "underlying"@ {
        match option.value {
            OptionValue::Flag => Err(ErrorView::UnderlyingWithoutValue),
            OptionValue::Path(segments) => if segments@.len() == 0 {
                Err(ErrorView::UnderlyingEmptyPath)
            } else {
                let primitive = segments@.last()@;
                match type_group_of(primitive, UnderlyingType::Derived) {
                    Some(group) => Ok(
                        AttributesView {
                            type_info: TypeInfoView {
                                primitive_type: primitive,
                                value_type: settings.type_info.value_type,
                                type_group: Some(group),
                            },
                            ..settings
                        },
                    ),
                    None => Err(ErrorView::UnsupportedUnderlying { primitive }),
                }
            },
            _ => Err(ErrorView::UnderlyingNotPath),
        }
    } else {
        Err(ErrorView::UnknownOption { option: option.name@ })
    }
}

/// The effect of the options, read in order, on the settings. The first
/// option in error ends the reading with its error.
pub open spec fn apply_options(settings: AttributesView, options: Seq<OptionDescriptor>) -> Result<
    AttributesView,
    ErrorView,
>
    decreases options.len(),
{
    if options.len() == 0 {
        Ok(settings)
    } else {
        match apply_options(settings, options.drop_last()) {
            Ok(merged) => apply_option(merged, options.last()),
            Err(error) => Err(error),
        }
    }
}

/// The settings of a declaration: what its field tells, then its options.
pub open spec fn attributes_of(input: &DeclarationDescriptor) -> Result<AttributesView, ErrorView> {
    match type_info_of(input) {
        Ok(type_info) => apply_options(initial_attributes(type_info), input.options@),
        Err(error) => Err(error),
    }
}

/// The metadata of a declaration: its settings, provided they name a
/// primitive for the wrapped type.
pub open spec fn metadata_of(input: &DeclarationDescriptor) -> Result<MetadataView, ErrorView> {
    match attributes_of(input) {
        Ok(attributes) => match attributes.type_info.type_group {
            Some(type_group) => Ok(
                MetadataView {
                    name: input.name@,
                    value_type: attributes.type_info.value_type,
                    primitive_type: attributes.type_info.primitive_type,
                    type_group,
                    auto_operator_mode: attributes.auto_operator_mode,
                    has_addable: attributes.has_addable,
                    has_scalable: attributes.has_scalable,
                    has_custom_display: attributes.has_custom_display,
                    has_conversion: attributes.has_conversion,
                },
            ),
            None => Err(ErrorView::UnknownPrimitive { value_type: attributes.type_info.value_type }),
        },
        Err(error) => Err(error),
    }
}

/// Once an option is in error, the options behind it are not read.
pub proof fn lemma_first_error_stands(
    settings: AttributesView,
    options: Seq<OptionDescriptor>,
    n: int,
)
    requires
        0 <= n <= options.len(),
        apply_options(settings, options.take(n)).is_err(),
    ensures
        apply_options(settings, options) == apply_options(settings, options.take(n)),
    decreases options.len() - n,
{
    if n < options.len() {
        assert(options.take(n + 1).drop_last() =~= options.take(n));
        lemma_first_error_stands(settings, options, n + 1);
    } else {
        assert(options.take(n) =~= options);
    }
}

/// Options keep what is known of the wrapped type consistent, and never
/// change the value type.
pub proof fn lemma_options_keep_type_info_consistent(
    settings: AttributesView,
    options: Seq<OptionDescriptor>,
)
    requires
        settings.type_info.is_consistent(),
    ensures
        match apply_options(settings, options) {
            Ok(merged) => merged.type_info.is_consistent() && merged.type_info.value_type
                == settings.type_info.value_type,
            Err(_) => true,
        },
    decreases options.len(),
{
    if options.len() > 0 {
        lemma_options_keep_type_info_consistent(settings, options.drop_last());
    }
}

/// Metadata that resolves is resolved: its primitive type is a supported
/// primitive of the recorded category, never another strong type.
pub proof fn lemma_metadata_is_resolved(input: &DeclarationDescriptor)
    ensures
        match metadata_of(input) {
            Ok(metadata) => metadata.is_resolved() && metadata.name == input.name@,
            Err(_) => true,
        },
{
    match type_info_of(input) {
        Ok(type_info) => {
            lemma_options_keep_type_info_consistent(
                initial_attributes(type_info),
                input.options@,
            );
        },
        Err(_) => {},
    }
}

/// Reading options never fails with the error that only the lexer gives
/// rise to.
pub proof fn lemma_options_are_no_lexing(settings: AttributesView, options: Seq<OptionDescriptor>)
    ensures
        apply_options(settings, options) matches Err(error) ==> error
            != ErrorView::UnlexableCode,
    decreases options.len(),
{
    if options.len() > 0 {
        lemma_options_are_no_lexing(settings, options.drop_last());
    }
}

/// Resolving metadata never fails with the error that only the lexer gives
/// rise to.
pub proof fn lemma_resolution_is_no_lexing(input: &DeclarationDescriptor)
    ensures
        metadata_of(input) matches Err(error) ==> error != ErrorView::UnlexableCode,
{
    match type_info_of(input) {
        Ok(type_info) => {
            lemma_options_are_no_lexing(initial_attributes(type_info), input.options@);
        },
        Err(_) => {},
    }
}

impl TypeInfoView {
    /// Whether the wrapped type is known to be a strong type itself.
    pub open spec fn is_derived(self) -> bool {
        match self.type_group {
            Some(group) => group.underlying() == UnderlyingType::Derived,
            None => false,
        }
    }
}

/// Whether one of the options is `underlying`.
pub open spec fn names_underlying(options: Seq<OptionDescriptor>) -> bool {
    exists|i: int| 0 <= i < options.len() && (#[trigger] options[i]).name@ == "underlying"@
}

/// `underlying` is the name of no other option.
proof fn lemma_underlying_is_its_own_name()
    ensures
        "underlying"@ != "auto_operators"@,
        "underlying"@ != "addable"@,
        "underlying"@ != "scalable"@,
        "underlying"@ != "custom_display"@,
        "underlying"@ != "conversion"@,
{
    reveal_strlit("underlying");
    reveal_strlit("auto_operators");
    reveal_strlit("addable");
    reveal_strlit("scalable");
    reveal_strlit("custom_display");
    reveal_strlit("conversion");
    assert("underlying"@[0] == 'u');
    assert("auto_operators"@[0] == 'a');
    assert("addable"@[0] == 'a');
    assert("scalable"@[0] == 's');
    assert("custom_display"@[0] == 'c');
    assert("conversion"@[0] == 'c');
}

/// Only `underlying` makes a type derived, and it always does.
pub proof fn lemma_options_derive_by_underlying(
    settings: AttributesView,
    options: Seq<OptionDescriptor>,
)
    ensures
        match apply_options(settings, options) {
            Ok(merged) => merged.type_info.is_derived() == (settings.type_info.is_derived()
                || names_underlying(options)),
            Err(_) => true,
        },
    decreases options.len(),
{
    if options.len() > 0 {
        let front = options.drop_last();
        let last = options.last();
        lemma_options_derive_by_underlying(settings, front);
        lemma_underlying_is_its_own_name();
        if names_underlying(front) {
            let i = choose|i: int| 0 <= i < front.len() && (#[trigger] front[i]).name@
                == "underlying"@;
            assert(options[i] == front[i]);
        }
        if names_underlying(options) && last.name@ != "underlying"@ {
            let i = choose|i: int| 0 <= i < options.len() && (#[trigger] options[i]).name@
                == "underlying"@;
            assert(front[i] == options[i]);
        }
        if last.name@ == "underlying"@ {
            assert(options[options.len() - 1] == last);
        }
    } else {
        assert(!names_underlying(options));
    }
}

/// Provenance follows the options: a type whose metadata resolves is of
/// derived provenance exactly where `underlying` names its primitive.
pub proof fn law_provenance_follows_underlying(input: &DeclarationDescriptor)
    ensures
        match metadata_of(input) {
            Ok(metadata) => (metadata.type_group.underlying() == UnderlyingType::Derived)
                == names_underlying(input.options@),
            Err(_) => true,
        },
{
    match type_info_of(input) {
        Ok(type_info) => {
            lemma_options_derive_by_underlying(initial_attributes(type_info), input.options@);
        },
        Err(_) => {},
    }
}

/// Raises a flag for a bare option.
fn set_flag(option: &OptionDescriptor, flag: &mut bool) -> (outcome: Result<(), StrongTypeError>)
    ensures
        match outcome {
            Ok(_) => option.value is Flag && *final(flag),
            Err(error) => !(option.value is Flag) && *final(flag) == *old(flag) && error@
                == (ErrorView::UnexpectedOptionValue { option: option.name@ }),
        },
{
    match &option.value {
        OptionValue::Flag => {
            *flag = true;
            Ok(())
        },
        _ => Err(StrongTypeError::UnexpectedOptionValue { option: option.name.clone() }),
    }
}

/// Applies one option to the settings.
fn read_option(attributes: &mut StrongTypeAttributes, option: &OptionDescriptor) -> (outcome: Result<
    (),
    StrongTypeError,
>)
    ensures
        match outcome {
            Ok(_) => apply_option(old(attributes)@, *option) == Ok::<AttributesView, ErrorView>(
                final(attributes)@,
            ),
            Err(error) => apply_option(old(attributes)@, *option) == Err::<
                AttributesView,
                ErrorView,
            >(error@),
        },
{
    let name = option.name.as_str();
    if str_eq(name, "auto_operators") {
        match &option.value {
            OptionValue::Flag => {
                attributes.auto_operator_mode = AutoOperatorMode::Full;
                Ok(())
            },
            OptionValue::Text(value) => {
                if str_eq(value.as_str(), "minimal") {
                    attributes.auto_operator_mode = AutoOperatorMode::Minimal;
                    Ok(())
                } else if str_eq(value.as_str(), "full") {
                    attributes.auto_operator_mode = AutoOperatorMode::Full;
                    Ok(())
                } else if str_eq(value.as_str(), "delegated") {
                    attributes.auto_operator_mode = AutoOperatorMode::Delegated;
                    Ok(())
                } else {
                    Err(StrongTypeError::InvalidAutoOperators { value: value.clone() })
                }
            },
            _ => Err(StrongTypeError::AutoOperatorsNotText),
        }
    } else if str_eq(name, "addable") {
        set_flag(option, &mut attributes.has_addable)
    } else if str_eq(name, "scalable") {
        set_flag(option, &mut attributes.has_scalable)
    } else if str_eq(name, "custom_display") {
        set_flag(option, &mut attributes.has_custom_display)
    } else if str_eq(name, "conversion") {
        set_flag(option, &mut attributes.has_conversion)
    } else if str_eq(name, "underlying") {
        match &option.value {
            OptionValue::Flag => Err(StrongTypeError::UnderlyingWithoutValue),
            OptionValue::Path(segments) => {
                if segments.len() == 0 {
                    return Err(StrongTypeError::UnderlyingEmptyPath);
                }
                let primitive = segments[segments.len() - 1].clone();
                match get_type_group(primitive.as_str(), UnderlyingType::Derived) {
                    Some(group) => {
                        attributes.type_info.type_group = Some(group);
                        attributes.type_info.primitive_type = primitive;
                        Ok(())
                    },
                    None => Err(StrongTypeError::UnsupportedUnderlying { primitive }),
                }
            },
            _ => Err(StrongTypeError::UnderlyingNotPath),
        }
    } else {
        Err(StrongTypeError::UnknownOption { option: option.name.clone() })
    }
}

/// Reads the settings of a declaration: the wrapped type off its field, then
/// its options in order.
pub fn get_attributes(input: &DeclarationDescriptor) -> (outcome: Result<
    StrongTypeAttributes,
    StrongTypeError,
>)
    ensures
        match outcome {
            Ok(attributes) => attributes_of(input) == Ok::<AttributesView, ErrorView>(attributes@),
            Err(error) => attributes_of(input) == Err::<AttributesView, ErrorView>(error@),
        },
{
    let type_info = match get_type(input) {
        Ok(type_info) => type_info,
        Err(error) => {
            return Err(error);
        },
    };
    let ghost initial = initial_attributes(type_info@);
    let mut attributes = StrongTypeAttributes {
        auto_operator_mode: AutoOperatorMode::Off,
        has_custom_display: false,
        has_conversion: false,
        has_addable: false,
        has_scalable: false,
        type_info,
    };
    let mut i: usize = 0;
    while i < input.options.len()
        invariant
            i <= input.options.len(),
            attributes_of(input) == apply_options(initial, input.options@),
            apply_options(initial, input.options@.take(i as int)) == Ok::<
                AttributesView,
                ErrorView,
            >(attributes@),
        decreases input.options.len() - i,
    {
        proof {
            assert(input.options@.take(i + 1).drop_last() =~= input.options@.take(i as int));
            assert(input.options@.take(i + 1).last() == input.options@[i as int]);
        }
        match read_option(&mut attributes, &input.options[i]) {
            Ok(_) => {},
            Err(error) => {
                proof {
                    lemma_first_error_stands(initial, input.options@, i + 1);
                }
                return Err(error);
            },
        }
        i += 1;
    }
    proof {
        assert(input.options@.take(i as int) =~= input.options@);
    }
    Ok(attributes)
}

impl TypeMetadata {
    /// Resolves the metadata of a declaration.
    ///
    /// Fails where the field names no value type, where an option is in
    /// error, and where the value type is no supported primitive while no
    /// `underlying` option names the primitive it stands for.
    pub fn new(input: &DeclarationDescriptor) -> (outcome: Result<TypeMetadata, StrongTypeError>)
        ensures
            match outcome {
                Ok(metadata) => metadata_of(input) == Ok::<MetadataView, ErrorView>(metadata@)
                    && metadata@.is_resolved(),
                Err(error) => metadata_of(input) == Err::<MetadataView, ErrorView>(error@),
            },
    {
        proof {
            lemma_metadata_is_resolved(input);
        }
        let attributes = match get_attributes(input) {
            Ok(attributes) => attributes,
            Err(error) => {
                return Err(error);
            },
        };
        match attributes.type_info.type_group {
            Some(type_group) => Ok(
                TypeMetadata {
                    name: input.name.clone(),
                    value_type: attributes.type_info.value_type,
                    primitive_type: attributes.type_info.primitive_type,
                    type_group,
                    auto_operator_mode: attributes.auto_operator_mode,
                    has_addable: attributes.has_addable,
                    has_scalable: attributes.has_scalable,
                    has_custom_display: attributes.has_custom_display,
                    has_conversion: attributes.has_conversion,
                },
            ),
            None => Err(
                StrongTypeError::UnknownPrimitive { value_type: attributes.type_info.value_type },
            ),
        }
    }
}

} // verus!
