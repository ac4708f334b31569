//! The ways in which generating a strong type can fail.

use vstd::prelude::*;
use vstd::string::StringExecFns;

verus! {

/// The primitive types a strong type can stand for, as error messages list
/// them.
pub const SUPPORTED_PRIMITIVES: &'static str =
    "i8, i16, i32, i64, i128, isize, u8, u16, u32, u64, u128, usize, f32, f64, bool, char, String";

/// Why no code was generated for a declaration.
#[derive(Debug, Clone)]
pub enum StrongTypeError {
    /// The declaration is not a tuple struct with exactly one field.
    NotSingleFieldTupleStruct,
    /// The field's type is not a path, so it names no value type.
    UnsupportedFieldType,
    /// The value type is no supported primitive and no `underlying` option
    /// says which primitive it stands for.
    UnknownPrimitive { value_type: String },
    /// `auto_operators` has a text value other than the three modes.
    InvalidAutoOperators { value: String },
    /// `auto_operators` has a value that is not a text literal.
    AutoOperatorsNotText,
    /// A flag option was given a value.
    UnexpectedOptionValue { option: String },
    /// `underlying` was given without a value.
    UnderlyingWithoutValue,
    /// The value of `underlying` is not a path.
    UnderlyingNotPath,
    /// The value of `underlying` is a path without segments.
    UnderlyingEmptyPath,
    /// The value of `underlying` names no supported primitive.
    UnsupportedUnderlying { primitive: String },
    /// The option is not one the generator knows.
    UnknownOption { option: String },
    /// The generated source text is not a sequence of Rust tokens.
    UnlexableCode,
}

/// The mathematical value of a [`StrongTypeError`].
pub enum ErrorView {
    NotSingleFieldTupleStruct,
    UnsupportedFieldType,
    UnknownPrimitive { value_type: Seq<char> },
    InvalidAutoOperators { value: Seq<char> },
    AutoOperatorsNotText,
    UnexpectedOptionValue { option: Seq<char> },
    UnderlyingWithoutValue,
    UnderlyingNotPath,
    UnderlyingEmptyPath,
    UnsupportedUnderlying { primitive: Seq<char> },
    UnknownOption { option: Seq<char> },
    UnlexableCode,
}

impl View for StrongTypeError {
    type V = ErrorView;

    open spec fn view(&self) -> ErrorView {
        match self {
            StrongTypeError::NotSingleFieldTupleStruct => ErrorView::NotSingleFieldTupleStruct,
            StrongTypeError::UnsupportedFieldType => ErrorView::UnsupportedFieldType,
            StrongTypeError::UnknownPrimitive { value_type } => ErrorView::UnknownPrimitive {
                value_type: value_type@,
            },
            StrongTypeError::InvalidAutoOperators { value } => ErrorView::InvalidAutoOperators {
                value: value@,
            },
            StrongTypeError::AutoOperatorsNotText => ErrorView::AutoOperatorsNotText,
            StrongTypeError::UnexpectedOptionValue { option } => ErrorView::UnexpectedOptionValue {
                option: option@,
            },
            StrongTypeError::UnderlyingWithoutValue => ErrorView::UnderlyingWithoutValue,
            StrongTypeError::UnderlyingNotPath => ErrorView::UnderlyingNotPath,
            StrongTypeError::UnderlyingEmptyPath => ErrorView::UnderlyingEmptyPath,
            StrongTypeError::UnsupportedUnderlying { primitive } => ErrorView::UnsupportedUnderlying {
                primitive: primitive@,
            },
            StrongTypeError::UnknownOption { option } => ErrorView::UnknownOption {
                option: option@,
            },
            StrongTypeError::UnlexableCode => ErrorView::UnlexableCode,
        }
    }
}

/// The message that reports an error: it names the offending token and the
/// valid alternatives.
pub open spec fn message_text(error: ErrorView) -> Seq<char> {
    match error {
        ErrorView::NotSingleFieldTupleStruct =>
            "StrongType can only be derived for tuple structs with exactly one field. Example: struct MyType(i32);"@,
        ErrorView::UnsupportedFieldType => "Unable to find underlying value type"@,
        ErrorView::UnknownPrimitive { value_type } => "Unable to determine the primitive type of '"@
            + value_type + "'. Supported types are: "@ + SUPPORTED_PRIMITIVES@,
        ErrorView::InvalidAutoOperators { value } => "Invalid auto_operators value '"@ + value
            + "'. Valid values are: 'minimal', 'full', 'delegated'"@,
        ErrorView::AutoOperatorsNotText =>
            "Invalid auto_operators value: expected a string literal. Valid values are: 'minimal', 'full', 'delegated'"@,
        ErrorView::UnexpectedOptionValue { option } => "Unexpected value for strong_type attribute '"@
            + option + "': it takes none"@,
        ErrorView::UnderlyingWithoutValue =>
            "Expected syntax like #[strong_type(underlying = i32)]."@,
        ErrorView::UnderlyingNotPath =>
            "Failed to parse underlying path. Use primitives such as i32 or core::primitive::i32."@,
        ErrorView::UnderlyingEmptyPath => "underlying attribute must reference a primitive type."@,
        ErrorView::UnsupportedUnderlying { primitive } => "Unsupported underlying primitive '"@
            + primitive + "'. Supported primitives are: "@ + SUPPORTED_PRIMITIVES@,
        ErrorView::UnknownOption { option } => "Unknown strong_type attribute '"@ + option
            + "'. Valid attributes are: auto_operators, addable, scalable, custom_display, conversion, underlying=<type>"@,
        ErrorView::UnlexableCode => "The generated code is not a sequence of Rust tokens"@,
    }
}

impl StrongTypeError {
    /// The message that reports this error.
    pub fn message(&self) -> (text: String)
        ensures
            text@ == message_text(self@),
    {
        match self {
            StrongTypeError::NotSingleFieldTupleStruct => String::from_str(
                "StrongType can only be derived for tuple structs with exactly one field. Example: struct MyType(i32);",
            ),
            StrongTypeError::UnsupportedFieldType => String::from_str(
                "Unable to find underlying value type",
            ),
            StrongTypeError::UnknownPrimitive { value_type } => {
                let mut text = String::from_str("Unable to determine the primitive type of '");
                text.append(value_type.as_str());
                text.append("'. Supported types are: ");
                text.append(SUPPORTED_PRIMITIVES);
                text
            },
            StrongTypeError::InvalidAutoOperators { value } => {
                let mut text = String::from_str("Invalid auto_operators value '");
                text.append(value.as_str());
                text.append("'. Valid values are: 'minimal', 'full', 'delegated'");
                text
            },
            StrongTypeError::AutoOperatorsNotText => String::from_str(
                "Invalid auto_operators value: expected a string literal. Valid values are: 'minimal', 'full', 'delegated'",
            ),
            StrongTypeError::UnexpectedOptionValue { option } => {
                let mut text = String::from_str("Unexpected value for strong_type attribute '");
                text.append(option.as_str());
                text.append("': it takes none");
                text
            },
            StrongTypeError::UnderlyingWithoutValue => String::from_str(
                "Expected syntax like #[strong_type(underlying = i32)].",
            ),
            StrongTypeError::UnderlyingNotPath => String::from_str(
                "Failed to parse underlying path. Use primitives such as i32 or core::primitive::i32.",
            ),
            StrongTypeError::UnderlyingEmptyPath => String::from_str(
                "underlying attribute must reference a primitive type.",
            ),
            StrongTypeError::UnsupportedUnderlying { primitive } => {
                let mut text = String::from_str("Unsupported underlying primitive '");
                text.append(primitive.as_str());
                text.append("'. Supported primitives are: ");
                text.append(SUPPORTED_PRIMITIVES);
                text
            },
            StrongTypeError::UnknownOption { option } => {
                let mut text = String::from_str("Unknown strong_type attribute '");
                text.append(option.as_str());
                text.append(
                    "'. Valid attributes are: auto_operators, addable, scalable, custom_display, conversion, underlying=<type>",
                );
                text
            },
            StrongTypeError::UnlexableCode => String::from_str(
                "The generated code is not a sequence of Rust tokens",
            ),
        }
    }
}

} // verus!
