//! The declaration a strong type is generated from.
//!
//! A [`DeclarationDescriptor`] holds, as plain values, what the generator
//! reads of a type declaration: its name, its shape, the types of its fields
//! and the options attached to it.

use vstd::prelude::*;
use crate::error::{ErrorView, StrongTypeError};
use crate::underlying_type_utils::{get_type_group, type_group_of, UnderlyingType, ValueTypeGroup};

verus! {

/// The kind of item a declaration is.
#[derive(Debug, Clone, Copy, PartialEq, Eq)]
pub enum DeclarationShape {
    /// A struct with unnamed fields: `struct Meter(i32);`.
    TupleStruct,
    /// A struct with named fields.
    NamedStruct,
    /// A struct without fields.
    UnitStruct,
    /// An enum.
    Enum,
    /// A union.
    Union,
}

/// The type of a field.
#[derive(Debug, Clone)]
pub enum FieldType {
    /// A path such as `i32` or `core::primitive::i32`, by the identifiers of
    /// its segments.
    Path(Vec<String>),
    /// Any other type: a reference, a tuple, an array.
    Other,
}

/// The value an option was given.
#[derive(Debug, Clone)]
pub enum OptionValue {
    /// None: the option is a bare flag.
    Flag,
    /// A text literal, without its quotes.
    Text(String),
    /// A path, by the identifiers of its segments.
    Path(Vec<String>),
    /// Anything else.
    Other,
}

/// One option attached to a declaration.
#[derive(Debug, Clone)]
pub struct OptionDescriptor {
    pub name: String,
    pub value: OptionValue,
}

/// A type declaration, as the generator sees it.
#[derive(Debug, Clone)]
pub struct DeclarationDescriptor {
    /// The name of the declared type.
    pub name: String,
    /// The kind of item declared.
    pub shape: DeclarationShape,
    /// The types of the fields, in order.
    pub fields: Vec<FieldType>,
    /// The options, in the order they were written.
    pub options: Vec<OptionDescriptor>,
}

/// What is known of the wrapped type from the declared field alone.
#[derive(Debug, Clone)]
pub struct TypeInfo {
    /// The primitive the type stands for.
    pub primitive_type: String,
    /// The type of the wrapped value.
    pub value_type: String,
    /// The group of the primitive, where the value type is a primitive.
    pub type_group: Option<ValueTypeGroup>,
}

/// The mathematical value of a [`TypeInfo`].
pub struct TypeInfoView {
    pub primitive_type: Seq<char>,
    pub value_type: Seq<char>,
    pub type_group: Option<ValueTypeGroup>,
}

impl View for TypeInfo {
    type V = TypeInfoView;

    open spec fn view(&self) -> TypeInfoView {
        TypeInfoView {
            primitive_type: self.primitive_type@,
            value_type: self.value_type@,
            type_group: self.type_group,
        }
    }
}

/// Whether the declaration has the one shape a strong type can have: a
/// tuple struct with exactly one field.
pub open spec fn is_single_field_tuple_struct(input: &DeclarationDescriptor) -> bool {
    input.shape == DeclarationShape::TupleStruct && input.fields@.len() == 1
}

/// Checks the shape of a declaration.
pub fn validate_struct(input: &DeclarationDescriptor) -> (outcome: Result<(), StrongTypeError>)
    ensures
        outcome.is_ok() <==> is_single_field_tuple_struct(input),
        outcome matches Err(error) ==> error@ == ErrorView::NotSingleFieldTupleStruct,
{
    match input.shape {
        DeclarationShape::TupleStruct => {
            if input.fields.len() == 1 {
                return Ok(());
            }
        },
        _ => {},
    }
    Err(StrongTypeError::NotSingleFieldTupleStruct)
}

/// The name of the type of the first field: the last identifier of its
/// path. `None` where there is no field or its type is not a path.
pub open spec fn value_type_of(input: &DeclarationDescriptor) -> Option<Seq<char>> {
    if input.fields@.len() == 0 {
        None
    } else {
        match input.fields@[0] {
            FieldType::Path(segments) => if segments@.len() == 0 {
                None
            } else {
                Some(segments@.last()@)
            },
            FieldType::Other => None,
        }
    }
}

/// Finds the name of the type of the first field.
pub fn get_type_ident(input: &DeclarationDescriptor) -> (ident: Option<String>)
    ensures
        match ident {
            Some(name) => value_type_of(input) == Some(name@),
            None => value_type_of(input).is_none(),
        },
{
    if input.fields.len() == 0 {
        return None;
    }
    match &input.fields[0] {
        FieldType::Path(segments) => {
            if segments.len() == 0 {
                None
            } else {
                Some(segments[segments.len() - 1].clone())
            }
        },
        FieldType::Other => None,
    }
}

/// What the declared field alone tells of the wrapped type: the value type
/// is its own primitive, classified as a primitive where its name is one.
pub open spec fn type_info_of(input: &DeclarationDescriptor) -> Result<TypeInfoView, ErrorView> {
    match value_type_of(input) {
        Some(value_type) => Ok(
            TypeInfoView {
                primitive_type: value_type,
                value_type,
                type_group: type_group_of(value_type, UnderlyingType::Primitive),
            },
        ),
        None => Err(ErrorView::UnsupportedFieldType),
    }
}

/// Reads the wrapped type off the declared field.
pub fn get_type(input: &DeclarationDescriptor) -> (outcome: Result<TypeInfo, StrongTypeError>)
    ensures
        match outcome {
            Ok(info) => type_info_of(input) == Ok::<TypeInfoView, ErrorView>(info@),
            Err(error) => type_info_of(input) == Err::<TypeInfoView, ErrorView>(error@),
        },
{
    match get_type_ident(input) {
        Some(value_type) => {
            let type_group = get_type_group(value_type.as_str(), UnderlyingType::Primitive);
            Ok(TypeInfo { primitive_type: value_type.clone(), value_type, type_group })
        },
        None => Err(StrongTypeError::UnsupportedFieldType),
    }
}

} // verus!
