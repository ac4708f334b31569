//! The source text of the supporting items a strong type receives besides
//! its operators: accessors, formatting, conversions, ordering, hashing and
//! constants.
//!
//! Each item is a fixed text in which the names of the strong type, of its
//! value type and of its primitive type are filled in.

use vstd::prelude::*;
use vstd::string::StringExecFns;
use proc_macro2::TokenStream;
use crate::error::StrongTypeError;
use crate::lexing::{is_lexing_of, tokenize};

verus! {

/// The source text of the basic accessors of a strong type: its constructor
/// and the access to the wrapped value, the link to its underlying and
/// primitive types, debug formatting, default construction and equality by
/// the wrapped values.
pub open spec fn basic_text(
    name: Seq<char>,
    value_type: Seq<char>,
    primitive_type: Seq<char>,
) -> Seq<char> {
    "impl "@
        + name
        + " { pub fn new(value: impl Into<"@
        + value_type
        + ">) -> Self { Self(value.into()) } pub fn into_inner(self) -> "@
        + value_type
        + " { self.0 } pub fn as_ref(&self) -> &"@
        + value_type
        + " { &self.0 } pub fn as_mut(&mut self) -> &mut "@
        + value_type
        + " { &mut self.0 } } impl ::strong_type::StrongType for "@
        + name
        + " { type UnderlyingType = "@
        + value_type
        + "; type PrimitiveType = "@
        + primitive_type
        + "; } impl std::fmt::Debug for "@
        + name
        + " { fn fmt(&self, f: &mut std::fmt::Formatter) -> std::fmt::Result { f.debug_struct(stringify!("@
        + name
        + ")).field(\"value\", &self.0).finish() } } impl std::default::Default for "@
        + name
        + " where "@
        + value_type
        + ": std::default::Default, { fn default() -> Self { Self::new("@
        + value_type
        + "::default()) } } impl std::cmp::PartialEq for "@
        + name
        + " { fn eq(&self, rhs: &Self) -> bool { self.value() == rhs.value() } } impl std::convert::AsRef<"@
        + value_type
        + "> for "@
        + name
        + " { fn as_ref(&self) -> &"@
        + value_type
        + " { "@
        + name
        + "::as_ref(self) } } impl std::convert::AsMut<"@
        + value_type
        + "> for "@
        + name
        + " { fn as_mut(&mut self) -> &mut "@
        + value_type
        + " { "@
        + name
        + "::as_mut(self) } }\n"@
}

/// Writes the basic accessors of a strong type: its constructor and the
/// access to the wrapped value, the link to its underlying and primitive
/// types, debug formatting, default construction and equality by the wrapped
/// values.
pub fn render_basic(name: &str, value_type: &str, primitive_type: &str) -> (text: String)
    ensures
        text@ == basic_text(name@, value_type@, primitive_type@),
{
    let mut text = String::from_str("impl ");
    text.append(name);
    text.append(" { pub fn new(value: impl Into<");
    text.append(value_type);
    text.append(">) -> Self { Self(value.into()) } pub fn into_inner(self) -> ");
    text.append(value_type);
    text.append(" { self.0 } pub fn as_ref(&self) -> &");
    text.append(value_type);
    text.append(" { &self.0 } pub fn as_mut(&mut self) -> &mut ");
    text.append(value_type);
    text.append(" { &mut self.0 } } impl ::strong_type::StrongType for ");
    text.append(name);
    text.append(" { type UnderlyingType = ");
    text.append(value_type);
    text.append("; type PrimitiveType = ");
    text.append(primitive_type);
    text.append("; } impl std::fmt::Debug for ");
    text.append(name);
    text.append(" { fn fmt(&self, f: &mut std::fmt::Formatter) -> std::fmt::Result { f.debug_struct(stringify!(");
    text.append(name);
    text.append(")).field(\"value\", &self.0).finish() } } impl std::default::Default for ");
    text.append(name);
    text.append(" where ");
    text.append(value_type);
    text.append(": std::default::Default, { fn default() -> Self { Self::new(");
    text.append(value_type);
    text.append("::default()) } } impl std::cmp::PartialEq for ");
    text.append(name);
    text.append(" { fn eq(&self, rhs: &Self) -> bool { self.value() == rhs.value() } } impl std::convert::AsRef<");
    text.append(value_type);
    text.append("> for ");
    text.append(name);
    text.append(" { fn as_ref(&self) -> &");
    text.append(value_type);
    text.append(" { ");
    text.append(name);
    text.append("::as_ref(self) } } impl std::convert::AsMut<");
    text.append(value_type);
    text.append("> for ");
    text.append(name);
    text.append(" { fn as_mut(&mut self) -> &mut ");
    text.append(value_type);
    text.append(" { ");
    text.append(name);
    text.append("::as_mut(self) } }\n");
    text
}

/// Generates the basic accessors of a strong type: its constructor and the
/// access to the wrapped value, the link to its underlying and primitive
/// types, debug formatting, default construction and equality by the wrapped
/// values.
pub fn implement_basic(
    name: &str,
    value_type: &str,
    primitive_type: &str,
) -> (outcome: Result<TokenStream, StrongTypeError>)
    ensures
        is_lexing_of(outcome, basic_text(name@, value_type@, primitive_type@)),
{
    let text = render_basic(name, value_type, primitive_type);
    tokenize(text.as_str())
}

/// The source text of display formatting: the type's name, then the wrapped
/// value in parentheses.
pub open spec fn display_text(name: Seq<char>) -> Seq<char> {
    "impl std::fmt::Display for "@
        + name
        + " { fn fmt(&self, f: &mut std::fmt::Formatter) -> std::fmt::Result { write!(f, \"{}({})\", stringify!("@
        + name
        + "), &self.0) } }\n"@
}

/// Writes display formatting: the type's name, then the wrapped value in
/// parentheses.
pub fn render_display(name: &str) -> (text: String)
    ensures
        text@ == display_text(name@),
{
    let mut text = String::from_str("impl std::fmt::Display for ");
    text.append(name);
    text.append(" { fn fmt(&self, f: &mut std::fmt::Formatter) -> std::fmt::Result { write!(f, \"{}({})\", stringify!(");
    text.append(name);
    text.append("), &self.0) } }\n");
    text
}

/// Generates display formatting: the type's name, then the wrapped value in
/// parentheses.
pub fn implement_display(name: &str) -> (outcome: Result<TokenStream, StrongTypeError>)
    ensures
        is_lexing_of(outcome, display_text(name@)),
{
    let text = render_display(name);
    tokenize(text.as_str())
}

/// The source text of the conversions between a strong type and its value
/// type, by value and by reference.
pub open spec fn conversion_text(name: Seq<char>, value_type: Seq<char>) -> Seq<char> {
    "impl From<"@
        + value_type
        + "> for "@
        + name
        + " { fn from(value: "@
        + value_type
        + ") -> Self { Self::new(value) } } impl From<"@
        + name
        + "> for "@
        + value_type
        + " { fn from(value: "@
        + name
        + ") -> "@
        + value_type
        + " { value.0 } } impl<'a> From<&'a "@
        + value_type
        + "> for "@
        + name
        + " where "@
        + value_type
        + ": Clone, { fn from(value: &'a "@
        + value_type
        + ") -> Self { Self::new(value.clone()) } } impl<'a> From<&'a "@
        + name
        + "> for &'a "@
        + value_type
        + " { fn from(value: &'a "@
        + name
        + ") -> Self { value.as_ref() } } impl<'a> From<&'a mut "@
        + name
        + "> for &'a mut "@
        + value_type
        + " { fn from(value: &'a mut "@
        + name
        + ") -> Self { value.as_mut() } }\n"@
}

/// Writes the conversions between a strong type and its value type, by value
/// and by reference.
pub fn render_conversion(name: &str, value_type: &str) -> (text: String)
    ensures
        text@ == conversion_text(name@, value_type@),
{
    let mut text = String::from_str("impl From<");
    text.append(value_type);
    text.append("> for ");
    text.append(name);
    text.append(" { fn from(value: ");
    text.append(value_type);
    text.append(") -> Self { Self::new(value) } } impl From<");
    text.append(name);
    text.append("> for ");
    text.append(value_type);
    text.append(" { fn from(value: ");
    text.append(name);
    text.append(") -> ");
    text.append(value_type);
    text.append(" { value.0 } } impl<'a> From<&'a ");
    text.append(value_type);
    text.append("> for ");
    text.append(name);
    text.append(" where ");
    text.append(value_type);
    text.append(": Clone, { fn from(value: &'a ");
    text.append(value_type);
    text.append(") -> Self { Self::new(value.clone()) } } impl<'a> From<&'a ");
    text.append(name);
    text.append("> for &'a ");
    text.append(value_type);
    text.append(" { fn from(value: &'a ");
    text.append(name);
    text.append(") -> Self { value.as_ref() } } impl<'a> From<&'a mut ");
    text.append(name);
    text.append("> for &'a mut ");
    text.append(value_type);
    text.append(" { fn from(value: &'a mut ");
    text.append(name);
    text.append(") -> Self { value.as_mut() } }\n");
    text
}

/// Generates the conversions between a strong type and its value type, by
/// value and by reference.
pub fn implement_conversion(
    name: &str,
    value_type: &str,
) -> (outcome: Result<TokenStream, StrongTypeError>)
    ensures
        is_lexing_of(outcome, conversion_text(name@, value_type@)),
{
    let text = render_conversion(name, value_type);
    tokenize(text.as_str())
}

/// The source text of the construction of a text type from borrowed text.
pub open spec fn str_conversion_text(name: Seq<char>) -> Seq<char> {
    "impl From<&str> for "@
        + name
        + " { fn from(value: &str) -> Self { Self::new(value) } }\n"@
}

/// Writes the construction of a text type from borrowed text.
pub fn render_str_conversion(name: &str) -> (text: String)
    ensures
        text@ == str_conversion_text(name@),
{
    let mut text = String::from_str("impl From<&str> for ");
    text.append(name);
    text.append(" { fn from(value: &str) -> Self { Self::new(value) } }\n");
    text
}

/// Generates the construction of a text type from borrowed text.
pub fn implement_str_conversion(name: &str) -> (outcome: Result<TokenStream, StrongTypeError>)
    ensures
        is_lexing_of(outcome, str_conversion_text(name@)),
{
    let text = render_str_conversion(name);
    tokenize(text.as_str())
}

/// The source text of the primitive accessor of a type that wraps a
/// primitive: it hands out the wrapped value.
pub open spec fn primitive_accessor_text(name: Seq<char>, primitive_type: Seq<char>) -> Seq<char> {
    "impl "@
        + name
        + " { pub fn primitive(&self) -> "@
        + primitive_type
        + " { self.value() } }\n"@
}

/// Writes the primitive accessor of a type that wraps a primitive: it hands
/// out the wrapped value.
pub fn render_primitive_accessor(name: &str, primitive_type: &str) -> (text: String)
    ensures
        text@ == primitive_accessor_text(name@, primitive_type@),
{
    let mut text = String::from_str("impl ");
    text.append(name);
    text.append(" { pub fn primitive(&self) -> ");
    text.append(primitive_type);
    text.append(" { self.value() } }\n");
    text
}

/// Generates the primitive accessor of a type that wraps a primitive: it
/// hands out the wrapped value.
pub fn implement_primitive_accessor(
    name: &str,
    primitive_type: &str,
) -> (outcome: Result<TokenStream, StrongTypeError>)
    ensures
        is_lexing_of(outcome, primitive_accessor_text(name@, primitive_type@)),
{
    let text = render_primitive_accessor(name, primitive_type);
    tokenize(text.as_str())
}

/// The source text of the primitive accessor of a type that wraps a strong
/// type: it forwards to the accessor of the wrapped value, one level down.
pub open spec fn primitive_accessor_derived_text(
    name: Seq<char>,
    primitive_type: Seq<char>,
) -> Seq<char> {
    "impl "@
        + name
        + " { pub fn primitive(&self) -> "@
        + primitive_type
        + " { self.0.primitive() } }\n"@
}

/// Writes the primitive accessor of a type that wraps a strong type: it
/// forwards to the accessor of the wrapped value, one level down.
pub fn render_primitive_accessor_derived(name: &str, primitive_type: &str) -> (text: String)
    ensures
        text@ == primitive_accessor_derived_text(name@, primitive_type@),
{
    let mut text = String::from_str("impl ");
    text.append(name);
    text.append(" { pub fn primitive(&self) -> ");
    text.append(primitive_type);
    text.append(" { self.0.primitive() } }\n");
    text
}

/// Generates the primitive accessor of a type that wraps a strong type: it
/// forwards to the accessor of the wrapped value, one level down.
pub fn implement_primitive_accessor_derived(
    name: &str,
    primitive_type: &str,
) -> (outcome: Result<TokenStream, StrongTypeError>)
    ensures
        is_lexing_of(outcome, primitive_accessor_derived_text(name@, primitive_type@)),
{
    let text = render_primitive_accessor_derived(name, primitive_type);
    tokenize(text.as_str())
}

/// The source text of the accessors of a type that wraps text.
pub open spec fn primitive_str_accessor_text(name: Seq<char>) -> Seq<char> {
    "impl "@
        + name
        + " { pub fn value(&self) -> &str { self.0.as_str() } pub fn primitive(&self) -> &str { self.value() } }\n"@
}

/// Writes the accessors of a type that wraps text.
pub fn render_primitive_str_accessor(name: &str) -> (text: String)
    ensures
        text@ == primitive_str_accessor_text(name@),
{
    let mut text = String::from_str("impl ");
    text.append(name);
    text.append(" { pub fn value(&self) -> &str { self.0.as_str() } pub fn primitive(&self) -> &str { self.value() } }\n");
    text
}

/// Generates the accessors of a type that wraps text.
pub fn implement_primitive_str_accessor(
    name: &str,
) -> (outcome: Result<TokenStream, StrongTypeError>)
    ensures
        is_lexing_of(outcome, primitive_str_accessor_text(name@)),
{
    let text = render_primitive_str_accessor(name);
    tokenize(text.as_str())
}

/// The source text of the accessors of a type that wraps a strong type over
/// text: the primitive accessor forwards one level down.
pub open spec fn primitive_str_accessor_derived_text(
    name: Seq<char>,
    value_type: Seq<char>,
) -> Seq<char> {
    "impl "@
        + name
        + " { pub fn value(&self) -> &"@
        + value_type
        + " { &self.0 } pub fn primitive(&self) -> &str { self.0.primitive() } }\n"@
}

/// Writes the accessors of a type that wraps a strong type over text: the
/// primitive accessor forwards one level down.
pub fn render_primitive_str_accessor_derived(name: &str, value_type: &str) -> (text: String)
    ensures
        text@ == primitive_str_accessor_derived_text(name@, value_type@),
{
    let mut text = String::from_str("impl ");
    text.append(name);
    text.append(" { pub fn value(&self) -> &");
    text.append(value_type);
    text.append(" { &self.0 } pub fn primitive(&self) -> &str { self.0.primitive() } }\n");
    text
}

/// Generates the accessors of a type that wraps a strong type over text: the
/// primitive accessor forwards one level down.
pub fn implement_primitive_str_accessor_derived(
    name: &str,
    value_type: &str,
) -> (outcome: Result<TokenStream, StrongTypeError>)
    ensures
        is_lexing_of(outcome, primitive_str_accessor_derived_text(name@, value_type@)),
{
    let text = render_primitive_str_accessor_derived(name, value_type);
    tokenize(text.as_str())
}

/// The source text of what every scalar strong type has: access to the value
/// by copy, construction in constant context, `Copy`, `Clone`, and the
/// partial order of the wrapped values.
pub open spec fn basic_primitive_text(name: Seq<char>, value_type: Seq<char>) -> Seq<char> {
    "impl "@
        + name
        + " { pub fn value(&self) -> "@
        + value_type
        + " { self.0 } pub const fn const_new(value: "@
        + value_type
        + ") -> Self { Self(value) } } impl Copy for "@
        + name
        + " {} impl Clone for "@
        + name
        + " { fn clone(&self) -> Self { *self } } #[allow(clippy::incorrect_partial_ord_impl_on_ord_type)] impl std::cmp::PartialOrd for "@
        + name
        + " { fn partial_cmp(&self, rhs: &Self) -> Option<std::cmp::Ordering> { self.value().partial_cmp(&rhs.value()) } }\n"@
}

/// Writes what every scalar strong type has: access to the value by copy,
/// construction in constant context, `Copy`, `Clone`, and the partial order
/// of the wrapped values.
pub fn render_basic_primitive(name: &str, value_type: &str) -> (text: String)
    ensures
        text@ == basic_primitive_text(name@, value_type@),
{
    let mut text = String::from_str("impl ");
    text.append(name);
    text.append(" { pub fn value(&self) -> ");
    text.append(value_type);
    text.append(" { self.0 } pub const fn const_new(value: ");
    text.append(value_type);
    text.append(") -> Self { Self(value) } } impl Copy for ");
    text.append(name);
    text.append(" {} impl Clone for ");
    text.append(name);
    text.append(" { fn clone(&self) -> Self { *self } } #[allow(clippy::incorrect_partial_ord_impl_on_ord_type)] impl std::cmp::PartialOrd for ");
    text.append(name);
    text.append(" { fn partial_cmp(&self, rhs: &Self) -> Option<std::cmp::Ordering> { self.value().partial_cmp(&rhs.value()) } }\n");
    text
}

/// Generates what every scalar strong type has: access to the value by copy,
/// construction in constant context, `Copy`, `Clone`, and the partial order
/// of the wrapped values.
pub fn implement_basic_primitive(
    name: &str,
    value_type: &str,
) -> (outcome: Result<TokenStream, StrongTypeError>)
    ensures
        is_lexing_of(outcome, basic_primitive_text(name@, value_type@)),
{
    let text = render_basic_primitive(name, value_type);
    tokenize(text.as_str())
}

/// The source text of what a text strong type has: `Clone` without `Copy`,
/// and the order of the wrapped texts.
pub open spec fn basic_string_text(name: Seq<char>) -> Seq<char> {
    "impl Clone for "@
        + name
        + " { fn clone(&self) -> Self { Self(self.0.clone()) } } impl std::cmp::PartialOrd for "@
        + name
        + " { fn partial_cmp(&self, rhs: &Self) -> Option<std::cmp::Ordering> { Some(self.cmp(rhs)) } }\n"@
}

/// Writes what a text strong type has: `Clone` without `Copy`, and the order
/// of the wrapped texts.
pub fn render_basic_string(name: &str) -> (text: String)
    ensures
        text@ == basic_string_text(name@),
{
    let mut text = String::from_str("impl Clone for ");
    text.append(name);
    text.append(" { fn clone(&self) -> Self { Self(self.0.clone()) } } impl std::cmp::PartialOrd for ");
    text.append(name);
    text.append(" { fn partial_cmp(&self, rhs: &Self) -> Option<std::cmp::Ordering> { Some(self.cmp(rhs)) } }\n");
    text
}

/// Generates what a text strong type has: `Clone` without `Copy`, and the
/// order of the wrapped texts.
pub fn implement_basic_string(name: &str) -> (outcome: Result<TokenStream, StrongTypeError>)
    ensures
        is_lexing_of(outcome, basic_string_text(name@)),
{
    let text = render_basic_string(name);
    tokenize(text.as_str())
}

/// The source text of total equality, total order and hashing, each by the
/// wrapped value.
pub open spec fn hash_text(name: Seq<char>) -> Seq<char> {
    "impl std::cmp::Eq for "@
        + name
        + " {} impl std::cmp::Ord for "@
        + name
        + " { fn cmp(&self, rhs: &Self) -> std::cmp::Ordering { self.value().cmp(&rhs.value()) } } impl std::hash::Hash for "@
        + name
        + " { fn hash<H: std::hash::Hasher>(&self, state: &mut H) { self.value().hash(state); } }\n"@
}

/// Writes total equality, total order and hashing, each by the wrapped value.
pub fn render_hash(name: &str) -> (text: String)
    ensures
        text@ == hash_text(name@),
{
    let mut text = String::from_str("impl std::cmp::Eq for ");
    text.append(name);
    text.append(" {} impl std::cmp::Ord for ");
    text.append(name);
    text.append(" { fn cmp(&self, rhs: &Self) -> std::cmp::Ordering { self.value().cmp(&rhs.value()) } } impl std::hash::Hash for ");
    text.append(name);
    text.append(" { fn hash<H: std::hash::Hasher>(&self, state: &mut H) { self.value().hash(state); } }\n");
    text
}

/// Generates total equality, total order and hashing, each by the wrapped
/// value.
pub fn implement_hash(name: &str) -> (outcome: Result<TokenStream, StrongTypeError>)
    ensures
        is_lexing_of(outcome, hash_text(name@)),
{
    let text = render_hash(name);
    tokenize(text.as_str())
}

/// The source text of the constants `MIN` and `MAX`, taken from the value
/// type.
pub open spec fn limit_text(name: Seq<char>, value_type: Seq<char>) -> Seq<char> {
    "impl "@
        + name
        + " { pub const MIN: Self = Self("@
        + value_type
        + "::MIN); pub const MAX: Self = Self("@
        + value_type
        + "::MAX); }\n"@
}

/// Writes the constants `MIN` and `MAX`, taken from the value type.
pub fn render_limit(name: &str, value_type: &str) -> (text: String)
    ensures
        text@ == limit_text(name@, value_type@),
{
    let mut text = String::from_str("impl ");
    text.append(name);
    text.append(" { pub const MIN: Self = Self(");
    text.append(value_type);
    text.append("::MIN); pub const MAX: Self = Self(");
    text.append(value_type);
    text.append("::MAX); }\n");
    text
}

/// Generates the constants `MIN` and `MAX`, taken from the value type.
pub fn implement_limit(
    name: &str,
    value_type: &str,
) -> (outcome: Result<TokenStream, StrongTypeError>)
    ensures
        is_lexing_of(outcome, limit_text(name@, value_type@)),
{
    let text = render_limit(name, value_type);
    tokenize(text.as_str())
}

/// The source text of the constants `ZERO` and `ONE` of a type that wraps a
/// primitive.
pub open spec fn constants_text(name: Seq<char>, value_type: Seq<char>) -> Seq<char> {
    "impl "@
        + name
        + " { pub const ZERO: Self = Self(0 as "@
        + value_type
        + "); pub const ONE: Self = Self(1 as "@
        + value_type
        + "); }\n"@
}

/// Writes the constants `ZERO` and `ONE` of a type that wraps a primitive.
pub fn render_constants(name: &str, value_type: &str) -> (text: String)
    ensures
        text@ == constants_text(name@, value_type@),
{
    let mut text = String::from_str("impl ");
    text.append(name);
    text.append(" { pub const ZERO: Self = Self(0 as ");
    text.append(value_type);
    text.append("); pub const ONE: Self = Self(1 as ");
    text.append(value_type);
    text.append("); }\n");
    text
}

/// Generates the constants `ZERO` and `ONE` of a type that wraps a primitive.
pub fn implement_constants(
    name: &str,
    value_type: &str,
) -> (outcome: Result<TokenStream, StrongTypeError>)
    ensures
        is_lexing_of(outcome, constants_text(name@, value_type@)),
{
    let text = render_constants(name, value_type);
    tokenize(text.as_str())
}

/// The source text of the constants `ZERO` and `ONE` of a type that wraps a
/// strong type, taken from the wrapped type.
pub open spec fn constants_derived_text(name: Seq<char>, value_type: Seq<char>) -> Seq<char> {
    "impl "@
        + name
        + " { pub const ZERO: Self = Self("@
        + value_type
        + "::ZERO); pub const ONE: Self = Self("@
        + value_type
        + "::ONE); }\n"@
}

/// Writes the constants `ZERO` and `ONE` of a type that wraps a strong type,
/// taken from the wrapped type.
pub fn render_constants_derived(name: &str, value_type: &str) -> (text: String)
    ensures
        text@ == constants_derived_text(name@, value_type@),
{
    let mut text = String::from_str("impl ");
    text.append(name);
    text.append(" { pub const ZERO: Self = Self(");
    text.append(value_type);
    text.append("::ZERO); pub const ONE: Self = Self(");
    text.append(value_type);
    text.append("::ONE); }\n");
    text
}

/// Generates the constants `ZERO` and `ONE` of a type that wraps a strong
/// type, taken from the wrapped type.
pub fn implement_constants_derived(
    name: &str,
    value_type: &str,
) -> (outcome: Result<TokenStream, StrongTypeError>)
    ensures
        is_lexing_of(outcome, constants_derived_text(name@, value_type@)),
{
    let text = render_constants_derived(name, value_type);
    tokenize(text.as_str())
}

/// The source text of the constant `NAN` and the predicates `is_nan` and
/// `is_finite` of a floating type.
pub open spec fn nan_text(name: Seq<char>, value_type: Seq<char>) -> Seq<char> {
    "impl "@
        + name
        + " { pub const NAN: Self = Self("@
        + value_type
        + "::NAN); pub fn is_nan(&self) -> bool { self.0.is_nan() } pub fn is_finite(&self) -> bool { self.0.is_finite() } }\n"@
}

/// Writes the constant `NAN` and the predicates `is_nan` and `is_finite` of a
/// floating type.
pub fn render_nan(name: &str, value_type: &str) -> (text: String)
    ensures
        text@ == nan_text(name@, value_type@),
{
    let mut text = String::from_str("impl ");
    text.append(name);
    text.append(" { pub const NAN: Self = Self(");
    text.append(value_type);
    text.append("::NAN); pub fn is_nan(&self) -> bool { self.0.is_nan() } pub fn is_finite(&self) -> bool { self.0.is_finite() } }\n");
    text
}

/// Generates the constant `NAN` and the predicates `is_nan` and `is_finite`
/// of a floating type.
pub fn implement_nan(
    name: &str,
    value_type: &str,
) -> (outcome: Result<TokenStream, StrongTypeError>)
    ensures
        is_lexing_of(outcome, nan_text(name@, value_type@)),
{
    let text = render_nan(name, value_type);
    tokenize(text.as_str())
}

/// The source text of the constants `INFINITY` and `NEG_INFINITY` of a
/// floating type.
pub open spec fn infinity_text(name: Seq<char>, value_type: Seq<char>) -> Seq<char> {
    "impl "@
        + name
        + " { pub const INFINITY: Self = Self("@
        + value_type
        + "::INFINITY); pub const NEG_INFINITY: Self = Self("@
        + value_type
        + "::NEG_INFINITY); }\n"@
}

/// Writes the constants `INFINITY` and `NEG_INFINITY` of a floating type.
pub fn render_infinity(name: &str, value_type: &str) -> (text: String)
    ensures
        text@ == infinity_text(name@, value_type@),
{
    let mut text = String::from_str("impl ");
    text.append(name);
    text.append(" { pub const INFINITY: Self = Self(");
    text.append(value_type);
    text.append("::INFINITY); pub const NEG_INFINITY: Self = Self(");
    text.append(value_type);
    text.append("::NEG_INFINITY); }\n");
    text
}

/// Generates the constants `INFINITY` and `NEG_INFINITY` of a floating type.
pub fn implement_infinity(
    name: &str,
    value_type: &str,
) -> (outcome: Result<TokenStream, StrongTypeError>)
    ensures
        is_lexing_of(outcome, infinity_text(name@, value_type@)),
{
    let text = render_infinity(name, value_type);
    tokenize(text.as_str())
}

} // verus!
