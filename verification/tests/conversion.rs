#![allow(dead_code)]

use std::fmt::Debug;
use quote::ToTokens;
use strong_type::declaration::{
    DeclarationDescriptor, DeclarationShape, FieldType, OptionDescriptor, OptionValue,
};
use strong_type::strong_type::expand_strong_type_impl;

fn declaration(name: &str, field: &str, options: Vec<OptionDescriptor>) -> DeclarationDescriptor {
    declaration_at(name, &[field], options)
}

fn declaration_at(name: &str, field: &[&str], options: Vec<OptionDescriptor>) -> DeclarationDescriptor {
    DeclarationDescriptor {
        name: name.to_string(),
        shape: DeclarationShape::TupleStruct,
        fields: vec![FieldType::Path(field.iter().map(|segment| segment.to_string()).collect())],
        options,
    }
}

fn flag(name: &str) -> OptionDescriptor {
    OptionDescriptor { name: name.to_string(), value: OptionValue::Flag }
}

fn text(name: &str, value: &str) -> OptionDescriptor {
    OptionDescriptor { name: name.to_string(), value: OptionValue::Text(value.to_string()) }
}

fn path(name: &str, segments: &[&str]) -> OptionDescriptor {
    OptionDescriptor {
        name: name.to_string(),
        value: OptionValue::Path(segments.iter().map(|segment| segment.to_string()).collect()),
    }
}

fn squeeze(code: &str) -> String {
    code.chars().filter(|c| !c.is_whitespace()).collect()
}

/// The implementations generated for a declaration, without white space
/// and without attributes: each in full and, for a trait's, also by its
/// header alone, `impl Trait for Type`.
fn generated_impls(input: &DeclarationDescriptor) -> Vec<String> {
    let stream = expand_strong_type_impl(input).expect("the declaration expands");
    let file = syn::parse2::<syn::File>(stream).expect("the expansion is a sequence of items");
    let mut impls = Vec::new();
    for item in file.items {
        match item {
            syn::Item::Impl(mut item) => {
                item.attrs.clear();
                for inner in item.items.iter_mut() {
                    if let syn::ImplItem::Fn(method) = inner {
                        method.attrs.clear();
                    }
                }
                if let Some((_, path, _)) = &item.trait_ {
                    let header = format!(
                        "impl {} for {}",
                        path.to_token_stream(),
                        item.self_ty.to_token_stream()
                    );
                    impls.push(squeeze(&header));
                }
                impls.push(squeeze(&item.to_token_stream().to_string()));
            }
            _ => panic!("only implementations are generated"),
        }
    }
    impls
}

/// Checks that the generator gives the declaration each of the
/// implementations that the test wrote out by hand. Those that format are
/// checked by their header: written by hand they call no macro.
fn assert_generated(input: &DeclarationDescriptor, written: &[&str]) {
    let impls = generated_impls(input);
    for item in written {
        assert!(impls.contains(&squeeze(item)), "{} is not generated", item);
    }
}

fn test<T: Debug + Eq>(value: T, underlying: T) {
    assert_eq!(value, underlying);
}

#[test]
fn test_conversion() {
    struct NamedI32(i64);

    impl NamedI32 {
        pub fn new(value: impl Into<i64>) -> Self {
            Self(value.into())
        }

        pub fn into_inner(self) -> i64 {
            self.0
        }

        pub fn as_ref(&self) -> &i64 {
            &self.0
        }

        pub fn as_mut(&mut self) -> &mut i64 {
            &mut self.0
        }
    }

    impl ::strong_type::StrongType for NamedI32 {
        type UnderlyingType = i64;
        type PrimitiveType = i64;
    }

    impl std::fmt::Debug for NamedI32 {
        fn fmt(&self, f: &mut std::fmt::Formatter) -> std::fmt::Result {
            f.debug_struct("NamedI32").field("value", &self.0).finish()
        }
    }

    impl std::default::Default for NamedI32
    where
        i64: std::default::Default,
    {
        fn default() -> Self {
            Self::new(i64::default())
        }
    }

    impl std::cmp::PartialEq for NamedI32 {
        fn eq(&self, rhs: &Self) -> bool {
            self.value() == rhs.value()
        }
    }

    impl std::convert::AsRef<i64> for NamedI32 {
        fn as_ref(&self) -> &i64 {
            NamedI32::as_ref(self)
        }
    }

    impl std::convert::AsMut<i64> for NamedI32 {
        fn as_mut(&mut self) -> &mut i64 {
            NamedI32::as_mut(self)
        }
    }

    impl From<i64> for NamedI32 {
        fn from(value: i64) -> Self {
            Self::new(value)
        }
    }

    impl From<NamedI32> for i64 {
        fn from(value: NamedI32) -> i64 {
            value.0
        }
    }

    impl<'a> From<&'a i64> for NamedI32
    where
        i64: Clone,
    {
        fn from(value: &'a i64) -> Self {
            Self::new(value.clone())
        }
    }

    impl<'a> From<&'a NamedI32> for &'a i64 {
        fn from(value: &'a NamedI32) -> Self {
            value.as_ref()
        }
    }

    impl<'a> From<&'a mut NamedI32> for &'a mut i64 {
        fn from(value: &'a mut NamedI32) -> Self {
            value.as_mut()
        }
    }

    impl NamedI32 {
        pub fn value(&self) -> i64 {
            self.0
        }

        pub const fn const_new(value: i64) -> Self {
            Self(value)
        }
    }

    impl Copy for NamedI32 {}

    impl Clone for NamedI32 {
        fn clone(&self) -> Self {
            *self
        }
    }

    impl std::cmp::PartialOrd for NamedI32 {
        fn partial_cmp(&self, rhs: &Self) -> Option<std::cmp::Ordering> {
            self.value().partial_cmp(&rhs.value())
        }
    }

    impl std::cmp::Eq for NamedI32 {}

    impl std::cmp::Ord for NamedI32 {
        fn cmp(&self, rhs: &Self) -> std::cmp::Ordering {
            self.value().cmp(&rhs.value())
        }
    }

    impl std::hash::Hash for NamedI32 {
        fn hash<H: std::hash::Hasher>(&self, state: &mut H) {
            self.value().hash(state);
        }
    }

    assert_generated(
        &declaration("NamedI32", "i64", vec![flag("conversion")]),
        &[
            "impl NamedI32 { pub fn new(value: impl Into<i64>) -> Self { Self(value.into()) } pub fn into_inner(self) -> i64 { self.0 } pub fn as_ref(&self) -> &i64 { &self.0 } pub fn as_mut(&mut self) -> &mut i64 { &mut self.0 } }",
            "impl ::strong_type::StrongType for NamedI32 { type UnderlyingType = i64; type PrimitiveType = i64; }",
            "impl std::fmt::Debug for NamedI32",
            "impl std::default::Default for NamedI32 where i64: std::default::Default, { fn default() -> Self { Self::new(i64::default()) } }",
            "impl std::cmp::PartialEq for NamedI32 { fn eq(&self, rhs: &Self) -> bool { self.value() == rhs.value() } }",
            "impl std::convert::AsRef<i64> for NamedI32 { fn as_ref(&self) -> &i64 { NamedI32::as_ref(self) } }",
            "impl std::convert::AsMut<i64> for NamedI32 { fn as_mut(&mut self) -> &mut i64 { NamedI32::as_mut(self) } }",
            "impl From<i64> for NamedI32 { fn from(value: i64) -> Self { Self::new(value) } }",
            "impl From<NamedI32> for i64 { fn from(value: NamedI32) -> i64 { value.0 } }",
            "impl<'a> From<&'a i64> for NamedI32 where i64: Clone, { fn from(value: &'a i64) -> Self { Self::new(value.clone()) } }",
            "impl<'a> From<&'a NamedI32> for &'a i64 { fn from(value: &'a NamedI32) -> Self { value.as_ref() } }",
            "impl<'a> From<&'a mut NamedI32> for &'a mut i64 { fn from(value: &'a mut NamedI32) -> Self { value.as_mut() } }",
            "impl NamedI32 { pub fn value(&self) -> i64 { self.0 } pub const fn const_new(value: i64) -> Self { Self(value) } }",
            "impl Copy for NamedI32 {}",
            "impl Clone for NamedI32 { fn clone(&self) -> Self { *self } }",
            "impl std::cmp::PartialOrd for NamedI32 { fn partial_cmp(&self, rhs: &Self) -> Option<std::cmp::Ordering> { self.value().partial_cmp(&rhs.value()) } }",
            "impl std::cmp::Eq for NamedI32 {}",
            "impl std::cmp::Ord for NamedI32 { fn cmp(&self, rhs: &Self) -> std::cmp::Ordering { self.value().cmp(&rhs.value()) } }",
            "impl std::hash::Hash for NamedI32 { fn hash<H: std::hash::Hasher>(&self, state: &mut H) { self.value().hash(state); } }",
        ],
    );

    let i64_value = 64;
    let value = NamedI32::new(i64_value);

    test(value, i64_value.into());
    test(value.into(), i64_value);

    struct NamedString(String);

    impl NamedString {
        pub fn new(value: impl Into<String>) -> Self {
            Self(value.into())
        }

        pub fn into_inner(self) -> String {
            self.0
        }

        pub fn as_ref(&self) -> &String {
            &self.0
        }

        pub fn as_mut(&mut self) -> &mut String {
            &mut self.0
        }
    }

    impl ::strong_type::StrongType for NamedString {
        type UnderlyingType = String;
        type PrimitiveType = String;
    }

    impl std::fmt::Debug for NamedString {
        fn fmt(&self, f: &mut std::fmt::Formatter) -> std::fmt::Result {
            f.debug_struct("NamedString").field("value", &self.0).finish()
        }
    }

    impl std::default::Default for NamedString
    where
        String: std::default::Default,
    {
        fn default() -> Self {
            Self::new(String::default())
        }
    }

    impl std::cmp::PartialEq for NamedString {
        fn eq(&self, rhs: &Self) -> bool {
            self.value() == rhs.value()
        }
    }

    impl std::convert::AsRef<String> for NamedString {
        fn as_ref(&self) -> &String {
            NamedString::as_ref(self)
        }
    }

    impl std::convert::AsMut<String> for NamedString {
        fn as_mut(&mut self) -> &mut String {
            NamedString::as_mut(self)
        }
    }

    impl From<String> for NamedString {
        fn from(value: String) -> Self {
            Self::new(value)
        }
    }

    impl From<NamedString> for String {
        fn from(value: NamedString) -> String {
            value.0
        }
    }

    impl<'a> From<&'a String> for NamedString
    where
        String: Clone,
    {
        fn from(value: &'a String) -> Self {
            Self::new(value.clone())
        }
    }

    impl<'a> From<&'a NamedString> for &'a String {
        fn from(value: &'a NamedString) -> Self {
            value.as_ref()
        }
    }

    impl<'a> From<&'a mut NamedString> for &'a mut String {
        fn from(value: &'a mut NamedString) -> Self {
            value.as_mut()
        }
    }

    impl From<&str> for NamedString {
        fn from(value: &str) -> Self {
            Self::new(value)
        }
    }

    impl NamedString {
        pub fn value(&self) -> &str {
            self.0.as_str()
        }

        pub fn primitive(&self) -> &str {
            self.value()
        }
    }

    impl Clone for NamedString {
        fn clone(&self) -> Self {
            Self(self.0.clone())
        }
    }

    impl std::cmp::PartialOrd for NamedString {
        fn partial_cmp(&self, rhs: &Self) -> Option<std::cmp::Ordering> {
            Some(self.cmp(rhs))
        }
    }

    impl std::cmp::Eq for NamedString {}

    impl std::cmp::Ord for NamedString {
        fn cmp(&self, rhs: &Self) -> std::cmp::Ordering {
            self.value().cmp(&rhs.value())
        }
    }

    impl std::hash::Hash for NamedString {
        fn hash<H: std::hash::Hasher>(&self, state: &mut H) {
            self.value().hash(state);
        }
    }

    assert_generated(
        &declaration("NamedString", "String", vec![flag("conversion")]),
        &[
            "impl NamedString { pub fn new(value: impl Into<String>) -> Self { Self(value.into()) } pub fn into_inner(self) -> String { self.0 } pub fn as_ref(&self) -> &String { &self.0 } pub fn as_mut(&mut self) -> &mut String { &mut self.0 } }",
            "impl ::strong_type::StrongType for NamedString { type UnderlyingType = String; type PrimitiveType = String; }",
            "impl std::fmt::Debug for NamedString",
            "impl std::default::Default for NamedString where String: std::default::Default, { fn default() -> Self { Self::new(String::default()) } }",
            "impl std::cmp::PartialEq for NamedString { fn eq(&self, rhs: &Self) -> bool { self.value() == rhs.value() } }",
            "impl std::convert::AsRef<String> for NamedString { fn as_ref(&self) -> &String { NamedString::as_ref(self) } }",
            "impl std::convert::AsMut<String> for NamedString { fn as_mut(&mut self) -> &mut String { NamedString::as_mut(self) } }",
            "impl From<String> for NamedString { fn from(value: String) -> Self { Self::new(value) } }",
            "impl From<NamedString> for String { fn from(value: NamedString) -> String { value.0 } }",
            "impl<'a> From<&'a String> for NamedString where String: Clone, { fn from(value: &'a String) -> Self { Self::new(value.clone()) } }",
            "impl<'a> From<&'a NamedString> for &'a String { fn from(value: &'a NamedString) -> Self { value.as_ref() } }",
            "impl<'a> From<&'a mut NamedString> for &'a mut String { fn from(value: &'a mut NamedString) -> Self { value.as_mut() } }",
            "impl From<&str> for NamedString { fn from(value: &str) -> Self { Self::new(value) } }",
            "impl NamedString { pub fn value(&self) -> &str { self.0.as_str() } pub fn primitive(&self) -> &str { self.value() } }",
            "impl Clone for NamedString { fn clone(&self) -> Self { Self(self.0.clone()) } }",
            "impl std::cmp::PartialOrd for NamedString { fn partial_cmp(&self, rhs: &Self) -> Option<std::cmp::Ordering> { Some(self.cmp(rhs)) } }",
            "impl std::cmp::Eq for NamedString {}",
            "impl std::cmp::Ord for NamedString { fn cmp(&self, rhs: &Self) -> std::cmp::Ordering { self.value().cmp(&rhs.value()) } }",
            "impl std::hash::Hash for NamedString { fn hash<H: std::hash::Hasher>(&self, state: &mut H) { self.value().hash(state); } }",
        ],
    );
    let str_value = "test";
    let string_value = String::from(str_value);
    let value = NamedString::new(string_value.clone());

    test(value.clone(), str_value.into());
    test(value.clone(), string_value.clone().into());
    test(value.into(), string_value);
}
