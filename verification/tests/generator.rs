use proc_macro2::TokenStream;
use strong_type::codegen_framework::{
    binary_ops, generate_addable_operators, generate_all_bit_operations,
    generate_arithmetic_operators, generate_binary_operator,
    generate_binary_operator_with_strategy, generate_bit_operators, generate_bit_shift_for_type,
    generate_bit_shift_for_type_with_strategy, generate_bit_shift_operators,
    generate_bool_operators, generate_negation, generate_not, generate_scalable_operators,
    generate_scalar_operator, generate_scalar_operator_with_strategy,
    generate_strong_type_ops_impl, generate_unary_operator,
    generate_unary_operator_with_strategy, plan_binary_operator, plan_bit_shift,
    plan_scalar_operator, plan_unary_operator, render_binary_impl, render_reduction_impl,
    scalar_ops, shift_type_names,
    unary_ops, BinaryImpl, BinaryOperatorSpec, DelegationStrategy, GenerationMode, Operand,
    ScalarImpl, ShiftDirection, ShiftImpl, UnaryImpl,
};
use strong_type::delegated_operators::{
    implement_delegated_arithmetic, implement_delegated_bit_shift, implement_delegated_bool_ops,
    implement_delegated_negate, implement_delegated_scalable,
};
use strong_type::error::StrongTypeError;
use strong_type::lexing::{join, tokenize, tokenize_all};

/// The tokens of a piece of source code, as text.
fn tokens_of(code: &str) -> String {
    code.parse::<TokenStream>().expect("the expected code lexes").to_string()
}

fn generated(outcome: Result<TokenStream, StrongTypeError>) -> String {
    outcome.expect("the code is generated").to_string()
}

fn binary_owned_owned(name: &str, op: &str, method: &str, symbol: &str) -> String {
    format!(
        "impl std::ops::{op}<Self> for {name} {{
            type Output = Self;
            fn {method}(self, rhs: Self) -> Self::Output {{
                Self::new(self.value() {symbol} rhs.value())
            }}
        }}"
    )
}

fn binary_owned_owned_delegated(name: &str, op: &str, method: &str) -> String {
    format!(
        "impl std::ops::{op}<Self> for {name} {{
            type Output = Self;
            fn {method}(self, rhs: Self) -> Self::Output {{
                ::strong_type::delegation::delegate_{method}(self, rhs)
            }}
        }}"
    )
}

fn binary_reference_forms(name: &str, op: &str, method: &str, symbol: &str) -> String {
    format!(
        "impl std::ops::{op}<&Self> for {name} {{
            type Output = Self;
            fn {method}(self, rhs: &Self) -> Self::Output {{
                Self::new(self.value() {symbol} rhs.value())
            }}
        }}

        impl<'a> std::ops::{op}<{name}> for &'a {name} {{
            type Output = {name};
            fn {method}(self, rhs: {name}) -> Self::Output {{
                {name}::new(self.value() {symbol} rhs.value())
            }}
        }}

        impl<'a> std::ops::{op}<&{name}> for &'a {name} {{
            type Output = {name};
            fn {method}(self, rhs: &{name}) -> Self::Output {{
                {name}::new(self.value() {symbol} rhs.value())
            }}
        }}"
    )
}

fn assign_owned(name: &str, op: &str, method: &str, symbol: &str) -> String {
    format!(
        "impl std::ops::{op}Assign<Self> for {name} {{
            fn {method}_assign(&mut self, rhs: Self) {{
                self.0 {symbol}= rhs.value()
            }}
        }}"
    )
}

fn assign_borrowed(name: &str, op: &str, method: &str, symbol: &str) -> String {
    format!(
        "impl std::ops::{op}Assign<&Self> for {name} {{
            fn {method}_assign(&mut self, rhs: &Self) {{
                self.0 {symbol}= rhs.value()
            }}
        }}"
    )
}

fn reduction_owned(name: &str, reduction: &str, method: &str, neutral: &str, op: &str, op_method: &str) -> String {
    format!(
        "impl std::iter::{reduction}<Self> for {name} {{
            fn {method}<I: Iterator<Item = Self>>(iter: I) -> Self {{
                iter.fold(Self::{neutral}, std::ops::{op}::{op_method})
            }}
        }}"
    )
}

fn reduction_borrowed(name: &str, reduction: &str, method: &str, neutral: &str, op: &str, op_method: &str) -> String {
    format!(
        "impl<'a> std::iter::{reduction}<&'a Self> for {name} {{
            fn {method}<I: Iterator<Item = &'a Self>>(iter: I) -> Self {{
                iter.fold(Self::{neutral}, std::ops::{op}::{op_method})
            }}
        }}"
    )
}

/// What full mode emits for a binary operator, as the operator's body
/// computes inline.
fn full_binary(name: &str, op: &str, method: &str, symbol: &str, reduction: Option<(&str, &str, &str)>) -> String {
    let mut code = binary_owned_owned(name, op, method, symbol);
    code.push_str(&binary_reference_forms(name, op, method, symbol));
    code.push_str(&assign_owned(name, op, method, symbol));
    code.push_str(&assign_borrowed(name, op, method, symbol));
    if let Some((reduction, reduce, neutral)) = reduction {
        code.push_str(&reduction_owned(name, reduction, reduce, neutral, op, method));
        code.push_str(&reduction_borrowed(name, reduction, reduce, neutral, op, method));
    }
    code
}

fn minimal_binary(name: &str, op: &str, method: &str, symbol: &str, reduction: Option<(&str, &str, &str)>) -> String {
    let mut code = binary_owned_owned(name, op, method, symbol);
    code.push_str(&assign_owned(name, op, method, symbol));
    if let Some((reduction, reduce, neutral)) = reduction {
        code.push_str(&reduction_owned(name, reduction, reduce, neutral, op, method));
    }
    code
}

fn delegated_binary(name: &str, op: &str, method: &str, symbol: &str, reduction: Option<(&str, &str, &str)>) -> String {
    let mut code = binary_owned_owned_delegated(name, op, method);
    code.push_str(&binary_reference_forms(name, op, method, symbol));
    code.push_str(&assign_owned(name, op, method, symbol));
    code.push_str(&assign_borrowed(name, op, method, symbol));
    if let Some((reduction, reduce, neutral)) = reduction {
        code.push_str(&reduction_owned(name, reduction, reduce, neutral, op, method));
        code.push_str(&reduction_borrowed(name, reduction, reduce, neutral, op, method));
    }
    code
}

const SUM: Option<(&str, &str, &str)> = Some(("Sum", "sum", "ZERO"));
const PRODUCT: Option<(&str, &str, &str)> = Some(("Product", "product", "ONE"));

#[test]
fn binary_operator_full_mode_covers_every_operand_combination() {
    let generated = generated(generate_binary_operator("Meter", &binary_ops::addition(), GenerationMode::Full));
    assert_eq!(generated, tokens_of(&full_binary("Meter", "Add", "add", "+", SUM)));
}

#[test]
fn binary_operator_without_reduction_has_six_implementations() {
    let generated = generated(generate_binary_operator("Meter", &binary_ops::subtraction(), GenerationMode::Full));
    assert_eq!(generated, tokens_of(&full_binary("Meter", "Sub", "sub", "-", None)));
    let plan = plan_binary_operator(
        &binary_ops::subtraction(),
        GenerationMode::Full,
        DelegationStrategy::Inline,
    );
    assert_eq!(plan.len(), 6);
}

#[test]
fn binary_operator_minimal_mode_keeps_owned_forms() {
    let generated = generated(generate_binary_operator("Meter", &binary_ops::multiplication(), GenerationMode::Minimal));
    assert_eq!(generated, tokens_of(&minimal_binary("Meter", "Mul", "mul", "*", PRODUCT)));
    let generated = generate_binary_operator("Meter", &binary_ops::division(), GenerationMode::Minimal);
    assert_eq!(
        generated.unwrap().to_string(),
        tokens_of(&minimal_binary("Meter", "Div", "div", "/", None))
    );
}

#[test]
fn binary_operator_delegated_body_calls_the_shared_helper() {
    let generated = generated(generate_binary_operator_with_strategy(
        "Meter",
        &binary_ops::addition(),
        GenerationMode::Full,
        DelegationStrategy::Delegate,
    ));
    assert_eq!(generated, tokens_of(&delegated_binary("Meter", "Add", "add", "+", SUM)));
    assert_eq!(generated.matches("delegate_add").count(), 1);
}

#[test]
fn binary_operator_plan_in_each_mode() {
    let owned = |strategy| BinaryImpl::Operator { lhs: Operand::Owned, rhs: Operand::Owned, strategy };
    let inline = |lhs, rhs| BinaryImpl::Operator { lhs, rhs, strategy: DelegationStrategy::Inline };
    assert_eq!(
        plan_binary_operator(&binary_ops::addition(), GenerationMode::Full, DelegationStrategy::Delegate),
        vec![
            owned(DelegationStrategy::Delegate),
            inline(Operand::Owned, Operand::Borrowed),
            inline(Operand::Borrowed, Operand::Owned),
            inline(Operand::Borrowed, Operand::Borrowed),
            BinaryImpl::Assignment { rhs: Operand::Owned },
            BinaryImpl::Assignment { rhs: Operand::Borrowed },
            BinaryImpl::Reduction { item: Operand::Owned },
            BinaryImpl::Reduction { item: Operand::Borrowed },
        ]
    );
    assert_eq!(
        plan_binary_operator(&binary_ops::addition(), GenerationMode::Minimal, DelegationStrategy::Inline),
        vec![
            owned(DelegationStrategy::Inline),
            BinaryImpl::Assignment { rhs: Operand::Owned },
            BinaryImpl::Reduction { item: Operand::Owned },
        ]
    );
    assert_eq!(
        plan_binary_operator(&binary_ops::remainder(), GenerationMode::Minimal, DelegationStrategy::Inline),
        vec![owned(DelegationStrategy::Inline), BinaryImpl::Assignment { rhs: Operand::Owned }]
    );
}

#[test]
fn minimal_and_full_share_the_operator_on_owned_operands() {
    for op in [binary_ops::addition(), binary_ops::remainder(), binary_ops::bit_xor()] {
        let full = plan_binary_operator(&op, GenerationMode::Full, DelegationStrategy::Inline);
        let minimal = plan_binary_operator(&op, GenerationMode::Minimal, DelegationStrategy::Inline);
        assert_eq!(full[0], minimal[0]);
        assert_eq!(
            render_binary_impl("Meter", &op, full[0]),
            render_binary_impl("Meter", &op, minimal[0])
        );
        for item in &minimal {
            assert!(full.contains(item));
        }
    }
}

#[test]
fn delegation_changes_the_owned_operator_only() {
    for mode in [GenerationMode::Full, GenerationMode::Minimal] {
        let inline = plan_binary_operator(&binary_ops::addition(), mode, DelegationStrategy::Inline);
        let delegated = plan_binary_operator(&binary_ops::addition(), mode, DelegationStrategy::Delegate);
        assert_eq!(inline.len(), delegated.len());
        assert_ne!(inline[0], delegated[0]);
        assert_eq!(inline[1..], delegated[1..]);
    }
}

#[test]
fn reduction_method_is_the_trait_in_lower_case() {
    let text = render_binary_impl(
        "Meter",
        &binary_ops::addition(),
        BinaryImpl::Reduction { item: Operand::Owned },
    );
    assert_eq!(
        text,
        "impl std::iter::Sum<Self> for Meter { fn sum<I: Iterator<Item = Self>>(iter: I) -> Self { iter.fold(Self::ZERO, std::ops::Add::add) } }\n"
    );
    let text = render_binary_impl(
        "Meter",
        &binary_ops::multiplication(),
        BinaryImpl::Reduction { item: Operand::Borrowed },
    );
    assert_eq!(
        text,
        "impl<'a> std::iter::Product<&'a Self> for Meter { fn product<I: Iterator<Item = &'a Self>>(iter: I) -> Self { iter.fold(Self::ONE, std::ops::Mul::mul) } }\n"
    );
}

#[test]
fn reduction_is_written_with_the_method_it_is_given() {
    assert_eq!(
        render_reduction_impl("Meter", &binary_ops::addition(), "Sum", "sum", Operand::Owned),
        "impl std::iter::Sum<Self> for Meter { fn sum<I: Iterator<Item = Self>>(iter: I) -> Self { iter.fold(Self::ZERO, std::ops::Add::add) } }\n"
    );
    assert_eq!(
        render_reduction_impl("Meter", &binary_ops::bit_or(), "Any", "any_of", Operand::Borrowed),
        "impl<'a> std::iter::Any<&'a Self> for Meter { fn any_of<I: Iterator<Item = &'a Self>>(iter: I) -> Self { iter.fold(Self::ONE, std::ops::BitOr::bitor) } }\n"
    );
}

#[test]
fn reduction_of_a_custom_operator_starts_from_one() {
    let custom = BinaryOperatorSpec {
        trait_name: "BitAnd",
        method: "bitand",
        op_symbol: "&",
        assign_trait: "BitAndAssign",
        assign_method: "bitand_assign",
        assign_op_symbol: "&=",
        iterator_trait: Some("Product"),
    };
    let generated = generated(generate_binary_operator("Mask", &custom, GenerationMode::Minimal));
    assert_eq!(
        generated,
        tokens_of(&minimal_binary("Mask", "BitAnd", "bitand", "&", Some(("Product", "product", "ONE"))))
    );
}

#[test]
fn render_binary_impl_exact_text() {
    assert_eq!(
        render_binary_impl(
            "Meter",
            &binary_ops::addition(),
            BinaryImpl::Operator {
                lhs: Operand::Owned,
                rhs: Operand::Owned,
                strategy: DelegationStrategy::Inline,
            },
        ),
        "impl std::ops::Add<Self> for Meter { type Output = Self; fn add(self, rhs: Self) -> Self::Output { Self::new(self.value() + rhs.value()) } }\n"
    );
    assert_eq!(
        render_binary_impl(
            "Meter",
            &binary_ops::addition(),
            BinaryImpl::Operator {
                lhs: Operand::Borrowed,
                rhs: Operand::Borrowed,
                strategy: DelegationStrategy::Inline,
            },
        ),
        "impl<'a> std::ops::Add<&Meter> for &'a Meter { type Output = Meter; fn add(self, rhs: &Meter) -> Self::Output { Meter::new(self.value() + rhs.value()) } }\n"
    );
    assert_eq!(
        render_binary_impl(
            "Meter",
            &binary_ops::subtraction(),
            BinaryImpl::Assignment { rhs: Operand::Borrowed },
        ),
        "impl std::ops::SubAssign<&Self> for Meter { fn sub_assign(&mut self, rhs: &Self) { self.0 -= rhs.value() } }\n"
    );
}

fn unary_owned(name: &str, op: &str, method: &str, symbol: &str) -> String {
    format!(
        "impl std::ops::{op} for {name} {{
            type Output = Self;
            fn {method}(self) -> Self::Output {{
                Self::new({symbol} self.value())
            }}
        }}"
    )
}

fn unary_borrowed(name: &str, op: &str, method: &str, symbol: &str) -> String {
    format!(
        "impl<'a> std::ops::{op} for &'a {name} {{
            type Output = {name};
            fn {method}(self) -> Self::Output {{
                {name}::new({symbol} self.value())
            }}
        }}"
    )
}

fn unary_delegated(name: &str, op: &str, method: &str) -> String {
    format!(
        "impl std::ops::{op} for {name} {{
            type Output = Self;
            fn {method}(self) -> Self::Output {{
                ::strong_type::delegation::delegate_{method}(self)
            }}
        }}"
    )
}

#[test]
fn unary_operator_full_mode_has_owned_and_borrowed_form() {
    let expected = unary_owned("Meter", "Neg", "neg", "-") + &unary_borrowed("Meter", "Neg", "neg", "-");
    assert_eq!(generated(generate_negation("Meter", GenerationMode::Full)), tokens_of(&expected));
    assert_eq!(
        generated(generate_unary_operator("Meter", &unary_ops::negation(), GenerationMode::Full)),
        tokens_of(&expected)
    );
    let expected = unary_owned("Flag", "Not", "not", "!") + &unary_borrowed("Flag", "Not", "not", "!");
    assert_eq!(generated(generate_not("Flag", GenerationMode::Full)), tokens_of(&expected));
}

#[test]
fn unary_operator_minimal_mode_has_owned_form_only() {
    assert_eq!(
        generated(generate_negation("Meter", GenerationMode::Minimal)),
        tokens_of(&unary_owned("Meter", "Neg", "neg", "-"))
    );
    assert_eq!(
        plan_unary_operator(GenerationMode::Minimal, DelegationStrategy::Inline),
        vec![UnaryImpl { operand: Operand::Owned, strategy: DelegationStrategy::Inline }]
    );
    assert_eq!(
        plan_unary_operator(GenerationMode::Full, DelegationStrategy::Delegate),
        vec![
            UnaryImpl { operand: Operand::Owned, strategy: DelegationStrategy::Delegate },
            UnaryImpl { operand: Operand::Borrowed, strategy: DelegationStrategy::Inline },
        ]
    );
}

#[test]
fn unary_operator_delegated() {
    let expected = unary_delegated("Meter", "Neg", "neg") + &unary_borrowed("Meter", "Neg", "neg", "-");
    assert_eq!(
        generated(generate_unary_operator_with_strategy(
            "Meter",
            &unary_ops::negation(),
            GenerationMode::Full,
            DelegationStrategy::Delegate,
        )),
        tokens_of(&expected)
    );
    assert_eq!(generated(implement_delegated_negate("Meter")), tokens_of(&expected));
}

fn scalar_forms(name: &str, value: &str, op: &str, method: &str, symbol: &str, owned_body: &str) -> String {
    format!(
        "impl std::ops::{op}<{value}> for {name} {{
            type Output = Self;
            fn {method}(self, rhs: {value}) -> Self::Output {{
                {owned_body}
            }}
        }}

        impl<'a> std::ops::{op}<{value}> for &'a {name} {{
            type Output = {name};
            fn {method}(self, rhs: {value}) -> Self::Output {{
                {name}(self.0 {symbol} rhs)
            }}
        }}

        impl std::ops::{op}Assign<{value}> for {name} {{
            fn {method}_assign(&mut self, rhs: {value}) {{
                self.0 {symbol}= rhs;
            }}
        }}"
    )
}

fn scalar_commuted(name: &str, value: &str, op: &str, method: &str, symbol: &str) -> String {
    format!(
        "impl std::ops::{op}<{name}> for {value} {{
            type Output = {name};
            fn {method}(self, rhs: {name}) -> Self::Output {{
                {name}(self {symbol} rhs.0)
            }}
        }}

        impl<'a> std::ops::{op}<&{name}> for {value} {{
            type Output = {name};
            fn {method}(self, rhs: &{name}) -> Self::Output {{
                {name}(self {symbol} rhs.0)
            }}
        }}"
    )
}

#[test]
fn scalar_multiplication_is_commutative() {
    let expected = scalar_forms("Meter", "f64", "Mul", "mul", "*", "Self(self.0 * rhs)")
        + &scalar_commuted("Meter", "f64", "Mul", "mul", "*");
    assert_eq!(
        generated(generate_scalar_operator("Meter", "f64", &scalar_ops::multiplication())),
        tokens_of(&expected)
    );
    assert_eq!(
        plan_scalar_operator(&scalar_ops::multiplication(), DelegationStrategy::Inline),
        vec![
            ScalarImpl::Operator { lhs: Operand::Owned, strategy: DelegationStrategy::Inline },
            ScalarImpl::Operator { lhs: Operand::Borrowed, strategy: DelegationStrategy::Inline },
            ScalarImpl::Assignment,
            ScalarImpl::Commuted { rhs: Operand::Owned },
            ScalarImpl::Commuted { rhs: Operand::Borrowed },
        ]
    );
}

#[test]
fn scalar_division_and_remainder_are_not_commutative() {
    assert_eq!(
        generated(generate_scalar_operator("Meter", "f64", &scalar_ops::division())),
        tokens_of(&scalar_forms("Meter", "f64", "Div", "div", "/", "Self(self.0 / rhs)"))
    );
    assert_eq!(
        generated(generate_scalar_operator("Meter", "f64", &scalar_ops::remainder())),
        tokens_of(&scalar_forms("Meter", "f64", "Rem", "rem", "%", "Self(self.0 % rhs)"))
    );
    assert_eq!(plan_scalar_operator(&scalar_ops::division(), DelegationStrategy::Delegate).len(), 3);
}

#[test]
fn scalar_operator_delegated() {
    let expected = scalar_forms(
        "Meter",
        "f64",
        "Mul",
        "mul",
        "*",
        "::strong_type::delegation::delegate_scalar_mul(self, rhs)",
    ) + &scalar_commuted("Meter", "f64", "Mul", "mul", "*");
    assert_eq!(
        generated(generate_scalar_operator_with_strategy(
            "Meter",
            "f64",
            &scalar_ops::multiplication(),
            DelegationStrategy::Delegate,
        )),
        tokens_of(&expected)
    );
}

#[test]
fn scalable_operators_are_mul_div_rem() {
    let expected = scalar_forms("Meter", "i64", "Mul", "mul", "*", "Self(self.0 * rhs)")
        + &scalar_commuted("Meter", "i64", "Mul", "mul", "*")
        + &scalar_forms("Meter", "i64", "Div", "div", "/", "Self(self.0 / rhs)")
        + &scalar_forms("Meter", "i64", "Rem", "rem", "%", "Self(self.0 % rhs)");
    assert_eq!(generated(generate_scalable_operators("Meter", "i64")), tokens_of(&expected));
    let expected = scalar_forms("Meter", "i64", "Mul", "mul", "*", "::strong_type::delegation::delegate_scalar_mul(self, rhs)")
        + &scalar_commuted("Meter", "i64", "Mul", "mul", "*")
        + &scalar_forms("Meter", "i64", "Div", "div", "/", "::strong_type::delegation::delegate_scalar_div(self, rhs)")
        + &scalar_forms("Meter", "i64", "Rem", "rem", "%", "::strong_type::delegation::delegate_scalar_rem(self, rhs)");
    assert_eq!(generated(implement_delegated_scalable("Meter", "i64")), tokens_of(&expected));
}

fn shift_forms(name: &str, shift: &str, shl_body: &str, shr_body: &str) -> String {
    format!(
        "impl std::ops::Shl<{shift}> for {name} {{
            type Output = Self;
            fn shl(self, rhs: {shift}) -> Self::Output {{
                {shl_body}
            }}
        }}

        impl std::ops::ShlAssign<{shift}> for {name} {{
            fn shl_assign(&mut self, rhs: {shift}) {{
                self.0 <<= rhs;
            }}
        }}

        impl std::ops::Shr<{shift}> for {name} {{
            type Output = Self;
            fn shr(self, rhs: {shift}) -> Self::Output {{
                {shr_body}
            }}
        }}

        impl std::ops::ShrAssign<{shift}> for {name} {{
            fn shr_assign(&mut self, rhs: {shift}) {{
                self.0 >>= rhs;
            }}
        }}

        impl std::ops::Shl<{shift}> for &{name} {{
            type Output = {name};
            fn shl(self, rhs: {shift}) -> Self::Output {{
                {name}::new(self.value() << rhs)
            }}
        }}

        impl std::ops::Shr<{shift}> for &{name} {{
            type Output = {name};
            fn shr(self, rhs: {shift}) -> Self::Output {{
                {name}::new(self.value() >> rhs)
            }}
        }}"
    )
}

const SHIFT_TYPES: [&str; 12] =
    ["i8", "i16", "i32", "i64", "i128", "isize", "u8", "u16", "u32", "u64", "u128", "usize"];

#[test]
fn bit_shift_for_one_shift_type() {
    assert_eq!(
        generated(generate_bit_shift_for_type("Bits", "u8")),
        tokens_of(&shift_forms(
            "Bits",
            "u8",
            "Self::new(self.value() << rhs)",
            "Self::new(self.value() >> rhs)",
        ))
    );
    assert_eq!(
        generated(generate_bit_shift_for_type_with_strategy("Bits", "u8", DelegationStrategy::Delegate)),
        tokens_of(&shift_forms(
            "Bits",
            "u8",
            "::strong_type::delegation::delegate_shl(self, rhs)",
            "::strong_type::delegation::delegate_shr(self, rhs)",
        ))
    );
    assert_eq!(
        plan_bit_shift(DelegationStrategy::Delegate),
        vec![
            ShiftImpl::Operator {
                direction: ShiftDirection::Left,
                lhs: Operand::Owned,
                strategy: DelegationStrategy::Delegate,
            },
            ShiftImpl::Assignment { direction: ShiftDirection::Left },
            ShiftImpl::Operator {
                direction: ShiftDirection::Right,
                lhs: Operand::Owned,
                strategy: DelegationStrategy::Delegate,
            },
            ShiftImpl::Assignment { direction: ShiftDirection::Right },
            ShiftImpl::Operator {
                direction: ShiftDirection::Left,
                lhs: Operand::Borrowed,
                strategy: DelegationStrategy::Inline,
            },
            ShiftImpl::Operator {
                direction: ShiftDirection::Right,
                lhs: Operand::Borrowed,
                strategy: DelegationStrategy::Inline,
            },
        ]
    );
}

#[test]
fn bit_shifts_for_every_integer_width() {
    assert_eq!(shift_type_names(), SHIFT_TYPES.to_vec());
    let mut expected = String::new();
    let mut delegated = String::new();
    for shift in SHIFT_TYPES {
        expected.push_str(&shift_forms(
            "Bits",
            shift,
            "Self::new(self.value() << rhs)",
            "Self::new(self.value() >> rhs)",
        ));
        delegated.push_str(&shift_forms(
            "Bits",
            shift,
            "::strong_type::delegation::delegate_shl(self, rhs)",
            "::strong_type::delegation::delegate_shr(self, rhs)",
        ));
    }
    assert_eq!(generated(generate_bit_shift_operators("Bits")), tokens_of(&expected));
    assert_eq!(generated(implement_delegated_bit_shift("Bits")), tokens_of(&delegated));

    for (op, method, symbol) in [("BitAnd", "bitand", "&"), ("BitOr", "bitor", "|"), ("BitXor", "bitxor", "^")] {
        expected.push_str(&full_binary("Bits", op, method, symbol, None));
    }
    assert_eq!(
        generated(generate_all_bit_operations("Bits", GenerationMode::Full)),
        tokens_of(&expected)
    );
}

#[test]
fn arithmetic_operators_in_order() {
    let expected = full_binary("Meter", "Add", "add", "+", SUM)
        + &full_binary("Meter", "Sub", "sub", "-", None)
        + &full_binary("Meter", "Mul", "mul", "*", PRODUCT)
        + &full_binary("Meter", "Div", "div", "/", None)
        + &full_binary("Meter", "Rem", "rem", "%", None);
    assert_eq!(
        generated(generate_arithmetic_operators("Meter", GenerationMode::Full)),
        tokens_of(&expected)
    );
    let expected = minimal_binary("Meter", "Add", "add", "+", SUM)
        + &minimal_binary("Meter", "Sub", "sub", "-", None)
        + &minimal_binary("Meter", "Mul", "mul", "*", PRODUCT)
        + &minimal_binary("Meter", "Div", "div", "/", None)
        + &minimal_binary("Meter", "Rem", "rem", "%", None);
    assert_eq!(
        generated(generate_arithmetic_operators("Meter", GenerationMode::Minimal)),
        tokens_of(&expected)
    );
    let expected = delegated_binary("Meter", "Add", "add", "+", SUM)
        + &delegated_binary("Meter", "Sub", "sub", "-", None)
        + &delegated_binary("Meter", "Mul", "mul", "*", PRODUCT)
        + &delegated_binary("Meter", "Div", "div", "/", None)
        + &delegated_binary("Meter", "Rem", "rem", "%", None);
    assert_eq!(generated(implement_delegated_arithmetic("Meter")), tokens_of(&expected));
}

#[test]
fn addable_operators_are_add_and_sub() {
    let expected = full_binary("Meter", "Add", "add", "+", SUM) + &full_binary("Meter", "Sub", "sub", "-", None);
    assert_eq!(
        generated(generate_addable_operators("Meter", GenerationMode::Full)),
        tokens_of(&expected)
    );
}

#[test]
fn bit_and_bool_operators() {
    let bits = full_binary("Flag", "BitAnd", "bitand", "&", None)
        + &full_binary("Flag", "BitOr", "bitor", "|", None)
        + &full_binary("Flag", "BitXor", "bitxor", "^", None);
    assert_eq!(generated(generate_bit_operators("Flag", GenerationMode::Full)), tokens_of(&bits));
    let expected = unary_owned("Flag", "Not", "not", "!") + &unary_borrowed("Flag", "Not", "not", "!") + &bits;
    assert_eq!(generated(generate_bool_operators("Flag", GenerationMode::Full)), tokens_of(&expected));
    let minimal = unary_owned("Flag", "Not", "not", "!")
        + &minimal_binary("Flag", "BitAnd", "bitand", "&", None)
        + &minimal_binary("Flag", "BitOr", "bitor", "|", None)
        + &minimal_binary("Flag", "BitXor", "bitxor", "^", None);
    assert_eq!(generated(generate_bool_operators("Flag", GenerationMode::Minimal)), tokens_of(&minimal));
    let delegated = unary_delegated("Flag", "Not", "not")
        + &unary_borrowed("Flag", "Not", "not", "!")
        + &delegated_binary("Flag", "BitAnd", "bitand", "&", None)
        + &delegated_binary("Flag", "BitOr", "bitor", "|", None)
        + &delegated_binary("Flag", "BitXor", "bitxor", "^", None);
    assert_eq!(generated(implement_delegated_bool_ops("Flag")), tokens_of(&delegated));
}

#[test]
fn strong_type_ops_implementation() {
    let expected = "impl ::strong_type::delegation::StrongTypeOps for Meter {
            type Primitive = i32;

            #[inline(always)]
            fn to_primitive(self) -> Self::Primitive {
                self.0
            }

            #[inline(always)]
            fn from_primitive(val: Self::Primitive) -> Self {
                Self(val)
            }
        }";
    assert_eq!(generated(generate_strong_type_ops_impl("Meter", "i32")), tokens_of(expected));
}

#[test]
fn catalog_descriptors() {
    let add = binary_ops::addition();
    assert_eq!(
        (add.trait_name, add.method, add.op_symbol, add.assign_trait, add.assign_method, add.assign_op_symbol, add.iterator_trait),
        ("Add", "add", "+", "AddAssign", "add_assign", "+=", Some("Sum"))
    );
    let mul = binary_ops::multiplication();
    assert_eq!((mul.trait_name, mul.op_symbol, mul.iterator_trait), ("Mul", "*", Some("Product")));
    for (op, name, symbol) in [
        (binary_ops::subtraction(), "Sub", "-"),
        (binary_ops::division(), "Div", "/"),
        (binary_ops::remainder(), "Rem", "%"),
        (binary_ops::bit_and(), "BitAnd", "&"),
        (binary_ops::bit_or(), "BitOr", "|"),
        (binary_ops::bit_xor(), "BitXor", "^"),
    ] {
        assert_eq!(op.trait_name, name);
        assert_eq!(op.method, name.to_lowercase());
        assert_eq!(op.op_symbol, symbol);
        assert_eq!(op.assign_trait, format!("{}Assign", name));
        assert_eq!(op.assign_method, format!("{}_assign", name.to_lowercase()));
        assert_eq!(op.assign_op_symbol, format!("{}=", symbol));
        assert_eq!(op.iterator_trait, None);
    }
    let neg = unary_ops::negation();
    assert_eq!((neg.trait_name, neg.method, neg.op_symbol), ("Neg", "neg", "-"));
    let not = unary_ops::logical_not();
    assert_eq!((not.trait_name, not.method, not.op_symbol), ("Not", "not", "!"));
    assert!(scalar_ops::multiplication().commutative);
    assert!(!scalar_ops::division().commutative);
    assert!(!scalar_ops::remainder().commutative);
    assert_eq!(scalar_ops::remainder().assign_op_symbol, "%=");
}

#[test]
fn text_that_is_no_token_sequence_is_an_error() {
    assert!(matches!(tokenize("impl Meter {"), Err(StrongTypeError::UnlexableCode)));
    assert!(matches!(
        generate_binary_operator("Meter)", &binary_ops::addition(), GenerationMode::Full),
        Err(StrongTypeError::UnlexableCode)
    ));
    assert!(matches!(
        tokenize_all(&vec!["struct A;\n".to_string(), "(\n".to_string(), "struct B;\n".to_string()]),
        Err(StrongTypeError::UnlexableCode)
    ));
    assert_eq!(
        StrongTypeError::UnlexableCode.message(),
        "The generated code is not a sequence of Rust tokens"
    );
}

#[test]
fn join_puts_the_texts_one_after_the_other() {
    assert_eq!(join(&Vec::new()), "");
    assert_eq!(join(&vec!["struct A;\n".to_string()]), "struct A;\n");
    assert_eq!(
        join(&vec!["struct A;\n".to_string(), String::new(), "struct B;\n".to_string()]),
        "struct A;\nstruct B;\n"
    );
}

#[test]
fn tokenize_all_keeps_the_order_of_the_texts() {
    let stream = tokenize_all(&vec!["struct A;\n".to_string(), "struct B;\n".to_string()]).unwrap();
    assert_eq!(stream.to_string(), tokens_of("struct A; struct B;"));
    let stream = tokenize_all(&Vec::new()).unwrap();
    assert!(stream.is_empty());
    let stream = tokenize("fn f() {}").unwrap();
    assert_eq!(stream.into_iter().count(), 4);
}
