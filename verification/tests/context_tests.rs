use std::str::FromStr;

use moneta::constants::RoundingMode;
use moneta::money::currency::Currency;
use moneta::money::types::BigDecimal;
use moneta::money::{Monetary, MonetaryContext, MonetaryContextBuilder};

type BigDecimalMoney = Monetary<BigDecimal>;

#[test]
fn test_monetary_context_creation() {
    let context = MonetaryContext::new(19, 2, RoundingMode::HalfEven);
    assert_eq!(context.precision(), 19);
    assert_eq!(context.max_scale(), 2);
    assert_eq!(context.rounding_mode(), &RoundingMode::HalfEven);
}

#[test]
fn test_monetary_context_default() {
    let context = MonetaryContext::default();
    assert_eq!(context.precision(), 19);
    assert_eq!(context.max_scale(), 6);
    assert_eq!(context.rounding_mode(), &RoundingMode::HalfEven);
}

#[test]
fn test_monetary_context_rounding() {
    let context = MonetaryContext::new(19, 2, RoundingMode::HalfEven);

    let bd = BigDecimal::from_str("123.456").unwrap();
    let rounded = context.round_bigdecimal(&bd);
    assert_eq!(rounded.to_string(), "123.46");
    assert_eq!(rounded.scale(), 2);

    let context_up = MonetaryContext::new(19, 2, RoundingMode::Up);
    let rounded_up = context_up.round_bigdecimal(&bd);
    assert_eq!(rounded_up.to_string(), "123.46");
}

#[test]
fn test_monetary_context_equality() {
    let context1 = MonetaryContext::new(19, 2, RoundingMode::HalfEven);
    let context2 = MonetaryContext::new(19, 2, RoundingMode::HalfEven);
    let context3 = MonetaryContext::new(19, 3, RoundingMode::HalfEven);

    assert_eq!(context1, context2);
    assert_ne!(context1, context3);
}

#[test]
fn test_monetary_context_builder_default() {
    let context = MonetaryContext::builder().build();
    assert_eq!(context.precision(), 19);
    assert_eq!(context.max_scale(), 6);
    assert_eq!(context.rounding_mode(), &RoundingMode::HalfEven);
}

#[test]
fn test_monetary_context_builder_custom() {
    let context = MonetaryContext::builder()
        .with_precision(34)
        .with_max_scale(4)
        .with_rounding_mode(RoundingMode::Ceiling)
        .build();

    assert_eq!(context.precision(), 34);
    assert_eq!(context.max_scale(), 4);
    assert_eq!(context.rounding_mode(), &RoundingMode::Ceiling);
}

#[test]
fn test_monetary_context_builder_partial() {
    let context = MonetaryContext::builder().with_precision(25).build();

    assert_eq!(context.precision(), 25);
    assert_eq!(context.max_scale(), 6);
    assert_eq!(context.rounding_mode(), &RoundingMode::HalfEven);
}

#[test]
fn test_monetary_context_builder_presets() {
    let high_precision = MonetaryContextBuilder::high_precision().build();
    assert_eq!(high_precision.precision(), 34);
    assert_eq!(high_precision.max_scale(), 10);
    assert_eq!(high_precision.rounding_mode(), &RoundingMode::HalfEven);

    let currency_precision = MonetaryContextBuilder::currency_precision().build();
    assert_eq!(currency_precision.precision(), 19);
    assert_eq!(currency_precision.max_scale(), 2);
    assert_eq!(currency_precision.rounding_mode(), &RoundingMode::HalfEven);

    let scientific_precision = MonetaryContextBuilder::scientific_precision().build();
    assert_eq!(scientific_precision.precision(), 50);
    assert_eq!(scientific_precision.max_scale(), 15);
    assert_eq!(scientific_precision.rounding_mode(), &RoundingMode::HalfEven);
}

#[test]
fn test_monetary_context_builder_chaining() {
    let context = MonetaryContextBuilder::new()
        .with_precision(20)
        .with_max_scale(3)
        .with_rounding_mode(RoundingMode::Floor)
        .build();

    assert_eq!(context.precision(), 20);
    assert_eq!(context.max_scale(), 3);
    assert_eq!(context.rounding_mode(), &RoundingMode::Floor);
}

#[test]
fn test_monetary_sign_checks() {
    let positive = BigDecimalMoney::new(BigDecimal::from_str("100.00").unwrap(), Currency::usd());
    let negative = BigDecimalMoney::new(BigDecimal::from_str("-50.00").unwrap(), Currency::usd());
    let zero = BigDecimalMoney::zero(Currency::usd());

    assert!(positive.is_positive());
    assert!(!positive.is_negative());
    assert!(!positive.is_zero());

    assert!(!negative.is_positive());
    assert!(negative.is_negative());
    assert!(!negative.is_zero());

    assert!(!zero.is_positive());
    assert!(!zero.is_negative());
    assert!(zero.is_zero());
}
