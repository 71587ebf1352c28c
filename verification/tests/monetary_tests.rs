use std::str::FromStr;

use moneta::constants::RoundingMode;
use moneta::money::currency::Currency;
use moneta::money::types::BigDecimal;
use moneta::money::{Monetary, MonetaryContext, MonetaryContextBuilder, MoneyError};

type BigDecimalMoney = Monetary<BigDecimal>;

fn dec(s: &str) -> BigDecimal {
    BigDecimal::from_str(s).unwrap()
}

#[test]
fn test_decimal_money_creation() {
    let money = BigDecimalMoney::new(BigDecimal::new(100, 2), Currency::usd());
    assert_eq!(money.amount, BigDecimal::new(100, 2));
    assert_eq!(money.currency, Currency::usd());
}

#[test]
fn test_currency_mismatch_error() {
    let usd = BigDecimalMoney::new(BigDecimal::new(100, 2), Currency::usd());
    let eur = BigDecimalMoney::new(BigDecimal::new(85, 2), Currency::eur());

    let result = usd.safe_add(&eur);
    assert!(matches!(result, Err(MoneyError::CurrencyMismatch(_, _))));
}

#[test]
fn test_safe_conversion() {
    let decimal_money = BigDecimalMoney::new(BigDecimal::new(100, 2), Currency::usd());
    let result = decimal_money.convert::<BigDecimal>(&dec("1.2"), Currency::eur());
    assert!(result.is_ok());
}

#[test]
fn test_monetary_with_context() {
    let context = MonetaryContext::new(19, 2, RoundingMode::HalfEven);
    let money = BigDecimalMoney::new_with_context(dec("100.50"), Currency::usd(), context);

    assert_eq!(money.context(), &context);
    assert_eq!(money.amount().to_string(), "100.50");
    assert_eq!(money.currency().symbol(), Currency::usd().symbol());
}

#[test]
fn test_monetary_zero_with_context() {
    let context = MonetaryContext::new(19, 4, RoundingMode::Ceiling);
    let zero_money = BigDecimalMoney::zero_with_context(Currency::eur(), context);

    assert!(zero_money.is_zero());
    assert_eq!(zero_money.context(), &context);
    assert_eq!(zero_money.currency(), &Currency::eur());
}

#[test]
fn test_monetary_builder_pattern() {
    let context = MonetaryContext::new(19, 2, RoundingMode::HalfEven);
    let original_money = BigDecimalMoney::new(dec("100.00"), Currency::usd());

    let modified_money = original_money
        .with_context(context)
        .with_currency(Currency::eur())
        .with_amount(dec("85.00"));

    assert_eq!(modified_money.context(), &context);
    assert_eq!(modified_money.currency(), &Currency::eur());
    assert_eq!(modified_money.amount().to_string(), "85.00");
}

#[test]
fn test_monetary_abs_and_negate() {
    let positive = BigDecimalMoney::new(dec("100.00"), Currency::usd());
    let negative = BigDecimalMoney::new(dec("-50.00"), Currency::usd());

    let abs_positive = positive.abs().unwrap();
    let abs_negative = negative.abs().unwrap();
    assert_eq!(abs_positive.amount().to_string(), "100.00");
    assert_eq!(abs_negative.amount().to_string(), "50.00");

    let neg_positive = positive.negate();
    let neg_negative = negative.negate();
    assert_eq!(neg_positive.amount().to_string(), "-100.00");
    assert_eq!(neg_negative.amount().to_string(), "50.00");
}

#[test]
fn test_monetary_compatibility_check() {
    let usd_money = BigDecimalMoney::new(dec("100.00"), Currency::usd());
    let eur_money = BigDecimalMoney::new(dec("85.00"), Currency::eur());
    let other_usd_money = BigDecimalMoney::new(dec("50.00"), Currency::usd());

    assert!(usd_money.is_compatible_with(&other_usd_money));
    assert!(!usd_money.is_compatible_with(&eur_money));
}

#[test]
fn test_monetary_safe_arithmetic() {
    let money1 = BigDecimalMoney::new(dec("100.00"), Currency::usd());
    let money2 = BigDecimalMoney::new(dec("50.00"), Currency::usd());
    let eur_money = BigDecimalMoney::new(dec("85.00"), Currency::eur());

    let sum = money1.safe_add(&money2).unwrap();
    assert_eq!(sum.amount().to_string(), "150.00");
    assert_eq!(sum.currency(), &Currency::usd());

    let diff = money1.safe_subtract(&money2).unwrap();
    assert_eq!(diff.amount().to_string(), "50.00");

    assert!(money1.safe_add(&eur_money).is_err());
    assert!(money1.safe_subtract(&eur_money).is_err());
}

#[test]
fn test_monetary_scalar_operations() {
    let money = BigDecimalMoney::new(dec("100.00"), Currency::usd());
    let scalar = dec("2.5");

    let product = money.multiply_by(scalar);
    assert_eq!(product.amount().to_string(), "250.00000000");
    assert_eq!(product.currency(), &Currency::usd());

    let quotient = money.divide_by(dec("4.0")).unwrap();
    assert_eq!(quotient.amount().to_string(), "25.00000000");
}

#[test]
fn test_monetary_divide_by_zero_reported() {
    let money = BigDecimalMoney::new(dec("100.00"), Currency::usd());
    let result = money.divide_by(BigDecimal::zero());
    assert!(matches!(result, Err(MoneyError::DivisionByZero)));
}

#[test]
fn test_monetary_percentage_operations() {
    let money = BigDecimalMoney::new(dec("100.00"), Currency::usd());

    // Increase by 20%; the default context rounds to six places.
    let increased = money.apply_percentage(&dec("20")).unwrap();
    assert_eq!(increased.amount().to_string(), "120.000000");

    // 20% of the amount.
    let percentage = money.percentage_of(&dec("20")).unwrap();
    assert_eq!(percentage.amount().to_string(), "20.000000");

    // Decrease by 10%.
    let decreased = money.apply_percentage(&dec("-10")).unwrap();
    assert_eq!(decreased.amount().to_string(), "90.000000");
}

#[test]
fn test_monetary_percentage_operations_with_context() {
    let context = MonetaryContextBuilder::currency_precision()
        .with_rounding_mode(RoundingMode::HalfUp)
        .build();

    let initial_money =
        BigDecimalMoney::new_with_context(dec("100.555"), Currency::usd(), context);

    // 100.555 * 1.10 = 110.6105 -> 110.61 at scale 2, HalfUp.
    let increased = initial_money.apply_percentage(&dec("10")).unwrap();
    assert_eq!(increased.amount().to_string(), "110.61");
    assert_eq!(increased.currency(), &Currency::usd());
    assert_eq!(increased.context(), &context);

    // 100.555 * 0.20 = 20.111 -> 20.11.
    let percentage_of_amount = initial_money.percentage_of(&dec("20")).unwrap();
    assert_eq!(percentage_of_amount.amount().to_string(), "20.11");
    assert_eq!(percentage_of_amount.currency(), &Currency::usd());
    assert_eq!(percentage_of_amount.context(), &context);

    // 100.555 * 0.95 = 95.52725 -> 95.53.
    let decreased = initial_money.apply_percentage(&dec("-5")).unwrap();
    assert_eq!(decreased.amount().to_string(), "95.53");
    assert_eq!(decreased.currency(), &Currency::usd());
    assert_eq!(decreased.context(), &context);

    // 100.005 * 1.0 = 100.005 -> 100.01 with HalfUp.
    let another_money =
        BigDecimalMoney::new_with_context(dec("100.005"), Currency::usd(), context);
    let no_change_rounded = another_money.apply_percentage(&dec("0")).unwrap();
    assert_eq!(no_change_rounded.amount().to_string(), "100.01");
}

#[test]
fn test_monetary_context_conversion_with_precision() {
    let high_precision_context = MonetaryContextBuilder::high_precision().build();
    let currency_context = MonetaryContextBuilder::currency_precision().build();

    let money = BigDecimalMoney::new_with_context(
        dec("100.123456789"),
        Currency::usd(),
        high_precision_context,
    );

    let currency_money = money.with_context(currency_context);
    assert_eq!(currency_money.context(), &currency_context);

    let rounded_money = currency_money.apply_context().unwrap();
    assert_eq!(rounded_money.context(), &currency_context);
    assert_eq!(rounded_money.amount().to_string(), "100.12");
}

#[test]
fn test_monetary_conversion_with_context_preservation() {
    let context = MonetaryContext::new(19, 4, RoundingMode::Ceiling);
    let usd_money = BigDecimalMoney::new_with_context(dec("100.00"), Currency::usd(), context);

    let eur_money = usd_money.convert::<BigDecimal>(&dec("0.85"), Currency::eur()).unwrap();
    assert_eq!(eur_money.context(), &context);
    assert_eq!(eur_money.currency(), &Currency::eur());

    let same_money = usd_money.as_type::<BigDecimal>().unwrap();
    assert_eq!(same_money.context(), &context);
    assert_eq!(same_money.currency(), &Currency::usd());
}

#[test]
fn test_monetary_complex_operations_with_context() {
    let context = MonetaryContextBuilder::currency_precision()
        .with_rounding_mode(RoundingMode::HalfUp)
        .build();

    let principal = BigDecimalMoney::new_with_context(dec("1000.00"), Currency::usd(), context);

    // Compound interest at 5% over three years.
    let mut amount = principal;
    for _ in 0..3 {
        amount = amount.apply_percentage(&dec("5")).unwrap();
    }

    assert_eq!(amount.context(), &context);
    assert_eq!(amount.currency(), &Currency::usd());

    // 1000 * 1.05^3 = 1157.625, rounded to 1157.63 at scale 2, HalfUp.
    assert_eq!(amount.amount().to_string(), "1157.63");
}

#[test]
fn test_monetary_invalid_rate_rejected() {
    let money = BigDecimalMoney::new(dec("100.00"), Currency::usd());
    let result = money.convert::<BigDecimal>(&dec("0"), Currency::eur());
    assert!(matches!(result, Err(MoneyError::InvalidExchangeRate(_))));
    let result = money.convert::<BigDecimal>(&dec("-1.5"), Currency::eur());
    assert!(matches!(result, Err(MoneyError::InvalidExchangeRate(_))));
}

#[test]
fn test_zero_addition_identity() {
    // The zero of a currency is the identity of addition, on both sides.
    let x = BigDecimalMoney::new(dec("123.45"), Currency::usd());
    let z = BigDecimalMoney::zero(Currency::usd());

    let left = z.safe_add(&x).unwrap();
    assert_eq!(left.amount(), x.amount());
    assert_eq!(left.currency(), &Currency::usd());

    let right = x.safe_add(&z).unwrap();
    assert_eq!(right.amount(), x.amount());
    assert_eq!(right.currency(), &Currency::usd());
}

#[test]
fn test_add_subtract_round_trip() {
    // (x + y) - y restores x exactly in the fixed-point backing.
    let x = BigDecimalMoney::new(dec("123.45"), Currency::usd());
    let y = BigDecimalMoney::new(dec("0.055"), Currency::usd());

    let sum = x.safe_add(&y).unwrap();
    let back = sum.safe_subtract(&y).unwrap();
    assert_eq!(back.amount(), x.amount());
    assert_eq!(back.currency(), x.currency());
}

#[test]
fn test_negate_twice_and_abs_signs() {
    let d = dec("-12.355");
    assert_eq!(d.negate().negate(), d);
    assert!(!d.abs().is_negative());
    assert!(d.signum() == -1 || d.signum() == 0 || d.signum() == 1);
}
