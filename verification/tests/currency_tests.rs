use std::str::FromStr;

use moneta::errors::CurrencyError;
use moneta::money::currency::Currency;

#[test]
fn test_currency_creation() {
    let usd = Currency::usd();
    assert_eq!(usd.code(), "USD");
    assert_eq!(usd.numeric_code(), 840);
    assert_eq!(usd.precision(), 2);
    assert_eq!(usd.symbol(), "$");
}

#[test]
fn test_currency_from_code() {
    let eur = Currency::from_code("EUR").unwrap();
    assert_eq!(eur.code(), "EUR");
    assert_eq!(eur.symbol(), "\u{20ac}");

    let invalid = Currency::from_code("INVALID");
    assert!(invalid.is_none());
}

#[test]
fn test_currency_from_str() {
    let gbp: Currency = "GBP".parse().unwrap();
    assert_eq!(gbp.code(), "GBP");
    assert_eq!(gbp.symbol(), "\u{a3}");

    let invalid: Result<Currency, _> = "INVALID".parse();
    assert!(invalid.is_err());
    assert_eq!(
        invalid.unwrap_err(),
        CurrencyError::UnknownCurrency { code: "INVALID".to_string(), context: None }
    );
}

#[test]
fn test_currency_comparison() {
    let usd1 = Currency::usd();
    let usd2 = Currency::usd();
    let eur = Currency::eur();

    assert!(usd1.same_currency(&usd2));
    assert!(!usd1.same_currency(&eur));
}

#[test]
fn test_currency_types() {
    let usd = Currency::usd();
    let btc = Currency::btc();
    let xau = Currency::xau();
    let doge = Currency::doge();
    let xpt = Currency::xpt();

    assert!(usd.is_fiat());
    assert!(!usd.is_cryptocurrency());
    assert!(!usd.is_precious_metal());

    assert!(btc.is_cryptocurrency());
    assert!(!btc.is_fiat());
    assert!(!btc.is_precious_metal());
    assert!(doge.is_cryptocurrency());

    assert!(xau.is_precious_metal());
    assert!(!xau.is_fiat());
    assert!(!xau.is_cryptocurrency());
    assert!(xpt.is_precious_metal());
}

#[test]
fn test_currency_registry() {
    assert!(Currency::is_supported("USD"));
    assert!(Currency::is_supported("EUR"));
    assert!(Currency::is_supported("NZD"));
    assert!(Currency::is_supported("BTC"));
    assert!(Currency::is_supported("XAU"));
    assert!(!Currency::is_supported("INVALID"));

    let usd_by_numeric = Currency::from_numeric_code(840).unwrap();
    assert_eq!(usd_by_numeric.code(), "USD");

    let jpy_by_numeric = Currency::from_numeric_code(392).unwrap();
    assert_eq!(jpy_by_numeric.code(), "JPY");

    let rub_by_numeric = Currency::from_numeric_code(643).unwrap();
    assert_eq!(rub_by_numeric.code(), "RUB");
}

#[test]
fn test_custom_symbol() {
    let custom_usd = Currency::with_symbol("USD", "US$").unwrap();
    assert_eq!(custom_usd.code(), "USD");
    assert_eq!(custom_usd.symbol(), "US$");
}

#[test]
fn test_formatting() {
    let usd = Currency::usd();
    assert_eq!(usd.code(), "USD");
    assert_eq!(usd.format_with_symbol(true), "$ USD");
    assert_eq!(usd.format_with_symbol(false), "$");

    let jpy = Currency::jpy();
    assert_eq!(jpy.format_with_symbol(true), "\u{a5} JPY");
}

#[test]
fn test_all_available_currencies() {
    let all_currencies = Currency::available_currencies();
    assert!(!all_currencies.is_empty());
    assert!(all_currencies.iter().any(|c| c.code() == "USD"));
    assert!(all_currencies.iter().any(|c| c.code() == "BTC"));
    assert!(all_currencies.iter().any(|c| c.code() == "HKD"));
    assert!(all_currencies.iter().any(|c| c.code() == "XPT"));
}

#[test]
fn test_get_unit() {
    let usd_currency = Currency::usd();
    let usd_unit = usd_currency.get_unit();
    assert_eq!(usd_unit.get_code(), "USD");
    assert_eq!(usd_unit.get_numeric_code(), 840);
}

#[test]
fn test_case_insensitive_lookup() {
    let usd = Currency::from_code("usd").unwrap();
    assert_eq!(usd.code(), "USD");
    let mixed = Currency::from_code("bTc").unwrap();
    assert_eq!(mixed.code(), "BTC");
    assert!(Currency::is_supported("jpy"));
}
