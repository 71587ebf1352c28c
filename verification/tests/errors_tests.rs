use moneta::errors::CurrencyError;

#[test]
fn test_unknown_currency() {
    let err = CurrencyError::unknown_currency("XYZ");
    assert_eq!(err.category(), "UnknownCurrency");
    assert!(!err.is_recoverable());
    assert_eq!(err.to_string(), "Unknown currency code: XYZ");
}

#[test]
fn test_currency_mismatch_with_operation() {
    let err = CurrencyError::currency_mismatch_with_operation("USD", "EUR", "addition");
    assert_eq!(err.category(), "CurrencyMismatch");
    assert_eq!(err.to_string(), "Currency mismatch in addition: expected 'USD', got 'EUR'");
}

#[test]
fn test_conversion_error() {
    let err = CurrencyError::conversion_error("USD", "EUR", "No exchange rate available");
    assert!(err.is_recoverable());
    assert_eq!(
        err.to_string(),
        "Currency conversion error from 'USD' to 'EUR': No exchange rate available"
    );
}

#[test]
fn test_invalid_format_with_input() {
    let err = CurrencyError::invalid_format_with_input("Expected numeric value", "$abc");
    assert_eq!(err.to_string(), "Invalid currency format: Expected numeric value (input: '$abc')");
}

#[test]
fn test_error_constructors_carry_fields() {
    let err = CurrencyError::unknown_currency_with_context("ZZZ", "parsing");
    assert_eq!(err.to_string(), "Unknown currency code 'ZZZ' in context: parsing");

    let err = CurrencyError::invalid_format("broken");
    assert_eq!(err.to_string(), "Invalid currency format: broken");

    let err = CurrencyError::currency_mismatch("USD", "EUR");
    assert_eq!(err.to_string(), "Currency mismatch: expected 'USD', got 'EUR'");

    let err = CurrencyError::invalid_amount("abc", "not a number");
    assert_eq!(err.to_string(), "Invalid currency amount 'abc': not a number");
    assert_eq!(err.category(), "InvalidAmount");
}
