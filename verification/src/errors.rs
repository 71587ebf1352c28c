//! Error types for currency handling and exchange-rate conversion.

use vstd::prelude::*;

verus! {

/// Errors raised by currency lookup, parsing, and arithmetic.
#[derive(Debug, Clone, PartialEq, Eq)]
pub enum CurrencyError {
    /// Unknown or unsupported currency code.
    UnknownCurrency { code: String, context: Option<String> },
    /// Invalid currency format or parsing error.
    InvalidFormat { message: String, input: Option<String> },
    /// Currency mismatch in an operation.
    CurrencyMismatch { expected: String, actual: String, operation: Option<String> },
    /// Conversion error between currencies.
    ConversionError { from: String, to: String, reason: String },
    /// Invalid currency amount.
    InvalidAmount { amount: String, reason: String },
}

impl CurrencyError {
    pub fn unknown_currency(code: &str) -> (r: Self)
        ensures
            (r matches CurrencyError::UnknownCurrency { code: c, context } && c@ == code@
                && context is None),
    {
        CurrencyError::UnknownCurrency { code: code.to_owned(), context: None }
    }

    pub fn unknown_currency_with_context(code: &str, context: &str) -> (r: Self)
        ensures
            (r matches CurrencyError::UnknownCurrency { code: c, context: x } && c@ == code@ && (
            x matches Some(x) && x@ == context@)),
    {
        CurrencyError::UnknownCurrency { code: code.to_owned(), context: Some(context.to_owned()) }
    }

    pub fn invalid_format(message: &str) -> (r: Self)
        ensures
            (r matches CurrencyError::InvalidFormat { message: m, input } && m@ == message@
                && input is None),
    {
        CurrencyError::InvalidFormat { message: message.to_owned(), input: None }
    }

    pub fn invalid_format_with_input(message: &str, input: &str) -> (r: Self)
        ensures
            (r matches CurrencyError::InvalidFormat { message: m, input: x } && m@ == message@ && (
            x matches Some(x) && x@ == input@)),
    {
        CurrencyError::InvalidFormat { message: message.to_owned(), input: Some(input.to_owned()) }
    }

    pub fn currency_mismatch(expected: &str, actual: &str) -> (r: Self)
        ensures
            (r matches CurrencyError::CurrencyMismatch { expected: e, actual: a, operation } && e@
                == expected@ && a@ == actual@ && operation is None),
    {
        CurrencyError::CurrencyMismatch {
            expected: expected.to_owned(),
            actual: actual.to_owned(),
            operation: None,
        }
    }

    pub fn currency_mismatch_with_operation(expected: &str, actual: &str, operation: &str) -> (r:
        Self)
        ensures
            (r matches CurrencyError::CurrencyMismatch { expected: e, actual: a, operation: o }
                && e@ == expected@ && a@ == actual@ && (o matches Some(o) && o@ == operation@)),
    {
        CurrencyError::CurrencyMismatch {
            expected: expected.to_owned(),
            actual: actual.to_owned(),
            operation: Some(operation.to_owned()),
        }
    }

    pub fn conversion_error(from: &str, to: &str, reason: &str) -> (r: Self)
        ensures
            (r matches CurrencyError::ConversionError { from: f, to: t, reason: w } && f@ == from@
                && t@ == to@ && w@ == reason@),
    {
        CurrencyError::ConversionError {
            from: from.to_owned(),
            to: to.to_owned(),
            reason: reason.to_owned(),
        }
    }

    pub fn invalid_amount(amount: &str, reason: &str) -> (r: Self)
        ensures
            (r matches CurrencyError::InvalidAmount { amount: a, reason: w } && a@ == amount@ && w@
                == reason@),
    {
        CurrencyError::InvalidAmount { amount: amount.to_owned(), reason: reason.to_owned() }
    }

    /// The error category, as a short static name.
    pub fn category(&self) -> (r: &'static str)
        ensures
            self is UnknownCurrency ==> r@ == "UnknownCurrency"@,
            self is InvalidFormat ==> r@ == "InvalidFormat"@,
            self is CurrencyMismatch ==> r@ == "CurrencyMismatch"@,
            self is ConversionError ==> r@ == "ConversionError"@,
            self is InvalidAmount ==> r@ == "InvalidAmount"@,
    {
        match self {
            Self::UnknownCurrency { .. } => "UnknownCurrency",
            Self::InvalidFormat { .. } => "InvalidFormat",
            Self::CurrencyMismatch { .. } => "CurrencyMismatch",
            Self::ConversionError { .. } => "ConversionError",
            Self::InvalidAmount { .. } => "InvalidAmount",
        }
    }

    /// Whether a retry can succeed: only conversion errors are worth
    /// retrying, with different rates.
    pub fn is_recoverable(&self) -> (r: bool)
        ensures
            r == (self is ConversionError),
    {
        match self {
            Self::ConversionError { .. } => true,
            _ => false,
        }
    }

    /// A human-readable description of the error.
    pub fn to_string(&self) -> (r: String)
        ensures
            r@.len() > 0,
            (self matches CurrencyError::UnknownCurrency { code, context: None } ==> r@
                == "Unknown currency code: "@ + code@),
            (self matches CurrencyError::UnknownCurrency { code, context: Some(ctx) } ==> r@
                == "Unknown currency code '"@ + code@ + "' in context: "@ + ctx@),
            (self matches CurrencyError::InvalidFormat { message, input: None } ==> r@
                == "Invalid currency format: "@ + message@),
            (self matches CurrencyError::InvalidFormat { message, input: Some(inp) } ==> r@
                == "Invalid currency format: "@ + message@ + " (input: '"@ + inp@ + "')"@),
            (self matches CurrencyError::CurrencyMismatch { expected, actual, operation: None }
                ==> r@ == "Currency mismatch"@ + ": expected '"@ + expected@ + "', got '"@
                + actual@ + "'"@),
            (self matches CurrencyError::CurrencyMismatch {
                expected,
                actual,
                operation: Some(op),
            } ==> r@ == "Currency mismatch"@ + " in "@ + op@ + ": expected '"@ + expected@
                + "', got '"@ + actual@ + "'"@),
            (self matches CurrencyError::ConversionError { from, to, reason } ==> r@
                == "Currency conversion error from '"@ + from@ + "' to '"@ + to@ + "': "@
                + reason@),
            (self matches CurrencyError::InvalidAmount { amount, reason } ==> r@
                == "Invalid currency amount '"@ + amount@ + "': "@ + reason@),
    {
        proof {
            reveal_strlit("Unknown currency code: ");
            reveal_strlit("Unknown currency code '");
            reveal_strlit("Invalid currency format: ");
            reveal_strlit("Currency mismatch");
            reveal_strlit("Currency conversion error from '");
            reveal_strlit("Invalid currency amount '");
        }
        let mut out = String::new();
        match self {
            Self::UnknownCurrency { code, context } => {
                match context {
                    Some(ctx) => {
                        out.append("Unknown currency code '");
                        out.append(code.as_str());
                        out.append("' in context: ");
                        out.append(ctx.as_str());
                    },
                    None => {
                        out.append("Unknown currency code: ");
                        out.append(code.as_str());
                    },
                }
            },
            Self::InvalidFormat { message, input } => {
                out.append("Invalid currency format: ");
                out.append(message.as_str());
                match input {
                    Some(inp) => {
                        out.append(" (input: '");
                        out.append(inp.as_str());
                        out.append("')");
                    },
                    None => {},
                }
            },
            Self::CurrencyMismatch { expected, actual, operation } => {
                out.append("Currency mismatch");
                match operation {
                    Some(op) => {
                        out.append(" in ");
                        out.append(op.as_str());
                    },
                    None => {},
                }
                out.append(": expected '");
                out.append(expected.as_str());
                out.append("', got '");
                out.append(actual.as_str());
                out.append("'");
            },
            Self::ConversionError { from, to, reason } => {
                out.append("Currency conversion error from '");
                out.append(from.as_str());
                out.append("' to '");
                out.append(to.as_str());
                out.append("': ");
                out.append(reason.as_str());
            },
            Self::InvalidAmount { amount, reason } => {
                out.append("Invalid currency amount '");
                out.append(amount.as_str());
                out.append("': ");
                out.append(reason.as_str());
            },
        }
        out
    }
}

/// Errors raised by the exchange subsystem.
#[derive(Debug, Clone, Copy, PartialEq, Eq, Structural)]
pub enum ExchangeError {
    /// The amount's currency is not the rate's base currency.
    CurrencyMismatch,
    /// No provider in the chain had a rate for the pair.
    NoRateFound,
    /// The rate's time-to-live elapsed before use.
    ExpiredRate,
    /// The rate factor is unusable.
    InvalidRate,
    /// An upstream provider failed.
    ProviderError,
    /// A numeric conversion between backing types failed.
    ConversionError,
}

impl ExchangeError {
    /// A human-readable description of the error.
    pub fn to_string(&self) -> (r: String)
        ensures
            r@.len() > 0,
            self is CurrencyMismatch ==> r@ == "Currency mismatch for exchange rate"@,
            self is NoRateFound ==> r@ == "No exchange rate found"@,
            self is ExpiredRate ==> r@ == "Exchange rate has expired"@,
            self is InvalidRate ==> r@ == "Invalid exchange rate"@,
            self is ProviderError ==> r@ == "Exchange rate provider error"@,
            self is ConversionError ==> r@ == "Type conversion error"@,
    {
        proof {
            reveal_strlit("Currency mismatch for exchange rate");
            reveal_strlit("No exchange rate found");
            reveal_strlit("Exchange rate has expired");
            reveal_strlit("Invalid exchange rate");
            reveal_strlit("Exchange rate provider error");
            reveal_strlit("Type conversion error");
        }
        let mut out = String::new();
        match self {
            Self::CurrencyMismatch => out.append("Currency mismatch for exchange rate"),
            Self::NoRateFound => out.append("No exchange rate found"),
            Self::ExpiredRate => out.append("Exchange rate has expired"),
            Self::InvalidRate => out.append("Invalid exchange rate"),
            Self::ProviderError => out.append("Exchange rate provider error"),
            Self::ConversionError => out.append("Type conversion error"),
        }
        out
    }
}

/// Convenience alias for results carrying a [`CurrencyError`].
pub type CurrencyResult<T> = Result<T, CurrencyError>;

} // verus!
