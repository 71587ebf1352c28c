//! Core monetary model: the fixed-point decimal substrate, currency
//! descriptors, the monetary context, and the generic monetary value.

pub mod currency;
pub mod currency_unit;
pub mod types;

use vstd::prelude::*;
use crate::constants::RoundingMode;
use crate::money::currency::Currency;
use crate::money::currency::currency_eq;
use crate::money::types::BigDecimal;

verus! {

/// Errors raised by monetary arithmetic and numeric conversion.
#[derive(Debug, Clone, PartialEq)]
pub enum MoneyError {
    /// A conversion between backing types failed.
    ConversionError(String),
    /// An operation mixed two different currencies.
    CurrencyMismatch(Currency, Currency),
    /// A conversion rate at or below zero.
    InvalidExchangeRate(BigDecimal),
    /// A value that the target type cannot represent exactly.
    PrecisionLoss,
    /// A scalar division by zero.
    DivisionByZero,
}

impl MoneyError {
    /// A human-readable description of the error.
    pub fn to_string(&self) -> (r: String)
        ensures
            r@.len() > 0,
            (self matches MoneyError::ConversionError(msg) ==> r@ == "Conversion error: "@
                + msg@),
            (self matches MoneyError::CurrencyMismatch(c1, c2) ==> r@ == "Currency mismatch: "@
                + c1.spec_code() + " vs "@ + c2.spec_code()),
            (self matches MoneyError::InvalidExchangeRate(rate) ==> r@
                == "Invalid exchange rate: "@ + rate.spec_format()),
            self is PrecisionLoss ==> r@ == "Precision loss in conversion"@,
            self is DivisionByZero ==> r@ == "Division by zero"@,
    {
        proof {
            reveal_strlit("Conversion error: ");
            reveal_strlit("Currency mismatch: ");
            reveal_strlit("Invalid exchange rate: ");
            reveal_strlit("Precision loss in conversion");
            reveal_strlit("Division by zero");
        }
        let mut out = String::new();
        match self {
            Self::ConversionError(msg) => {
                out.append("Conversion error: ");
                out.append(msg.as_str());
            },
            Self::CurrencyMismatch(c1, c2) => {
                out.append("Currency mismatch: ");
                out.append(c1.code());
                out.append(" vs ");
                out.append(c2.code());
            },
            Self::InvalidExchangeRate(rate) => {
                out.append("Invalid exchange rate: ");
                let t = rate.to_string();
                out.append(t.as_str());
            },
            Self::PrecisionLoss => {
                out.append("Precision loss in conversion");
            },
            Self::DivisionByZero => {
                out.append("Division by zero");
            },
        }
        out
    }
}

/// How results of context-sensitive operations are rounded:
/// a precision, a maximum scale, and a rounding mode.
#[derive(Debug, Clone, Copy, PartialEq, Eq, Structural)]
pub struct MonetaryContext {
    pub precision: u32,
    pub max_scale: i32,
    pub rounding_mode: RoundingMode,
}

impl MonetaryContext {
    /// The default context: 19 digits of precision, scale at most 6,
    /// banker's rounding.
    pub open spec fn spec_default() -> MonetaryContext {
        MonetaryContext { precision: 19, max_scale: 6, rounding_mode: RoundingMode::HalfEven }
    }

    pub fn new(precision: u32, max_scale: i32, rounding_mode: RoundingMode) -> (r: Self)
        ensures
            r == (MonetaryContext { precision, max_scale, rounding_mode }),
    {
        Self { precision, max_scale, rounding_mode }
    }

    pub fn builder() -> (r: MonetaryContextBuilder)
        ensures
            r == (MonetaryContextBuilder {
                precision: None::<u32>,
                max_scale: None::<i32>,
                rounding_mode: None::<RoundingMode>,
            }),
    {
        MonetaryContextBuilder { precision: None, max_scale: None, rounding_mode: None }
    }

    pub fn precision(&self) -> (r: u32)
        ensures
            r == self.precision,
    {
        self.precision
    }

    pub fn max_scale(&self) -> (r: i32)
        ensures
            r == self.max_scale,
    {
        self.max_scale
    }

    pub fn rounding_mode(&self) -> (r: &RoundingMode)
        ensures
            r == self.rounding_mode,
    {
        &self.rounding_mode
    }

    /// Round any backing value to this context: the backing type's own
    /// context rounding, packaged as a fallible conversion.
    pub fn apply_precision<T: Monetizable>(&self, value: T) -> (r: Result<T, MoneyError>)
        requires
            value.round_ok(*self),
        ensures
            r == Ok::<T, MoneyError>(value.round_spec(*self)),
    {
        Ok(value.round_to(self))
    }

    /// Round a decimal to this context's maximum scale with this
    /// context's rounding mode.
    pub fn round_bigdecimal(&self, value: &BigDecimal) -> (r: BigDecimal)
        requires
            value.can_rescale(self.max_scale as int, self.rounding_mode),
        ensures
            r == value.spec_rescaled(self.max_scale as int, self.rounding_mode),
    {
        value.with_scale(self.max_scale, &self.rounding_mode)
    }
}

impl Default for MonetaryContext {
    fn default() -> (r: Self)
        ensures
            r == MonetaryContext::spec_default(),
    {
        Self { precision: 19, max_scale: 6, rounding_mode: RoundingMode::HalfEven }
    }
}

/// Builds a [`MonetaryContext`]; omitted fields take the defaults.
#[derive(Debug, Clone, PartialEq, Eq, Structural)]
pub struct MonetaryContextBuilder {
    pub precision: Option<u32>,
    pub max_scale: Option<i32>,
    pub rounding_mode: Option<RoundingMode>,
}

impl MonetaryContextBuilder {
    /// The context this builder produces.
    pub open spec fn spec_built(self) -> MonetaryContext {
        MonetaryContext {
            precision: if self.precision is Some {
                self.precision->0
            } else {
                19
            },
            max_scale: if self.max_scale is Some {
                self.max_scale->0
            } else {
                6
            },
            rounding_mode: if self.rounding_mode is Some {
                self.rounding_mode->0
            } else {
                RoundingMode::HalfEven
            },
        }
    }

    pub fn new() -> (r: Self)
        ensures
            r == (MonetaryContextBuilder {
                precision: None::<u32>,
                max_scale: None::<i32>,
                rounding_mode: None::<RoundingMode>,
            }),
    {
        Self { precision: None, max_scale: None, rounding_mode: None }
    }

    pub fn with_precision(self, precision: u32) -> (r: Self)
        ensures
            r == (MonetaryContextBuilder { precision: Some(precision), ..self }),
    {
        Self { precision: Some(precision), ..self }
    }

    pub fn with_max_scale(self, max_scale: i32) -> (r: Self)
        ensures
            r == (MonetaryContextBuilder { max_scale: Some(max_scale), ..self }),
    {
        Self { max_scale: Some(max_scale), ..self }
    }

    pub fn with_rounding_mode(self, rounding_mode: RoundingMode) -> (r: Self)
        ensures
            r == (MonetaryContextBuilder { rounding_mode: Some(rounding_mode), ..self }),
    {
        Self { rounding_mode: Some(rounding_mode), ..self }
    }

    pub fn build(self) -> (r: MonetaryContext)
        ensures
            r == self.spec_built(),
    {
        MonetaryContext {
            precision: match self.precision {
                Some(p) => p,
                None => 19,
            },
            max_scale: match self.max_scale {
                Some(s) => s,
                None => 6,
            },
            rounding_mode: match self.rounding_mode {
                Some(m) => m,
                None => RoundingMode::HalfEven,
            },
        }
    }

    /// 34 digits, scale at most 10, banker's rounding.
    pub fn high_precision() -> (r: Self)
        ensures
            r == (MonetaryContextBuilder {
                precision: Some(34u32),
                max_scale: Some(10i32),
                rounding_mode: Some(RoundingMode::HalfEven),
            }),
    {
        Self {
            precision: Some(34),
            max_scale: Some(10),
            rounding_mode: Some(RoundingMode::HalfEven),
        }
    }

    /// 19 digits, scale at most 2, banker's rounding.
    pub fn currency_precision() -> (r: Self)
        ensures
            r == (MonetaryContextBuilder {
                precision: Some(19u32),
                max_scale: Some(2i32),
                rounding_mode: Some(RoundingMode::HalfEven),
            }),
    {
        Self {
            precision: Some(19),
            max_scale: Some(2),
            rounding_mode: Some(RoundingMode::HalfEven),
        }
    }

    /// 50 digits, scale at most 15, banker's rounding.
    pub fn scientific_precision() -> (r: Self)
        ensures
            r == (MonetaryContextBuilder {
                precision: Some(50u32),
                max_scale: Some(15i32),
                rounding_mode: Some(RoundingMode::HalfEven),
            }),
    {
        Self {
            precision: Some(50),
            max_scale: Some(15),
            rounding_mode: Some(RoundingMode::HalfEven),
        }
    }
}

impl Default for MonetaryContextBuilder {
    fn default() -> (r: Self)
        ensures
            r == (MonetaryContextBuilder {
                precision: None::<u32>,
                max_scale: None::<i32>,
                rounding_mode: None::<RoundingMode>,
            }),
    {
        Self::new()
    }
}

/// The capability bundle of a numeric backing type for money: a zero,
/// sign queries, arithmetic, context rounding, and exact conversion to
/// and from the fixed-point decimal.
///
/// Each operation comes with a spec function naming its result and one
/// naming its domain (the machine limits under which it is defined).
pub trait Monetizable: Sized + Copy {
    spec fn zero_spec() -> Self;

    spec fn is_zero_spec(&self) -> bool;

    spec fn is_pos_spec(&self) -> bool;

    spec fn is_neg_spec(&self) -> bool;

    spec fn add_ok(&self, other: &Self) -> bool;

    spec fn add_spec(&self, other: &Self) -> Self;

    spec fn sub_ok(&self, other: &Self) -> bool;

    spec fn sub_spec(&self, other: &Self) -> Self;

    spec fn mul_ok(&self, other: &Self) -> bool;

    spec fn mul_spec(&self, other: &Self) -> Self;

    spec fn div_ok(&self, other: &Self) -> bool;

    spec fn div_spec(&self, other: &Self) -> Self;

    spec fn neg_ok(&self) -> bool;

    spec fn neg_spec(&self) -> Self;

    spec fn round_ok(&self, context: MonetaryContext) -> bool;

    spec fn round_spec(&self, context: MonetaryContext) -> Self;

    spec fn to_dec_spec(&self) -> BigDecimal;

    spec fn from_dec_ok(d: BigDecimal) -> bool;

    spec fn from_dec_spec(d: BigDecimal) -> Self;

    fn zero() -> (r: Self)
        ensures
            r == Self::zero_spec(),
    ;

    fn is_zero(&self) -> (r: bool)
        ensures
            r == self.is_zero_spec(),
    ;

    fn is_positive_val(&self) -> (r: bool)
        ensures
            r == self.is_pos_spec(),
    ;

    fn is_negative_val(&self) -> (r: bool)
        ensures
            r == self.is_neg_spec(),
    ;

    fn add_val(&self, other: &Self) -> (r: Self)
        requires
            self.add_ok(other),
        ensures
            r == self.add_spec(other),
    ;

    fn sub_val(&self, other: &Self) -> (r: Self)
        requires
            self.sub_ok(other),
        ensures
            r == self.sub_spec(other),
    ;

    fn mul_val(&self, other: &Self) -> (r: Self)
        requires
            self.mul_ok(other),
        ensures
            r == self.mul_spec(other),
    ;

    fn try_mul_val(&self, other: &Self) -> (r: Option<Self>)
        ensures
            self.mul_ok(other) ==> r == Some(self.mul_spec(other)),
            !self.mul_ok(other) ==> r is None,
    ;

    fn div_val(&self, other: &Self) -> (r: Result<Self, MoneyError>)
        requires
            !other.is_zero_spec() ==> self.div_ok(other),
        ensures
            other.is_zero_spec() <==> r == Err::<Self, MoneyError>(MoneyError::DivisionByZero),
            !other.is_zero_spec() ==> r == Ok::<Self, MoneyError>(self.div_spec(other)),
    ;

    fn neg_val(&self) -> (r: Self)
        requires
            self.neg_ok(),
        ensures
            r == self.neg_spec(),
    ;

    fn round_to(&self, context: &MonetaryContext) -> (r: Self)
        requires
            self.round_ok(*context),
        ensures
            r == self.round_spec(*context),
    ;

    fn try_to_decimal(&self) -> (r: Result<BigDecimal, MoneyError>)
        ensures
            r == Ok::<BigDecimal, MoneyError>(self.to_dec_spec()),
    ;

    fn try_from_decimal(d: BigDecimal) -> (r: Result<Self, MoneyError>)
        ensures
            Self::from_dec_ok(d) ==> r == Ok::<Self, MoneyError>(Self::from_dec_spec(d)),
            !Self::from_dec_ok(d) ==> r is Err,
    ;
}

impl Monetizable for BigDecimal {
    open spec fn zero_spec() -> Self {
        BigDecimal { unscaled_value: 0, scale: 0 }
    }

    open spec fn is_zero_spec(&self) -> bool {
        self.unscaled_value == 0
    }

    open spec fn is_pos_spec(&self) -> bool {
        self.unscaled_value > 0
    }

    open spec fn is_neg_spec(&self) -> bool {
        self.unscaled_value < 0
    }

    open spec fn add_ok(&self, other: &Self) -> bool {
        self.can_add(*other)
    }

    open spec fn add_spec(&self, other: &Self) -> Self {
        self.spec_plus(*other)
    }

    open spec fn sub_ok(&self, other: &Self) -> bool {
        self.can_subtract(*other)
    }

    open spec fn sub_spec(&self, other: &Self) -> Self {
        self.spec_minus(*other)
    }

    open spec fn mul_ok(&self, other: &Self) -> bool {
        self.can_multiply(*other, default_product_scale(*self, *other), RoundingMode::HalfEven)
    }

    open spec fn mul_spec(&self, other: &Self) -> Self {
        self.spec_times_exact(*other).spec_rescaled(
            default_product_scale(*self, *other),
            RoundingMode::HalfEven,
        )
    }

    open spec fn div_ok(&self, other: &Self) -> bool {
        self.can_divide(*other, 8, RoundingMode::HalfEven)
    }

    open spec fn div_spec(&self, other: &Self) -> Self {
        self.spec_divided(*other, 8, RoundingMode::HalfEven)
    }

    open spec fn neg_ok(&self) -> bool {
        self.unscaled_value != i128::MIN
    }

    open spec fn neg_spec(&self) -> Self {
        self.spec_negated()
    }

    open spec fn round_ok(&self, context: MonetaryContext) -> bool {
        self.can_rescale(context.max_scale as int, context.rounding_mode)
    }

    open spec fn round_spec(&self, context: MonetaryContext) -> Self {
        self.spec_rescaled(context.max_scale as int, context.rounding_mode)
    }

    open spec fn to_dec_spec(&self) -> BigDecimal {
        *self
    }

    open spec fn from_dec_ok(d: BigDecimal) -> bool {
        true
    }

    open spec fn from_dec_spec(d: BigDecimal) -> Self {
        d
    }

    fn zero() -> (r: Self) {
        BigDecimal::zero()
    }

    fn is_zero(&self) -> (r: bool) {
        BigDecimal::is_zero(self)
    }

    fn is_positive_val(&self) -> (r: bool) {
        self.is_positive()
    }

    fn is_negative_val(&self) -> (r: bool) {
        self.is_negative()
    }

    fn add_val(&self, other: &Self) -> (r: Self) {
        self.add(other, &RoundingMode::HalfEven)
    }

    fn sub_val(&self, other: &Self) -> (r: Self) {
        self.subtract(other, &RoundingMode::HalfEven)
    }

    /// The exact product, brought to at least eight decimal places.
    fn mul_val(&self, other: &Self) -> (r: Self) {
        let s1 = self.scale() as i64;
        let s2 = other.scale() as i64;
        let sum = s1 + s2;
        let target: i32 = if sum >= 8 {
            sum as i32
        } else {
            8
        };
        self.multiply(other, &RoundingMode::HalfEven, target)
    }

    fn try_mul_val(&self, other: &Self) -> (r: Option<Self>) {
        let s1 = self.scale() as i64;
        let s2 = other.scale() as i64;
        let sum = s1 + s2;
        if sum > i32::MAX as i64 || sum < i32::MIN as i64 {
            return None;
        }
        let target: i32 = if sum >= 8 {
            sum as i32
        } else {
            8
        };
        self.try_multiply(other, &RoundingMode::HalfEven, target)
    }

    fn div_val(&self, other: &Self) -> (r: Result<Self, MoneyError>) {
        match self.divide(other, &RoundingMode::HalfEven, 8) {
            Ok(d) => Ok(d),
            Err(_) => Err(MoneyError::DivisionByZero),
        }
    }

    fn neg_val(&self) -> (r: Self) {
        self.negate()
    }

    fn round_to(&self, context: &MonetaryContext) -> (r: Self) {
        self.with_scale(context.max_scale, &context.rounding_mode)
    }

    fn try_to_decimal(&self) -> (r: Result<BigDecimal, MoneyError>) {
        Ok(*self)
    }

    fn try_from_decimal(d: BigDecimal) -> (r: Result<Self, MoneyError>) {
        Ok(d)
    }
}

/// The scale a decimal product is kept at: the exact sum of the two
/// scales, but at least eight places.
pub open spec fn default_product_scale(a: BigDecimal, b: BigDecimal) -> int {
    if a.scale + b.scale >= 8 {
        a.scale + b.scale
    } else {
        8
    }
}

/// A monetary value: an amount in some backing type, a currency, and
/// the context that governs context-sensitive rounding.  Values are
/// never mutated; every operation builds a new one.
#[derive(Debug)]
pub struct Monetary<T: Monetizable> {
    pub amount: T,
    pub currency: Currency,
    pub context: MonetaryContext,
}

impl<T: Monetizable> Clone for Monetary<T> {
    /// A clone is equal to the original, field for field.
    fn clone(&self) -> (r: Self)
        ensures
            r == *self,
    {
        Self { amount: self.amount, currency: self.currency.clone(), context: self.context }
    }
}

impl<T: Monetizable> Monetary<T> {
    pub fn new(amount: T, currency: Currency) -> (r: Self)
        ensures
            r.amount == amount,
            r.currency == currency,
            r.context == MonetaryContext::spec_default(),
    {
        Self { amount, currency, context: MonetaryContext::default() }
    }

    pub fn new_with_context(amount: T, currency: Currency, context: MonetaryContext) -> (r: Self)
        ensures
            r.amount == amount,
            r.currency == currency,
            r.context == context,
    {
        Self { amount, currency, context }
    }

    /// Nothing of this currency, in the default context.
    pub fn zero(currency: Currency) -> (r: Self)
        ensures
            r.amount == T::zero_spec(),
            r.currency == currency,
            r.context == MonetaryContext::spec_default(),
    {
        Self::new(T::zero(), currency)
    }

    pub fn zero_with_context(currency: Currency, context: MonetaryContext) -> (r: Self)
        ensures
            r.amount == T::zero_spec(),
            r.currency == currency,
            r.context == context,
    {
        Self::new_with_context(T::zero(), currency, context)
    }

    pub fn is_zero(&self) -> (r: bool)
        ensures
            r == self.amount.is_zero_spec(),
    {
        self.amount.is_zero()
    }

    pub fn currency(&self) -> (r: &Currency)
        ensures
            r == self.currency,
    {
        &self.currency
    }

    pub fn amount(&self) -> (r: &T)
        ensures
            r == self.amount,
    {
        &self.amount
    }

    pub fn context(&self) -> (r: &MonetaryContext)
        ensures
            r == self.context,
    {
        &self.context
    }

    pub fn with_context(self, context: MonetaryContext) -> (r: Self)
        ensures
            r.amount == self.amount,
            r.currency == self.currency,
            r.context == context,
    {
        Self { context, ..self }
    }

    pub fn with_currency(self, currency: Currency) -> (r: Self)
        ensures
            r.amount == self.amount,
            r.currency == currency,
            r.context == self.context,
    {
        Self { currency, ..self }
    }

    pub fn with_amount(self, amount: T) -> (r: Self)
        ensures
            r.amount == amount,
            r.currency == self.currency,
            r.context == self.context,
    {
        Self { amount, ..self }
    }

    /// Round the amount to this value's own context.
    pub fn apply_context(&self) -> (r: Result<Self, MoneyError>)
        requires
            self.amount.round_ok(self.context),
        ensures
            (r matches Ok(m) && m.amount == self.amount.round_spec(self.context) && m.currency
                == self.currency && m.context == self.context),
    {
        let rounded_amount = self.amount.round_to(&self.context);
        Ok(Self::new_with_context(rounded_amount, self.currency.clone(), self.context.clone()))
    }

    /// Convert to another currency with an explicit rate, through the
    /// decimal representation: the low-level path used when no rate
    /// provider is involved.  A rate at or below zero is rejected.
    pub fn convert<U: Monetizable>(&self, rate: &BigDecimal, target_currency: Currency) -> (r:
        Result<Monetary<U>, MoneyError>)
        requires
            rate.is_pos_spec() ==> self.amount.to_dec_spec().can_multiply(
                *rate,
                default_product_scale(self.amount.to_dec_spec(), *rate),
                RoundingMode::HalfEven,
            ),
        ensures
            !rate.is_pos_spec() ==> r == Err::<Monetary<U>, MoneyError>(
                MoneyError::InvalidExchangeRate(*rate),
            ),
            rate.is_pos_spec() ==> ({
                let product = self.amount.to_dec_spec().mul_spec(rate);
                if U::from_dec_ok(product) {
                    r matches Ok(m) && m.amount == U::from_dec_spec(product) && m.currency
                        == target_currency && m.context == self.context
                } else {
                    r is Err
                }
            }),
    {
        if !rate.is_positive() {
            return Err(MoneyError::InvalidExchangeRate(*rate));
        }
        let amount_dec = match self.amount.try_to_decimal() {
            Ok(d) => d,
            Err(e) => {
                return Err(e);
            },
        };
        let product = amount_dec.mul_val(rate);
        let new_amount = match U::try_from_decimal(product) {
            Ok(a) => a,
            Err(e) => {
                return Err(e);
            },
        };
        Ok(Monetary::new_with_context(new_amount, target_currency, self.context.clone()))
    }

    /// Re-express the amount in another backing type, through the
    /// decimal representation; currency and context are unchanged.
    pub fn as_type<U: Monetizable>(&self) -> (r: Result<Monetary<U>, MoneyError>)
        ensures
            U::from_dec_ok(self.amount.to_dec_spec()) ==> (r matches Ok(m) && m.amount
                == U::from_dec_spec(self.amount.to_dec_spec()) && m.currency == self.currency
                && m.context == self.context),
            !U::from_dec_ok(self.amount.to_dec_spec()) ==> r is Err,
    {
        let decimal_amount = match self.amount.try_to_decimal() {
            Ok(d) => d,
            Err(e) => {
                return Err(e);
            },
        };
        let new_amount = match U::try_from_decimal(decimal_amount) {
            Ok(a) => a,
            Err(e) => {
                return Err(e);
            },
        };
        Ok(Monetary::new_with_context(new_amount, self.currency.clone(), self.context.clone()))
    }

    pub fn is_positive(&self) -> (r: bool)
        ensures
            r == self.amount.is_pos_spec(),
    {
        self.amount.is_positive_val()
    }

    pub fn is_negative(&self) -> (r: bool)
        ensures
            r == self.amount.is_neg_spec(),
    {
        self.amount.is_negative_val()
    }

    /// The same value with a nonnegative amount.
    pub fn abs(&self) -> (r: Result<Self, MoneyError>)
        requires
            self.amount.is_neg_spec() ==> self.amount.neg_ok(),
        ensures
            (r matches Ok(m) && m.currency == self.currency && m.context == self.context
                && m.amount == (if self.amount.is_neg_spec() {
                self.amount.neg_spec()
            } else {
                self.amount
            })),
    {
        let abs_amount = if self.amount.is_negative_val() {
            self.amount.neg_val()
        } else {
            self.amount
        };
        Ok(Self::new_with_context(abs_amount, self.currency.clone(), self.context.clone()))
    }

    /// The same value with the opposite sign.
    pub fn negate(&self) -> (r: Self)
        requires
            self.amount.neg_ok(),
        ensures
            r.amount == self.amount.neg_spec(),
            r.currency == self.currency,
            r.context == self.context,
    {
        Self::new_with_context(
            self.amount.neg_val(),
            self.currency.clone(),
            self.context.clone(),
        )
    }

    /// Whether the two values may take part in one arithmetic
    /// operation: their currencies agree on the full descriptor.
    pub fn is_compatible_with(&self, other: &Self) -> (r: bool)
        ensures
            r == currency_eq(&self.currency, &other.currency),
    {
        self.currency == other.currency
    }

    /// The sum, in the left operand's currency and context; mixing
    /// currencies is rejected.  No implicit rounding is applied.
    pub fn safe_add(&self, other: &Self) -> (r: Result<Self, MoneyError>)
        requires
            currency_eq(&self.currency, &other.currency) ==> self.amount.add_ok(&other.amount),
        ensures
            !currency_eq(&self.currency, &other.currency) ==> r == Err::<Self, MoneyError>(
                MoneyError::CurrencyMismatch(self.currency, other.currency),
            ),
            currency_eq(&self.currency, &other.currency) ==> (r matches Ok(m) && m.amount
                == self.amount.add_spec(&other.amount) && m.currency == self.currency && m.context
                == self.context),
    {
        if !self.is_compatible_with(other) {
            return Err(MoneyError::CurrencyMismatch(self.currency.clone(), other.currency.clone()));
        }
        Ok(Self::new_with_context(
            self.amount.add_val(&other.amount),
            self.currency.clone(),
            self.context.clone(),
        ))
    }

    /// The difference, under the same rules as [`Monetary::safe_add`].
    pub fn safe_subtract(&self, other: &Self) -> (r: Result<Self, MoneyError>)
        requires
            currency_eq(&self.currency, &other.currency) ==> self.amount.sub_ok(&other.amount),
        ensures
            !currency_eq(&self.currency, &other.currency) ==> r == Err::<Self, MoneyError>(
                MoneyError::CurrencyMismatch(self.currency, other.currency),
            ),
            currency_eq(&self.currency, &other.currency) ==> (r matches Ok(m) && m.amount
                == self.amount.sub_spec(&other.amount) && m.currency == self.currency && m.context
                == self.context),
    {
        if !self.is_compatible_with(other) {
            return Err(MoneyError::CurrencyMismatch(self.currency.clone(), other.currency.clone()));
        }
        Ok(Self::new_with_context(
            self.amount.sub_val(&other.amount),
            self.currency.clone(),
            self.context.clone(),
        ))
    }

    /// Scale the amount by a dimensionless factor; no implicit rounding.
    pub fn multiply_by(&self, scalar: T) -> (r: Self)
        requires
            self.amount.mul_ok(&scalar),
        ensures
            r.amount == self.amount.mul_spec(&scalar),
            r.currency == self.currency,
            r.context == self.context,
    {
        Self::new_with_context(
            self.amount.mul_val(&scalar),
            self.currency.clone(),
            self.context.clone(),
        )
    }

    /// Divide the amount by a dimensionless factor; dividing by zero is
    /// reported, not performed.
    pub fn divide_by(&self, scalar: T) -> (r: Result<Self, MoneyError>)
        requires
            !scalar.is_zero_spec() ==> self.amount.div_ok(&scalar),
        ensures
            scalar.is_zero_spec() <==> r == Err::<Self, MoneyError>(MoneyError::DivisionByZero),
            !scalar.is_zero_spec() ==> (r matches Ok(m) && m.amount == self.amount.div_spec(
                &scalar,
            ) && m.currency == self.currency && m.context == self.context),
    {
        match self.amount.div_val(&scalar) {
            Ok(a) => Ok(Self::new_with_context(a, self.currency.clone(), self.context.clone())),
            Err(e) => Err(e),
        }
    }
}

impl Monetary<BigDecimal> {
    /// The factor `1 + p/100`, built exactly: dividing a decimal by one
    /// hundred only shifts its scale by two places.
    pub open spec fn spec_percent_multiplier(p: BigDecimal) -> BigDecimal {
        (BigDecimal { unscaled_value: 1, scale: 0 }).spec_plus(Self::spec_percent_fraction(p))
    }

    /// The factor `p/100`, built exactly by shifting the scale.
    pub open spec fn spec_percent_fraction(p: BigDecimal) -> BigDecimal {
        BigDecimal { unscaled_value: p.unscaled_value, scale: (p.scale + 2) as i32 }
    }

    /// Machine limits for scaling by `1 + p/100` and rounding to the
    /// context.
    pub open spec fn can_apply_percentage(self, p: BigDecimal) -> bool {
        &&& p.scale + 2 <= i32::MAX
        &&& (BigDecimal { unscaled_value: 1, scale: 0 }).can_add(Self::spec_percent_fraction(p))
        &&& self.amount.mul_ok(&Self::spec_percent_multiplier(p))
        &&& self.amount.mul_spec(&Self::spec_percent_multiplier(p)).round_ok(self.context)
    }

    /// Machine limits for scaling by `p/100` and rounding to the
    /// context.
    pub open spec fn can_percentage_of(self, p: BigDecimal) -> bool {
        &&& p.scale + 2 <= i32::MAX
        &&& self.amount.mul_ok(&Self::spec_percent_fraction(p))
        &&& self.amount.mul_spec(&Self::spec_percent_fraction(p)).round_ok(self.context)
    }

    /// The amount scaled by `1 + percentage/100`, then rounded to this
    /// value's context.
    pub fn apply_percentage(&self, percentage: &BigDecimal) -> (r: Result<Self, MoneyError>)
        requires
            self.can_apply_percentage(*percentage),
        ensures
            (r matches Ok(m) && m.amount == self.amount.mul_spec(
                &Self::spec_percent_multiplier(*percentage),
            ).round_spec(self.context) && m.currency == self.currency && m.context
                == self.context),
    {
        let shifted = BigDecimal::new(percentage.unscaled_value(), percentage.scale() + 2);
        let one = BigDecimal::one();
        let multiplier = one.add(&shifted, &RoundingMode::HalfEven);
        let result = self.multiply_by(multiplier);
        result.apply_context()
    }

    /// The amount scaled by `percentage/100`, then rounded to this
    /// value's context.
    pub fn percentage_of(&self, percentage: &BigDecimal) -> (r: Result<Self, MoneyError>)
        requires
            self.can_percentage_of(*percentage),
        ensures
            (r matches Ok(m) && m.amount == self.amount.mul_spec(
                &Self::spec_percent_fraction(*percentage),
            ).round_spec(self.context) && m.currency == self.currency && m.context
                == self.context),
    {
        let multiplier = BigDecimal::new(percentage.unscaled_value(), percentage.scale() + 2);
        let result = self.multiply_by(multiplier);
        result.apply_context()
    }
}

/// Law: the zero of a currency is the identity of monetary addition,
/// on either side.  For any monetary `x` whose currency is `c`, the sum
/// of `zero(c)` and `x` (in either order, as produced by
/// [`Monetary::safe_add`]) denotes the same number as `x` and keeps the
/// currency `c`.
pub proof fn lemma_monetary_zero_identity(c: Currency, x: Monetary<BigDecimal>)
    requires
        currency_eq(&x.currency, &c),
        (BigDecimal { unscaled_value: 0, scale: 0 }).can_add(x.amount),
    ensures
        (BigDecimal::zero_spec().add_spec(&x.amount).same_value(x.amount)),
        (x.amount.add_spec(&BigDecimal::zero_spec()).same_value(x.amount)),
        x.amount.add_ok(&BigDecimal::zero_spec()),
        BigDecimal::zero_spec().add_ok(&x.amount),
{
    crate::money::types::lemma_zero_add_identity(x.amount);
}

/// Law: adding a same-currency amount and then subtracting it restores
/// the original exactly in the fixed-point backing: the result of
/// `(x + y) - y` (built by [`Monetary::safe_add`] and
/// [`Monetary::safe_subtract`]) denotes the same number as `x`.
pub proof fn lemma_monetary_add_sub_cancels(x: Monetary<BigDecimal>, y: Monetary<BigDecimal>)
    requires
        currency_eq(&x.currency, &y.currency),
        x.amount.add_ok(&y.amount),
    ensures
        x.amount.add_spec(&y.amount).sub_ok(&y.amount),
        (x.amount.add_spec(&y.amount).sub_spec(&y.amount).same_value(x.amount)),
{
    crate::money::types::lemma_add_sub_cancels(x.amount, y.amount);
}

} // verus!
