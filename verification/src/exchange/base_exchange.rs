//! Exchange rates, the provider interface, and the conversion service.

use vstd::prelude::*;
use crate::errors::ExchangeError;
use crate::money::currency::Currency;
use crate::money::currency::currency_eq;
use crate::money::currency_unit::CurrencyUnit;
use crate::money::types::BigDecimal;
use crate::money::{Monetary, MonetaryContext, Monetizable};

verus! {

/// A cache key for a conversion direction: the numeric codes of the
/// base and the target currency.  Not commutative.
#[derive(Debug, Clone, Copy, PartialEq, Eq, Structural, Hash)]
pub struct CurrencyPair {
    pub base_code: i32,
    pub target_code: i32,
}

impl CurrencyPair {
    pub fn new(base: &Currency, target: &Currency) -> (r: Self)
        ensures
            r.base_code == base.spec_numeric_code(),
            r.target_code == target.spec_numeric_code(),
    {
        Self { base_code: base.numeric_code(), target_code: target.numeric_code() }
    }

    pub fn from_units(base: &CurrencyUnit, target: &CurrencyUnit) -> (r: Self)
        ensures
            r.base_code == base.spec_numeric_code(),
            r.target_code == target.spec_numeric_code(),
    {
        Self { base_code: base.get_numeric_code(), target_code: target.get_numeric_code() }
    }
}

/// A conversion rate from a base to a target currency, stamped with its
/// creation time and an optional time-to-live, both in milliseconds.
#[derive(Debug)]
pub struct ExchangeRate<T: Monetizable> {
    pub base_currency: Currency,
    pub target_currency: Currency,
    pub factor: T,
    pub timestamp: u64,
    pub ttl: Option<u64>,
    pub context: MonetaryContext,
}

impl<T: Monetizable> Clone for ExchangeRate<T> {
    /// A clone is equal to the original, field for field.
    fn clone(&self) -> (r: Self)
        ensures
            r == *self,
    {
        Self {
            base_currency: self.base_currency.clone(),
            target_currency: self.target_currency.clone(),
            factor: self.factor,
            timestamp: self.timestamp,
            ttl: self.ttl,
            context: self.context,
        }
    }
}

impl<T: Monetizable> ExchangeRate<T> {
    /// A fresh rate: stamped at time zero, no time-to-live, default
    /// context.
    pub fn new(base_currency: Currency, target_currency: Currency, factor: T) -> (r: Self)
        ensures
            r == (ExchangeRate {
                base_currency,
                target_currency,
                factor,
                timestamp: 0u64,
                ttl: None::<u64>,
                context: MonetaryContext::spec_default(),
            }),
    {
        Self {
            base_currency,
            target_currency,
            factor,
            timestamp: 0,
            ttl: None,
            context: MonetaryContext::default(),
        }
    }

    pub fn with_ttl(self, ttl_ms: u64) -> (r: Self)
        ensures
            r == (ExchangeRate { ttl: Some(ttl_ms), ..self }),
    {
        Self { ttl: Some(ttl_ms), ..self }
    }

    pub fn with_timestamp(self, timestamp_ms: u64) -> (r: Self)
        ensures
            r == (ExchangeRate { timestamp: timestamp_ms, ..self }),
    {
        Self { timestamp: timestamp_ms, ..self }
    }

    pub fn with_context(self, context: MonetaryContext) -> (r: Self)
        ensures
            r == (ExchangeRate { context, ..self }),
    {
        Self { context, ..self }
    }

    pub fn get_base_currency(&self) -> (r: &Currency)
        ensures
            r == self.base_currency,
    {
        &self.base_currency
    }

    pub fn get_target_currency(&self) -> (r: &Currency)
        ensures
            r == self.target_currency,
    {
        &self.target_currency
    }

    pub fn get_factor(&self) -> (r: &T)
        ensures
            r == self.factor,
    {
        &self.factor
    }

    pub fn get_ttl(&self) -> (r: &Option<u64>)
        ensures
            r == self.ttl,
    {
        &self.ttl
    }

    pub fn get_timestamp(&self) -> (r: u64)
        ensures
            r == self.timestamp,
    {
        self.timestamp
    }

    pub fn get_context(&self) -> (r: &MonetaryContext)
        ensures
            r == self.context,
    {
        &self.context
    }

    /// Expired at `now`: a time-to-live is set and more than that many
    /// milliseconds have passed since the stamp.  A rate without a
    /// time-to-live never expires.
    pub open spec fn is_expired_spec(self, now_ms: u64) -> bool {
        match self.ttl {
            Some(ttl) => (if now_ms >= self.timestamp {
                now_ms - self.timestamp
            } else {
                0
            }) > ttl,
            None => false,
        }
    }

    pub fn is_expired(&self, now_ms: u64) -> (r: bool)
        ensures
            r == self.is_expired_spec(now_ms),
    {
        match self.ttl {
            Some(ttl) => {
                let elapsed: u64 = if now_ms >= self.timestamp {
                    now_ms - self.timestamp
                } else {
                    0
                };
                elapsed > ttl
            },
            None => false,
        }
    }

    /// Whether this rate converts this amount at this instant: the
    /// amount is in the base currency and the rate has not expired.
    pub open spec fn applies_to(self, amount: Monetary<T>, now_ms: u64) -> bool {
        currency_eq(&amount.currency, &self.base_currency) && !self.is_expired_spec(now_ms)
    }

    /// Apply the rate within the backing type: the new amount is the old
    /// amount times the factor, in the target currency, with the
    /// amount's own context kept.
    pub fn apply(&self, amount: &Monetary<T>, now_ms: u64) -> (r: Result<Monetary<T>, ExchangeError
    >)
        requires
            self.applies_to(*amount, now_ms) ==> amount.amount.mul_ok(&self.factor),
        ensures
            !currency_eq(&amount.currency, &self.base_currency) ==> r == Err::<
                Monetary<T>,
                ExchangeError,
            >(ExchangeError::CurrencyMismatch),
            currency_eq(&amount.currency, &self.base_currency) && self.is_expired_spec(now_ms)
                ==> r == Err::<Monetary<T>, ExchangeError>(ExchangeError::ExpiredRate),
            self.applies_to(*amount, now_ms) ==> (r matches Ok(m) && m.amount
                == amount.amount.mul_spec(&self.factor) && m.currency == self.target_currency
                && m.context == amount.context),
    {
        if !(amount.currency == self.base_currency) {
            return Err(ExchangeError::CurrencyMismatch);
        }
        if self.is_expired(now_ms) {
            return Err(ExchangeError::ExpiredRate);
        }
        let converted_amount = amount.amount.mul_val(&self.factor);
        Ok(Monetary::new_with_context(
            converted_amount,
            self.target_currency.clone(),
            amount.context,
        ))
    }

    /// The decimal the cross-type application produces: the product of
    /// amount and factor in the fixed-point decimal, rescaled to this
    /// rate's context.
    pub open spec fn spec_convert_product(self, amount: Monetary<T>) -> BigDecimal {
        amount.amount.to_dec_spec().spec_times_exact(self.factor.to_dec_spec()).spec_rescaled(
            self.context.max_scale as int,
            self.context.rounding_mode,
        )
    }

    /// Machine limits of the cross-type application.
    pub open spec fn can_apply_convert(self, amount: Monetary<T>) -> bool {
        amount.amount.to_dec_spec().can_multiply(
            self.factor.to_dec_spec(),
            self.context.max_scale as int,
            self.context.rounding_mode,
        )
    }

    /// Apply the rate across backing types: both operands are taken to
    /// the fixed-point decimal, multiplied there, rounded by this rate's
    /// context, and converted to the target type.
    pub fn apply_convert<U: Monetizable>(&self, amount: &Monetary<T>, now_ms: u64) -> (r: Result<
        Monetary<U>,
        ExchangeError,
    >)
        requires
            self.applies_to(*amount, now_ms) ==> self.can_apply_convert(*amount),
        ensures
            !currency_eq(&amount.currency, &self.base_currency) ==> r == Err::<
                Monetary<U>,
                ExchangeError,
            >(ExchangeError::CurrencyMismatch),
            currency_eq(&amount.currency, &self.base_currency) && self.is_expired_spec(now_ms)
                ==> r == Err::<Monetary<U>, ExchangeError>(ExchangeError::ExpiredRate),
            self.applies_to(*amount, now_ms) ==> ({
                let product = self.spec_convert_product(*amount);
                if U::from_dec_ok(product) {
                    r matches Ok(m) && m.amount == U::from_dec_spec(product) && m.currency
                        == self.target_currency && m.context == amount.context
                } else {
                    r == Err::<Monetary<U>, ExchangeError>(ExchangeError::ConversionError)
                }
            }),
    {
        if !(amount.currency == self.base_currency) {
            return Err(ExchangeError::CurrencyMismatch);
        }
        if self.is_expired(now_ms) {
            return Err(ExchangeError::ExpiredRate);
        }
        let amount_decimal = match amount.amount.try_to_decimal() {
            Ok(d) => d,
            Err(_) => {
                return Err(ExchangeError::ConversionError);
            },
        };
        let factor_decimal = match self.factor.try_to_decimal() {
            Ok(d) => d,
            Err(_) => {
                return Err(ExchangeError::ConversionError);
            },
        };
        let rounded = amount_decimal.multiply(
            &factor_decimal,
            &self.context.rounding_mode,
            self.context.max_scale,
        );
        let converted_amount = match U::try_from_decimal(rounded) {
            Ok(a) => a,
            Err(_) => {
                return Err(ExchangeError::ConversionError);
            },
        };
        Ok(Monetary::new_with_context(
            converted_amount,
            self.target_currency.clone(),
            amount.context,
        ))
    }
}

/// The cache key for a conversion from `b` to `t`.
pub open spec fn spec_pair(b: &Currency, t: &Currency) -> CurrencyPair {
    CurrencyPair {
        base_code: b.spec_numeric_code() as i32,
        target_code: t.spec_numeric_code() as i32,
    }
}

/// First-match lookup in an association list.  A fresh entry is always
/// inserted at the front, so it shadows any older entry for the same
/// pair; the list therefore behaves as a map.
pub open spec fn seq_lookup<V>(s: Seq<(CurrencyPair, V)>, p: CurrencyPair) -> Option<V>
    decreases s.len(),
{
    if s.len() == 0 {
        None
    } else if s[0].0 == p {
        Some(s[0].1)
    } else {
        seq_lookup(s.drop_first(), p)
    }
}

/// Skipping a non-matching front entry leaves the lookup unchanged.
pub proof fn lemma_seq_lookup_skip<V>(s: Seq<(CurrencyPair, V)>, p: CurrencyPair, i: int)
    requires
        0 <= i < s.len(),
        s[i].0 != p,
    ensures
        seq_lookup(s.skip(i), p) == seq_lookup(s.skip(i + 1), p),
{
    assert(s.skip(i).len() > 0);
    assert(s.skip(i)[0] == s[i]);
    assert(s.skip(i).drop_first() =~= s.skip(i + 1));
}

/// The position the first-match lookup finds, if any.
pub fn assoc_index<V>(v: &Vec<(CurrencyPair, V)>, p: CurrencyPair) -> (r: Option<usize>)
    ensures
        (match r {
            Some(i) => i < v@.len() && v@[i as int].0 == p && seq_lookup(v@, p) == Some(
                v@[i as int].1,
            ),
            None => seq_lookup(v@, p) is None,
        }),
{
    let n = v.len();
    let mut i: usize = 0;
    proof {
        assert(v@.skip(0) =~= v@);
    }
    while i < n
        invariant
            0 <= i <= n == v@.len(),
            seq_lookup(v@, p) == seq_lookup(v@.skip(i as int), p),
        decreases n - i,
    {
        if v[i].0 == p {
            proof {
                assert(v@.skip(i as int)[0] == v@[i as int]);
            }
            return Some(i);
        }
        proof {
            lemma_seq_lookup_skip(v@, p, i as int);
        }
        i = i + 1;
    }
    proof {
        assert(v@.skip(n as int).len() == 0);
    }
    None
}

/// A source of exchange rates.  An implementation answers a lookup for
/// a pair of currencies at a given instant; the answer must be the pure
/// function of its state and the clock that `spec_rate` names.
pub trait ExchangeRateProvider<T: Monetizable>: Sized {
    /// The rate this provider answers for `(base, target)` at `now_ms`,
    /// as a function of its current state.
    spec fn spec_rate(&self, base: Currency, target: Currency, now_ms: u64) -> Option<
        ExchangeRate<T>,
    >;

    fn get_exchange_rate(
        &mut self,
        base_currency: &Currency,
        target_currency: &Currency,
        now_ms: u64,
    ) -> (r: Option<ExchangeRate<T>>)
        ensures
            r == old(self).spec_rate(*base_currency, *target_currency, now_ms),
    ;
}

/// The first rate the provider chain yields, in priority order: the
/// answer of the earliest provider that has one.
pub open spec fn first_rate<T: Monetizable, P: ExchangeRateProvider<T>>(
    ps: Seq<P>,
    base: Currency,
    target: Currency,
    now_ms: u64,
) -> Option<ExchangeRate<T>>
    decreases ps.len(),
{
    if ps.len() == 0 {
        None
    } else {
        match ps[0].spec_rate(base, target, now_ms) {
            Some(r) => Some(r),
            None => first_rate(ps.drop_first(), base, target, now_ms),
        }
    }
}

/// Law: provider priority.  When the first provider of a chain has a
/// rate for the pair, the chain's answer is that rate, whatever any
/// later provider holds.
pub proof fn lemma_provider_priority<T: Monetizable, P: ExchangeRateProvider<T>>(
    ps: Seq<P>,
    base: Currency,
    target: Currency,
    now_ms: u64,
    r: ExchangeRate<T>,
)
    requires
        ps.len() > 0,
        ps[0].spec_rate(base, target, now_ms) == Some(r),
    ensures
        first_rate(ps, base, target, now_ms) == Some(r),
{
}

/// Law: converting into the currency an amount is already in returns a
/// value equal to the amount itself, whatever the providers and the
/// cache hold.
pub proof fn lemma_same_currency_convert<T: Monetizable, P: ExchangeRateProvider<T>>(
    service: CurrencyConversion<T, P>,
    amount: Monetary<T>,
    target: Currency,
    now_ms: u64,
)
    requires
        amount.currency.spec_numeric_code() == target.spec_numeric_code(),
    ensures
        service.spec_convert_result(amount, target, now_ms) == Ok::<Monetary<T>, ExchangeError>(
            amount,
        ),
{
}

/// The conversion service: an ordered provider chain, a rate cache of
/// its own, and a default context.
pub struct CurrencyConversion<T: Monetizable, P: ExchangeRateProvider<T>> {
    providers: Vec<P>,
    rate_cache: Vec<(CurrencyPair, ExchangeRate<T>)>,
    default_context: MonetaryContext,
}

impl<T: Monetizable, P: ExchangeRateProvider<T>> CurrencyConversion<T, P> {
    /// The provider chain, in priority order.
    pub closed spec fn spec_providers(&self) -> Seq<P> {
        self.providers@
    }

    /// The service's own rate cache, newest entry first.
    pub closed spec fn spec_cache(&self) -> Seq<(CurrencyPair, ExchangeRate<T>)> {
        self.rate_cache@
    }

    pub closed spec fn spec_default_context(&self) -> MonetaryContext {
        self.default_context
    }

    /// The cached rate for the pair, provided it has not expired.
    pub open spec fn spec_cache_fresh(self, pair: CurrencyPair, now_ms: u64) -> Option<
        ExchangeRate<T>,
    > {
        match seq_lookup(self.spec_cache(), pair) {
            Some(e) => if !e.is_expired_spec(now_ms) {
                Some(e)
            } else {
                None
            },
            None => None,
        }
    }

    /// The rate one conversion uses: a fresh entry of the service's own
    /// cache, or else the first answer of the provider chain.
    pub open spec fn spec_selected_rate(self, source: Currency, target: Currency, now_ms: u64)
        -> Option<ExchangeRate<T>> {
        match self.spec_cache_fresh(spec_pair(&source, &target), now_ms) {
            Some(e) => Some(e),
            None => first_rate(self.spec_providers(), source, target, now_ms),
        }
    }

    /// What applying a rate to an amount yields: the wrong source
    /// currency or an expired rate is reported; a product beyond the
    /// backing type's range is a conversion error; otherwise the scaled
    /// amount in the rate's target currency, context kept.
    pub open spec fn spec_apply_checked(
        rate: ExchangeRate<T>,
        amount: Monetary<T>,
        now_ms: u64,
    ) -> Result<Monetary<T>, ExchangeError> {
        if !currency_eq(&amount.currency, &rate.base_currency) {
            Err(ExchangeError::CurrencyMismatch)
        } else if rate.is_expired_spec(now_ms) {
            Err(ExchangeError::ExpiredRate)
        } else if amount.amount.mul_ok(&rate.factor) {
            Ok(
                Monetary {
                    amount: amount.amount.mul_spec(&rate.factor),
                    currency: rate.target_currency,
                    context: amount.context,
                },
            )
        } else {
            Err(ExchangeError::ConversionError)
        }
    }

    /// What one conversion returns: the amount itself when the numeric
    /// currency codes already agree, a report when no rate can be had,
    /// and otherwise the selected rate applied.
    pub open spec fn spec_convert_result(
        self,
        amount: Monetary<T>,
        target: Currency,
        now_ms: u64,
    ) -> Result<Monetary<T>, ExchangeError> {
        if amount.currency.spec_numeric_code() == target.spec_numeric_code() {
            Ok(amount)
        } else {
            match self.spec_selected_rate(amount.currency, target, now_ms) {
                None => Err(ExchangeError::NoRateFound),
                Some(rate) => Self::spec_apply_checked(rate, amount, now_ms),
            }
        }
    }

    pub fn new() -> (r: Self)
        ensures
            r.spec_providers() == Seq::<P>::empty(),
            r.spec_cache() == Seq::<(CurrencyPair, ExchangeRate<T>)>::empty(),
            r.spec_default_context() == MonetaryContext::spec_default(),
    {
        Self { providers: Vec::new(), rate_cache: Vec::new(), default_context: MonetaryContext::default() }
    }

    pub fn with_context(context: MonetaryContext) -> (r: Self)
        ensures
            r.spec_providers() == Seq::<P>::empty(),
            r.spec_cache() == Seq::<(CurrencyPair, ExchangeRate<T>)>::empty(),
            r.spec_default_context() == context,
    {
        Self { providers: Vec::new(), rate_cache: Vec::new(), default_context: context }
    }

    pub fn default_context(&self) -> (r: &MonetaryContext)
        ensures
            r == self.spec_default_context(),
    {
        &self.default_context
    }

    /// Append a provider at the end of the chain: it is consulted after
    /// every provider added before it.
    pub fn add_provider(&mut self, provider: P)
        ensures
            final (self).spec_providers() == old(self).spec_providers().push(provider),
            final (self).spec_cache() == old(self).spec_cache(),
            final (self).spec_default_context() == old(self).spec_default_context(),
    {
        self.providers.push(provider);
    }

    /// Apply a rate, reporting machine limits as a conversion error.
    fn apply_rate_checked(rate: &ExchangeRate<T>, amount: &Monetary<T>, now_ms: u64) -> (r: Result<
        Monetary<T>,
        ExchangeError,
    >)
        ensures
            r == Self::spec_apply_checked(*rate, *amount, now_ms),
    {
        if !(amount.currency == rate.base_currency) {
            return Err(ExchangeError::CurrencyMismatch);
        }
        if rate.is_expired(now_ms) {
            return Err(ExchangeError::ExpiredRate);
        }
        match amount.amount.try_mul_val(&rate.factor) {
            Some(v) => Ok(
                Monetary::new_with_context(v, rate.target_currency.clone(), amount.context),
            ),
            None => Err(ExchangeError::ConversionError),
        }
    }

    /// Convert an amount into the target currency.
    ///
    /// The fast path returns the amount unchanged when the numeric
    /// currency codes agree.  Otherwise the service consults its own
    /// cache, then the providers in priority order, applies the first
    /// rate found, and memoizes that rate exactly when the application
    /// succeeded; misses and failures are never cached.
    #[verifier::loop_isolation(false)]
    pub fn convert(&mut self, amount: &Monetary<T>, target_currency: &Currency, now_ms: u64) -> (r:
        Result<Monetary<T>, ExchangeError>)
        ensures
            r == old(self).spec_convert_result(*amount, *target_currency, now_ms),
            final (self).spec_default_context() == old(self).spec_default_context(),
            final (self).spec_providers().len() == old(self).spec_providers().len(),
            ({
                let pair = spec_pair(&amount.currency, target_currency);
                let same = amount.currency.spec_numeric_code()
                    == target_currency.spec_numeric_code();
                let hit = old(self).spec_cache_fresh(pair, now_ms) is Some;
                if same || hit {
                    final (self).spec_cache() == old(self).spec_cache()
                } else {
                    match first_rate(
                        old(self).spec_providers(),
                        amount.currency,
                        *target_currency,
                        now_ms,
                    ) {
                        Some(rate) => final (self).spec_cache() == (if r is Ok {
                            old(self).spec_cache().insert(0, (pair, rate))
                        } else {
                            old(self).spec_cache()
                        }),
                        None => final (self).spec_cache() == old(self).spec_cache(),
                    }
                }
            }),
    {
        if amount.currency.numeric_code() == target_currency.numeric_code() {
            return Ok(amount.clone());
        }
        let pair = CurrencyPair::new(&amount.currency, target_currency);
        match assoc_index(&self.rate_cache, pair) {
            Some(i) => {
                let cached = self.rate_cache[i].1.clone();
                if !cached.is_expired(now_ms) {
                    return Self::apply_rate_checked(&cached, amount, now_ms);
                }
            },
            None => {},
        }
        let n = self.providers.len();
        let mut j: usize = 0;
        proof {
            assert(self.providers@.skip(0) =~= self.providers@);
        }
        while j < n
            invariant
                0 <= j <= n == self.providers@.len(),
                self.rate_cache@ == old(self).rate_cache@,
                self.default_context == old(self).default_context,
                forall|k: int| j <= k < n ==> self.providers@[k] == old(self).providers@[k],
                first_rate(old(self).providers@.skip(j as int), amount.currency, *target_currency, now_ms)
                    == first_rate(old(self).providers@, amount.currency, *target_currency, now_ms),
            decreases n - j,
        {
            proof {
                assert(old(self).providers@.skip(j as int)[0] == old(self).providers@[j as int]);
            }
            let rate_opt = self.providers[j].get_exchange_rate(
                &amount.currency,
                target_currency,
                now_ms,
            );
            match rate_opt {
                Some(rate) => {
                    let result = Self::apply_rate_checked(&rate, amount, now_ms);
                    if result.is_ok() {
                        self.rate_cache.insert(0, (pair, rate));
                    }
                    return result;
                },
                None => {
                    proof {
                        assert(old(self).providers@.skip(j as int).drop_first() =~= old(
                            self,
                        ).providers@.skip(j as int + 1));
                    }
                    j = j + 1;
                },
            }
        }
        proof {
            assert(old(self).providers@.skip(n as int).len() == 0);
        }
        Err(ExchangeError::NoRateFound)
    }

    /// What applying a rate across backing types yields: the product is
    /// formed in the fixed-point decimal and rounded by the rate's own
    /// context before conversion to the target type.
    pub open spec fn spec_apply_convert_checked<U: Monetizable>(
        rate: ExchangeRate<T>,
        amount: Monetary<T>,
        now_ms: u64,
    ) -> Result<Monetary<U>, ExchangeError> {
        if !currency_eq(&amount.currency, &rate.base_currency) {
            Err(ExchangeError::CurrencyMismatch)
        } else if rate.is_expired_spec(now_ms) {
            Err(ExchangeError::ExpiredRate)
        } else if amount.amount.to_dec_spec().can_multiply(
            rate.factor.to_dec_spec(),
            rate.context.max_scale as int,
            rate.context.rounding_mode,
        ) {
            let product = rate.spec_convert_product(amount);
            if U::from_dec_ok(product) {
                Ok(
                    Monetary {
                        amount: U::from_dec_spec(product),
                        currency: rate.target_currency,
                        context: amount.context,
                    },
                )
            } else {
                Err(ExchangeError::ConversionError)
            }
        } else {
            Err(ExchangeError::ConversionError)
        }
    }

    /// What one cross-type conversion returns: a type-only conversion
    /// through the decimal when the numeric currency codes agree, else
    /// the first provider rate applied across types.  Cross-type results
    /// are never cached.
    pub open spec fn spec_convert_to_result<U: Monetizable>(
        self,
        amount: Monetary<T>,
        target: Currency,
        now_ms: u64,
    ) -> Result<Monetary<U>, ExchangeError> {
        if amount.currency.spec_numeric_code() == target.spec_numeric_code() {
            if U::from_dec_ok(amount.amount.to_dec_spec()) {
                Ok(
                    Monetary {
                        amount: U::from_dec_spec(amount.amount.to_dec_spec()),
                        currency: target,
                        context: amount.context,
                    },
                )
            } else {
                Err(ExchangeError::ConversionError)
            }
        } else {
            match first_rate(self.spec_providers(), amount.currency, target, now_ms) {
                None => Err(ExchangeError::NoRateFound),
                Some(rate) => Self::spec_apply_convert_checked(rate, amount, now_ms),
            }
        }
    }

    /// Apply a rate across backing types, reporting machine limits as a
    /// conversion error.
    fn apply_convert_checked<U: Monetizable>(
        rate: &ExchangeRate<T>,
        amount: &Monetary<T>,
        now_ms: u64,
    ) -> (r: Result<Monetary<U>, ExchangeError>)
        ensures
            r == Self::spec_apply_convert_checked::<U>(*rate, *amount, now_ms),
    {
        if !(amount.currency == rate.base_currency) {
            return Err(ExchangeError::CurrencyMismatch);
        }
        if rate.is_expired(now_ms) {
            return Err(ExchangeError::ExpiredRate);
        }
        let amount_decimal = match amount.amount.try_to_decimal() {
            Ok(d) => d,
            Err(_) => {
                return Err(ExchangeError::ConversionError);
            },
        };
        let factor_decimal = match rate.factor.try_to_decimal() {
            Ok(d) => d,
            Err(_) => {
                return Err(ExchangeError::ConversionError);
            },
        };
        let rounded = match amount_decimal.try_multiply(
            &factor_decimal,
            &rate.context.rounding_mode,
            rate.context.max_scale,
        ) {
            Some(p) => p,
            None => {
                return Err(ExchangeError::ConversionError);
            },
        };
        match U::try_from_decimal(rounded) {
            Ok(a) => Ok(
                Monetary::new_with_context(a, rate.target_currency.clone(), amount.context),
            ),
            Err(_) => Err(ExchangeError::ConversionError),
        }
    }

    /// Convert an amount into the target currency and another backing
    /// type in one step, through the fixed-point decimal.
    #[verifier::loop_isolation(false)]
    pub fn convert_to<U: Monetizable>(
        &mut self,
        amount: &Monetary<T>,
        target_currency: &Currency,
        now_ms: u64,
    ) -> (r: Result<Monetary<U>, ExchangeError>)
        ensures
            r == old(self).spec_convert_to_result::<U>(*amount, *target_currency, now_ms),
            final (self).spec_cache() == old(self).spec_cache(),
            final (self).spec_default_context() == old(self).spec_default_context(),
            final (self).spec_providers().len() == old(self).spec_providers().len(),
    {
        if amount.currency.numeric_code() == target_currency.numeric_code() {
            let converted = match amount.amount.try_to_decimal() {
                Ok(d) => d,
                Err(_) => {
                    return Err(ExchangeError::ConversionError);
                },
            };
            match U::try_from_decimal(converted) {
                Ok(a) => {
                    return Ok(
                        Monetary::new_with_context(a, target_currency.clone(), amount.context),
                    );
                },
                Err(_) => {
                    return Err(ExchangeError::ConversionError);
                },
            }
        }
        let n = self.providers.len();
        let mut j: usize = 0;
        proof {
            assert(self.providers@.skip(0) =~= self.providers@);
        }
        while j < n
            invariant
                0 <= j <= n == self.providers@.len(),
                self.rate_cache@ == old(self).rate_cache@,
                self.default_context == old(self).default_context,
                forall|k: int| j <= k < n ==> self.providers@[k] == old(self).providers@[k],
                first_rate(old(self).providers@.skip(j as int), amount.currency, *target_currency, now_ms)
                    == first_rate(old(self).providers@, amount.currency, *target_currency, now_ms),
            decreases n - j,
        {
            proof {
                assert(old(self).providers@.skip(j as int)[0] == old(self).providers@[j as int]);
            }
            let rate_opt = self.providers[j].get_exchange_rate(
                &amount.currency,
                target_currency,
                now_ms,
            );
            match rate_opt {
                Some(rate) => {
                    return Self::apply_convert_checked::<U>(&rate, amount, now_ms);
                },
                None => {
                    proof {
                        assert(old(self).providers@.skip(j as int).drop_first() =~= old(
                            self,
                        ).providers@.skip(j as int + 1));
                    }
                    j = j + 1;
                },
            }
        }
        proof {
            assert(old(self).providers@.skip(n as int).len() == 0);
        }
        Err(ExchangeError::NoRateFound)
    }

    /// Law: whatever the service state, a conversion that succeeds hands
    /// back a value carrying the input amount's own context.
    pub proof fn lemma_convert_keeps_context(
        service: CurrencyConversion<T, P>,
        amount: Monetary<T>,
        target: Currency,
        now_ms: u64,
    )
        ensures
            (service.spec_convert_result(amount, target, now_ms) matches Ok(m) ==> m.context
                == amount.context),
    {
    }

    /// Convert a batch of amounts into the target currency, one result
    /// per input and in input order.  Amounts already in the target
    /// currency pass through unchanged; for the rest, the first
    /// conversion of each currency pair fills the cache and the other
    /// members of that pair's partition are served from it.
    #[verifier::loop_isolation(false)]
    pub fn convert_batch(
        &mut self,
        amounts: &Vec<Monetary<T>>,
        target_currency: &Currency,
        now_ms: u64,
    ) -> (r: Vec<Result<Monetary<T>, ExchangeError>>)
        ensures
            r@.len() == amounts@.len(),
            forall|i: int|
                0 <= i < amounts@.len() && (#[trigger] amounts@[i]).currency.spec_numeric_code()
                    == target_currency.spec_numeric_code() ==> r@[i] == Ok::<
                    Monetary<T>,
                    ExchangeError,
                >(amounts@[i]),
            forall|i: int|
                0 <= i < amounts@.len() ==> (#[trigger] r@[i] matches Ok(m) ==> m.context
                    == amounts@[i].context),
            final (self).spec_default_context() == old(self).spec_default_context(),
            final (self).spec_providers().len() == old(self).spec_providers().len(),
    {
        let n = amounts.len();
        let mut results: Vec<Result<Monetary<T>, ExchangeError>> = Vec::new();
        let mut i: usize = 0;
        while i < n
            invariant
                0 <= i <= n == amounts@.len(),
                results@.len() == i,
                forall|k: int|
                    0 <= k < i && (#[trigger] amounts@[k]).currency.spec_numeric_code()
                        == target_currency.spec_numeric_code() ==> results@[k] == Ok::<
                        Monetary<T>,
                        ExchangeError,
                    >(amounts@[k]),
                forall|k: int|
                    0 <= k < i ==> (#[trigger] results@[k] matches Ok(m) ==> m.context
                        == amounts@[k].context),
                self.default_context == old(self).default_context,
                self.providers@.len() == old(self).providers@.len(),
            decreases n - i,
        {
            let outcome = self.convert(&amounts[i], target_currency, now_ms);
            results.push(outcome);
            i = i + 1;
        }
        results
    }
}

impl<T: Monetizable, P: ExchangeRateProvider<T>> Default for CurrencyConversion<T, P> {
    /// A service with no providers, an empty cache, and the default
    /// context.
    fn default() -> (r: Self)
        ensures
            r.spec_providers() == Seq::<P>::empty(),
            r.spec_cache() == Seq::<(CurrencyPair, ExchangeRate<T>)>::empty(),
            r.spec_default_context() == MonetaryContext::spec_default(),
    {
        Self::new()
    }
}

/// Conversion methods directly on a monetary value, for callers that
/// hold a rate factor rather than a rate object.
pub trait MoneyConversion<T: Monetizable>: Sized {
    /// Whether the in-type scaling is within machine limits.
    spec fn rate_mul_ok(&self, rate: T) -> bool;

    /// The scaled amount.
    spec fn rate_mul(&self, rate: T) -> T;

    /// The product of amount and rate in the fixed-point decimal.
    spec fn dec_product(&self, rate: T) -> BigDecimal;

    /// Whether the decimal product is within machine limits.
    spec fn dec_product_ok(&self, rate: T) -> bool;

    fn convert_with_rate(&self, rate: T, target_currency: Currency) -> (r: Monetary<T>)
        requires
            self.rate_mul_ok(rate),
        ensures
            r.amount == self.rate_mul(rate),
            r.currency == target_currency,
    ;

    fn convert_to_type<U: Monetizable>(&self, rate: T, target_currency: Currency) -> (r: Result<
        Monetary<U>,
        ExchangeError,
    >)
        requires
            self.dec_product_ok(rate),
        ensures
            U::from_dec_ok(self.dec_product(rate)) ==> (r matches Ok(m) && m.amount
                == U::from_dec_spec(self.dec_product(rate)) && m.currency == target_currency),
            !U::from_dec_ok(self.dec_product(rate)) ==> r is Err,
    ;
}

impl<T: Monetizable> MoneyConversion<T> for Monetary<T> {
    open spec fn rate_mul_ok(&self, rate: T) -> bool {
        self.amount.mul_ok(&rate)
    }

    open spec fn rate_mul(&self, rate: T) -> T {
        self.amount.mul_spec(&rate)
    }

    open spec fn dec_product(&self, rate: T) -> BigDecimal {
        self.amount.to_dec_spec().mul_spec(&rate.to_dec_spec())
    }

    open spec fn dec_product_ok(&self, rate: T) -> bool {
        self.amount.to_dec_spec().mul_ok(&rate.to_dec_spec())
    }

    /// Scale by the rate within the backing type; the result carries
    /// the target currency and a default context.
    fn convert_with_rate(&self, rate: T, target_currency: Currency) -> (r: Monetary<T>) {
        let new_amount = self.amount.mul_val(&rate);
        Monetary::new(new_amount, target_currency)
    }

    /// Scale by the rate in the fixed-point decimal and convert to the
    /// target backing type.
    fn convert_to_type<U: Monetizable>(&self, rate: T, target_currency: Currency) -> (r: Result<
        Monetary<U>,
        ExchangeError,
    >) {
        let amount_decimal = match self.amount.try_to_decimal() {
            Ok(d) => d,
            Err(_) => {
                return Err(ExchangeError::ConversionError);
            },
        };
        let rate_decimal = match rate.try_to_decimal() {
            Ok(d) => d,
            Err(_) => {
                return Err(ExchangeError::ConversionError);
            },
        };
        let result_decimal = amount_decimal.mul_val(&rate_decimal);
        match U::try_from_decimal(result_decimal) {
            Ok(a) => Ok(Monetary::new(a, target_currency)),
            Err(_) => Err(ExchangeError::ConversionError),
        }
    }
}

} // verus!
