//! A fixed-rate provider backed by an in-memory table: the simplest
//! rate source, for tests and for known-constant rates.

use vstd::prelude::*;
use crate::money::currency::Currency;
use crate::money::{MonetaryContext, Monetizable};
use crate::exchange::base_exchange::{
    CurrencyPair,
    ExchangeRate,
    ExchangeRateProvider,
    assoc_index,
    seq_lookup,
    spec_pair,
};

verus! {

/// An in-memory table from currency pairs to rate factors, plus the
/// context attached to every minted rate.  Lookup is pure: minted rates
/// carry no time-to-live.
pub struct StaticRateProvider<T: Monetizable> {
    rates: Vec<(CurrencyPair, T)>,
    context: MonetaryContext,
}

impl<T: Monetizable> StaticRateProvider<T> {
    /// The rate table, newest entry first.
    pub closed spec fn spec_rates(&self) -> Seq<(CurrencyPair, T)> {
        self.rates@
    }

    /// The context attached to minted rates.
    pub closed spec fn spec_context(&self) -> MonetaryContext {
        self.context
    }

    pub fn new() -> (r: Self)
        ensures
            r.spec_rates() == Seq::<(CurrencyPair, T)>::empty(),
            r.spec_context() == MonetaryContext::spec_default(),
    {
        Self { rates: Vec::new(), context: MonetaryContext::default() }
    }

    pub fn with_context(context: MonetaryContext) -> (r: Self)
        ensures
            r.spec_rates() == Seq::<(CurrencyPair, T)>::empty(),
            r.spec_context() == context,
    {
        Self { rates: Vec::new(), context }
    }

    /// Record a rate for the pair; it replaces any rate recorded for
    /// the same pair before, and leaves every other pair's rate as it
    /// was.
    pub fn add_rate(&mut self, base: &Currency, target: &Currency, rate: T)
        ensures
            seq_lookup(final (self).spec_rates(), spec_pair(base, target)) == Some(rate),
            forall|q: CurrencyPair|
                q != spec_pair(base, target) ==> #[trigger] seq_lookup(
                    final (self).spec_rates(),
                    q,
                ) == seq_lookup(old(self).spec_rates(), q),
            final (self).spec_context() == old(self).spec_context(),
    {
        let pair = CurrencyPair::new(base, target);
        self.rates.insert(0, (pair, rate));
        proof {
            let s = self.rates@;
            assert(s[0] == (pair, rate));
            assert(s.drop_first() =~= old(self).rates@);
        }
    }
}

impl<T: Monetizable> ExchangeRateProvider<T> for StaticRateProvider<T> {
    /// The table's factor for the pair, minted as a rate stamped `now`,
    /// without a time-to-live, carrying this provider's context.
    open spec fn spec_rate(&self, base: Currency, target: Currency, now_ms: u64) -> Option<
        ExchangeRate<T>,
    > {
        match seq_lookup(self.spec_rates(), spec_pair(&base, &target)) {
            Some(f) => Some(
                ExchangeRate {
                    base_currency: base,
                    target_currency: target,
                    factor: f,
                    timestamp: now_ms,
                    ttl: None,
                    context: self.spec_context(),
                },
            ),
            None => None,
        }
    }

    fn get_exchange_rate(
        &mut self,
        base_currency: &Currency,
        target_currency: &Currency,
        now_ms: u64,
    ) -> (r: Option<ExchangeRate<T>>) {
        let pair = CurrencyPair::new(base_currency, target_currency);
        match assoc_index(&self.rates, pair) {
            Some(i) => {
                let factor = self.rates[i].1;
                Some(
                    ExchangeRate::new(
                        base_currency.clone(),
                        target_currency.clone(),
                        factor,
                    ).with_timestamp(now_ms).with_context(self.context),
                )
            },
            None => None,
        }
    }
}

} // verus!
