//! A caching provider that memoizes upstream lookups.
//!
//! Once a rate is inserted, its time-to-live is this cache's own: the
//! cache layer decides freshness policy, and upstream time-to-lives are
//! discarded.  Misses are never cached, so a failing upstream can be
//! retried at once.

use vstd::prelude::*;
use crate::money::currency::Currency;
use crate::money::Monetizable;
use crate::exchange::base_exchange::{
    CurrencyPair,
    ExchangeRate,
    ExchangeRateProvider,
    assoc_index,
    seq_lookup,
    spec_pair,
};

verus! {

/// How often the cache sweeps out expired entries: after every run of
/// this many insertions.
pub const CLEANUP_PERIOD: usize = 100;

/// The entries a cleanup at `now_ms` keeps: those not yet expired.
pub open spec fn not_expired_pred<T: Monetizable>(now_ms: u64) -> spec_fn(
    (CurrencyPair, ExchangeRate<T>),
) -> bool {
    |e: (CurrencyPair, ExchangeRate<T>)| !e.1.is_expired_spec(now_ms)
}

/// A memoizing wrapper around one upstream provider.
pub struct CachedExchangeRateProvider<T: Monetizable, P: ExchangeRateProvider<T>> {
    cache: Vec<(CurrencyPair, ExchangeRate<T>)>,
    upstream_provider: P,
    default_ttl: u64,
}

impl<T: Monetizable, P: ExchangeRateProvider<T>> CachedExchangeRateProvider<T, P> {
    /// The memoized rates, newest first.
    pub closed spec fn spec_cache(&self) -> Seq<(CurrencyPair, ExchangeRate<T>)> {
        self.cache@
    }

    /// The wrapped provider.
    pub closed spec fn spec_upstream(&self) -> P {
        self.upstream_provider
    }

    /// The time-to-live stamped on every inserted rate.
    pub closed spec fn spec_ttl(&self) -> u64 {
        self.default_ttl
    }

    /// The cached rate for the pair, provided it has not expired.
    pub open spec fn spec_cached_fresh(self, pair: CurrencyPair, now_ms: u64) -> Option<
        ExchangeRate<T>,
    > {
        match seq_lookup(self.spec_cache(), pair) {
            Some(e) => if !e.is_expired_spec(now_ms) {
                Some(e)
            } else {
                None
            },
            None => None,
        }
    }

    /// The cache contents after a hit from upstream is inserted: the
    /// rate goes to the front with this cache's time-to-live, and every
    /// hundredth insertion sweeps out whatever has expired.
    pub open spec fn spec_cache_after_insert(
        self,
        pair: CurrencyPair,
        rate: ExchangeRate<T>,
        now_ms: u64,
    ) -> Seq<(CurrencyPair, ExchangeRate<T>)> {
        let inserted = self.spec_cache().insert(
            0,
            (pair, ExchangeRate { ttl: Some(self.spec_ttl()), ..rate }),
        );
        if inserted.len() % (CLEANUP_PERIOD as nat) == 0 {
            inserted.filter(not_expired_pred(now_ms))
        } else {
            inserted
        }
    }

    pub fn new(upstream_provider: P, default_ttl_ms: u64) -> (r: Self)
        ensures
            r.spec_cache() == Seq::<(CurrencyPair, ExchangeRate<T>)>::empty(),
            r.spec_upstream() == upstream_provider,
            r.spec_ttl() == default_ttl_ms,
    {
        Self { cache: Vec::new(), upstream_provider, default_ttl: default_ttl_ms }
    }

    /// The wrapped provider, for inspection.
    pub fn upstream(&self) -> (r: &P)
        ensures
            *r == self.spec_upstream(),
    {
        &self.upstream_provider
    }

    /// Drop every expired cache entry.
    #[verifier::loop_isolation(false)]
    fn cleanup_expired(&mut self, now_ms: u64)
        ensures
            final (self).spec_cache() == old(self).spec_cache().filter(
                not_expired_pred::<T>(now_ms),
            ),
            final (self).spec_upstream() == old(self).spec_upstream(),
            final (self).spec_ttl() == old(self).spec_ttl(),
    {
        let ghost pred = not_expired_pred::<T>(now_ms);
        let n = self.cache.len();
        let mut kept: Vec<(CurrencyPair, ExchangeRate<T>)> = Vec::new();
        let mut i: usize = 0;
        proof {
            assert(old(self).spec_cache().subrange(0, 0) =~= Seq::<(
                CurrencyPair,
                ExchangeRate<T>,
            )>::empty());
            assert(Seq::<(CurrencyPair, ExchangeRate<T>)>::empty().filter(pred) =~= Seq::<(
                CurrencyPair,
                ExchangeRate<T>,
            )>::empty());
        }
        while i < n
            invariant
                0 <= i <= n == self.cache@.len(),
                self.cache@ == old(self).cache@,
                self.upstream_provider == old(self).upstream_provider,
                self.default_ttl == old(self).default_ttl,
                kept@ == self.cache@.subrange(0, i as int).filter(not_expired_pred::<T>(now_ms)),
            decreases n - i,
        {
            let ghost pre = self.cache@.subrange(0, i as int);
            let entry = (self.cache[i].0, self.cache[i].1.clone());
            proof {
                assert(entry == self.cache@[i as int]);
                assert(self.cache@.subrange(0, i + 1).drop_last() =~= pre);
                assert(self.cache@.subrange(0, i + 1).last() == self.cache@[i as int]);
            }
            let keep = !entry.1.is_expired(now_ms);
            if keep {
                kept.push(entry);
            }
            proof {
                let s1 = self.cache@.subrange(0, i + 1);
                assert(s1.filter(pred) == if pred(s1.last()) {
                    s1.drop_last().filter(pred).push(s1.last())
                } else {
                    s1.drop_last().filter(pred)
                }) by {
                    reveal_with_fuel(Seq::filter, 2);
                }
            }
            i = i + 1;
        }
        proof {
            assert(self.cache@.subrange(0, n as int) =~= self.cache@);
        }
        self.cache = kept;
    }

    /// Look up a rate, serving a fresh cached entry without consulting
    /// upstream; on a cache miss, ask upstream, memoize any hit under
    /// this cache's time-to-live, and hand the upstream rate back.
    ///
    /// A fresh cached entry leaves the whole provider — the upstream
    /// included — exactly as it was: the cache freshness law.
    pub fn lookup_rate(
        &mut self,
        base_currency: &Currency,
        target_currency: &Currency,
        now_ms: u64,
    ) -> (r: Option<ExchangeRate<T>>)
        ensures
            r == old(self).spec_rate(*base_currency, *target_currency, now_ms),
            old(self).spec_cached_fresh(spec_pair(base_currency, target_currency), now_ms)
                is Some ==> *final (self) == *old(self),
            final (self).spec_ttl() == old(self).spec_ttl(),
            ({
                let pair = spec_pair(base_currency, target_currency);
                old(self).spec_cached_fresh(pair, now_ms) is None ==> match old(
                    self,
                ).spec_upstream().spec_rate(*base_currency, *target_currency, now_ms) {
                    Some(rate) => final (self).spec_cache() == old(self).spec_cache_after_insert(
                        pair,
                        rate,
                        now_ms,
                    ),
                    None => final (self).spec_cache() == old(self).spec_cache(),
                }
            }),
    {
        let pair = CurrencyPair::new(base_currency, target_currency);
        match assoc_index(&self.cache, pair) {
            Some(i) => {
                let entry = self.cache[i].1.clone();
                if !entry.is_expired(now_ms) {
                    return Some(entry);
                }
            },
            None => {},
        }
        match self.upstream_provider.get_exchange_rate(base_currency, target_currency, now_ms) {
            Some(rate) => {
                let cached_copy = rate.clone().with_ttl(self.default_ttl);
                self.cache.insert(0, (pair, cached_copy));
                if self.cache.len() % CLEANUP_PERIOD == 0 {
                    self.cleanup_expired(now_ms);
                }
                Some(rate)
            },
            None => None,
        }
    }
}

impl<T: Monetizable, P: ExchangeRateProvider<T>> ExchangeRateProvider<T> for CachedExchangeRateProvider<
    T,
    P,
> {
    /// A fresh cached entry, or else whatever upstream answers.
    open spec fn spec_rate(&self, base: Currency, target: Currency, now_ms: u64) -> Option<
        ExchangeRate<T>,
    > {
        match self.spec_cached_fresh(spec_pair(&base, &target), now_ms) {
            Some(e) => Some(e),
            None => self.spec_upstream().spec_rate(base, target, now_ms),
        }
    }

    fn get_exchange_rate(
        &mut self,
        base_currency: &Currency,
        target_currency: &Currency,
        now_ms: u64,
    ) -> (r: Option<ExchangeRate<T>>) {
        self.lookup_rate(base_currency, target_currency, now_ms)
    }
}

} // verus!
