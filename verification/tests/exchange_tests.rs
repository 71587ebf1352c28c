use std::str::FromStr;

use moneta::constants::RoundingMode;
use moneta::errors::ExchangeError;
use moneta::exchange::base_exchange::{
    CurrencyConversion,
    CurrencyPair,
    ExchangeRate,
    ExchangeRateProvider,
    MoneyConversion,
};
use moneta::exchange::cached_exchange::CachedExchangeRateProvider;
use moneta::exchange::static_exchange::StaticRateProvider;
use moneta::money::currency::Currency;
use moneta::money::currency_unit::CurrencyUnit;
use moneta::money::types::BigDecimal;
use moneta::money::{Monetary, MonetaryContext};

fn dec(s: &str) -> BigDecimal {
    BigDecimal::from_str(s).unwrap()
}

fn create_test_currency(code: &str, numeric: i32) -> Currency {
    let unit = CurrencyUnit::new(code, numeric, 2, code);
    Currency::new(unit, "$")
}

fn create_test_money(amount: &str, currency: Currency) -> Monetary<BigDecimal> {
    Monetary::new(dec(amount), currency)
}

/// A provider that counts how often it is consulted.
struct MockProvider {
    call_count: usize,
    rates: Vec<(CurrencyPair, BigDecimal)>,
}

impl MockProvider {
    fn new() -> Self {
        Self { call_count: 0, rates: Vec::new() }
    }

    fn with_rate(mut self, base: &Currency, target: &Currency, rate: BigDecimal) -> Self {
        let pair = CurrencyPair::new(base, target);
        self.rates.push((pair, rate));
        self
    }

    fn get_call_count(&self) -> usize {
        self.call_count
    }
}

impl ExchangeRateProvider<BigDecimal> for MockProvider {
    // The ghost half of the trait: never called at run time.
    fn spec_rate(
        &self,
        _base: Currency,
        _target: Currency,
        _now_ms: u64,
    ) -> Option<ExchangeRate<BigDecimal>> {
        unreachable!()
    }

    fn get_exchange_rate(
        &mut self,
        base_currency: &Currency,
        target_currency: &Currency,
        now_ms: u64,
    ) -> Option<ExchangeRate<BigDecimal>> {
        self.call_count += 1;
        let pair = CurrencyPair::new(base_currency, target_currency);
        self.rates.iter().find(|e| e.0 == pair).map(|e| {
            ExchangeRate::new(base_currency.clone(), target_currency.clone(), e.1)
                .with_timestamp(now_ms)
        })
    }
}

#[test]
fn test_currency_pair_equality() {
    let usd = create_test_currency("USD", 840);
    let eur = create_test_currency("EUR", 978);

    let pair1 = CurrencyPair::new(&usd, &eur);
    let pair2 = CurrencyPair::new(&usd, &eur);

    assert_eq!(pair1, pair2);
}

#[test]
fn test_currency_pair_creation() {
    let usd = create_test_currency("USD", 840);
    let eur = create_test_currency("EUR", 978);

    let pair1 = CurrencyPair::new(&usd, &eur);
    let pair2 = CurrencyPair::new(&usd, &eur);
    let pair3 = CurrencyPair::new(&eur, &usd);

    assert_eq!(pair1, pair2);
    assert_ne!(pair1, pair3);
}

#[test]
fn test_exchange_error_display() {
    let errors = vec![
        ExchangeError::CurrencyMismatch,
        ExchangeError::NoRateFound,
        ExchangeError::ExpiredRate,
        ExchangeError::InvalidRate,
        ExchangeError::ProviderError,
        ExchangeError::ConversionError,
    ];

    for error in errors {
        let error_string = error.to_string();
        assert!(!error_string.is_empty());
    }
}

#[test]
fn test_same_currency_conversion() {
    let usd = create_test_currency("USD", 840);
    let amount = create_test_money("100", usd.clone());

    let mut converter: CurrencyConversion<BigDecimal, StaticRateProvider<BigDecimal>> =
        CurrencyConversion::new();
    let result = converter.convert(&amount, &usd, 0).unwrap();

    assert_eq!(result.amount, dec("100"));
}

#[test]
fn test_static_rate_provider() {
    let usd = create_test_currency("USD", 840);
    let eur = create_test_currency("EUR", 978);

    let mut provider = StaticRateProvider::new();
    provider.add_rate(&usd, &eur, dec("0.85"));

    let rate = provider.get_exchange_rate(&usd, &eur, 0).unwrap();
    assert_eq!(*rate.get_factor(), dec("0.85"));
}

#[test]
fn test_cross_type_conversion() {
    let usd = create_test_currency("USD", 840);
    let eur = create_test_currency("EUR", 978);

    let amount_decimal = create_test_money("100", usd.clone());
    let rate = ExchangeRate::new(usd, eur.clone(), dec("0.85"));

    let result: Monetary<BigDecimal> = rate.apply_convert(&amount_decimal, 0).unwrap();
    assert_eq!(result.amount, dec("85.0"));
}

#[test]
fn test_exchange_rate_basic_functionality() {
    let usd = create_test_currency("USD", 840);
    let eur = create_test_currency("EUR", 978);
    let rate_value = dec("0.85");

    let rate = ExchangeRate::new(usd.clone(), eur.clone(), rate_value);

    assert_eq!(rate.get_base_currency(), &usd);
    assert_eq!(rate.get_target_currency(), &eur);
    assert_eq!(*rate.get_factor(), rate_value);
    assert!(!rate.is_expired(0));
    assert!(rate.get_ttl().is_none());
}

#[test]
fn test_exchange_rate_with_ttl() {
    let usd = create_test_currency("USD", 840);
    let eur = create_test_currency("EUR", 978);
    let rate_value = dec("0.85");

    let rate = ExchangeRate::new(usd, eur, rate_value).with_ttl(50);

    assert!(!rate.is_expired(0));
    assert_eq!(rate.get_ttl(), &Some(50));

    // Sixty milliseconds later the 50 ms time-to-live has elapsed.
    assert!(rate.is_expired(60));
}

#[test]
fn test_exchange_rate_apply_same_type() {
    let usd = create_test_currency("USD", 840);
    let eur = create_test_currency("EUR", 978);
    let rate_value = dec("0.85");

    let rate = ExchangeRate::new(usd.clone(), eur.clone(), rate_value);
    let money = create_test_money("100", usd);

    let result = rate.apply(&money, 0).unwrap();
    assert_eq!(result.amount, dec("85.0"));
    assert_eq!(result.currency, eur);
}

#[test]
fn test_exchange_rate_currency_mismatch() {
    let usd = create_test_currency("USD", 840);
    let eur = create_test_currency("EUR", 978);
    let gbp = create_test_currency("GBP", 826);
    let rate_value = dec("0.85");

    let rate = ExchangeRate::new(usd, eur, rate_value);
    let money = create_test_money("100", gbp);

    let result = rate.apply(&money, 0);
    assert_eq!(result.unwrap_err(), ExchangeError::CurrencyMismatch);
}

#[test]
fn test_exchange_rate_expired() {
    let usd = create_test_currency("USD", 840);
    let eur = create_test_currency("EUR", 978);
    let rate_value = dec("0.85");

    let rate = ExchangeRate::new(usd.clone(), eur, rate_value).with_ttl(10);
    let money = create_test_money("100", usd);

    // Twenty milliseconds later the 10 ms time-to-live has elapsed.
    let result = rate.apply(&money, 20);
    assert_eq!(result.unwrap_err(), ExchangeError::ExpiredRate);
}

#[test]
fn test_exchange_rate_apply_convert_cross_type() {
    let usd = create_test_currency("USD", 840);
    let eur = create_test_currency("EUR", 978);
    let rate_value = dec("0.85");

    let rate = ExchangeRate::new(usd.clone(), eur.clone(), rate_value);
    let money = create_test_money("100", usd);

    let result: Result<Monetary<BigDecimal>, ExchangeError> = rate.apply_convert(&money, 0);
    assert!(result.is_ok());

    let converted = result.unwrap();
    assert_eq!(converted.amount, dec("85.0"));
    assert_eq!(converted.currency, eur);
}

#[test]
fn test_exchange_rate_rounding_modes() {
    let usd = create_test_currency("USD", 840);
    let eur = create_test_currency("EUR", 978);
    let rate_value = dec("0.8555"); // yields 85.55

    let context_half_up = MonetaryContext::builder()
        .with_rounding_mode(RoundingMode::HalfUp)
        .with_max_scale(1)
        .build();

    let rate =
        ExchangeRate::new(usd.clone(), eur.clone(), rate_value).with_context(context_half_up);
    let money = create_test_money("100", usd.clone());

    let result: Result<Monetary<BigDecimal>, ExchangeError> = rate.apply_convert(&money, 0);
    assert!(result.is_ok());
    assert_eq!(result.unwrap().amount, dec("85.6"));

    let context_down = MonetaryContext::builder()
        .with_rounding_mode(RoundingMode::Down)
        .with_max_scale(1)
        .build();

    let rate_down =
        ExchangeRate::new(usd.clone(), eur.clone(), rate_value).with_context(context_down);

    let result_down: Result<Monetary<BigDecimal>, ExchangeError> = rate_down.apply_convert(&money, 0);
    assert!(result_down.is_ok());
    assert_eq!(result_down.unwrap().amount, dec("85.5"));
}

#[test]
fn test_static_rate_provider_basic() {
    let usd = create_test_currency("USD", 840);
    let eur = create_test_currency("EUR", 978);
    let rate_value = dec("0.85");

    let mut provider = StaticRateProvider::new();
    provider.add_rate(&usd, &eur, rate_value);

    let rate = provider.get_exchange_rate(&usd, &eur, 0).unwrap();
    assert_eq!(*rate.get_factor(), rate_value);
    assert_eq!(rate.get_base_currency(), &usd);
    assert_eq!(rate.get_target_currency(), &eur);
}

#[test]
fn test_static_rate_provider_no_rate() {
    let usd = create_test_currency("USD", 840);
    let eur = create_test_currency("EUR", 978);
    let gbp = create_test_currency("GBP", 826);

    let mut provider = StaticRateProvider::new();
    provider.add_rate(&usd, &eur, dec("0.85"));

    let rate = provider.get_exchange_rate(&usd, &gbp, 0);
    assert!(rate.is_none());
}

#[test]
fn test_static_rate_provider_with_context() {
    let usd = create_test_currency("USD", 840);
    let eur = create_test_currency("EUR", 978);
    let rate_value = dec("0.85");

    let context = MonetaryContext::builder()
        .with_rounding_mode(RoundingMode::HalfUp)
        .with_max_scale(2)
        .build();

    let mut provider = StaticRateProvider::with_context(context);
    provider.add_rate(&usd, &eur, rate_value);

    let rate = provider.get_exchange_rate(&usd, &eur, 0).unwrap();
    assert_eq!(rate.get_context().rounding_mode(), context.rounding_mode());
    assert_eq!(rate.get_context().max_scale(), context.max_scale());
}

#[test]
fn test_cached_provider_basic_functionality() {
    let usd = create_test_currency("USD", 840);
    let eur = create_test_currency("EUR", 978);
    let rate_value = dec("0.85");

    let mock_provider = MockProvider::new().with_rate(&usd, &eur, rate_value);

    let mut cached_provider = CachedExchangeRateProvider::new(mock_provider, 300_000);

    let rate1 = cached_provider.get_exchange_rate(&usd, &eur, 0).unwrap();
    assert_eq!(*rate1.get_factor(), rate_value);

    let rate2 = cached_provider.get_exchange_rate(&usd, &eur, 0).unwrap();
    assert_eq!(*rate2.get_factor(), rate_value);
}

#[test]
fn test_cached_provider_cache_behavior() {
    let usd = create_test_currency("USD", 840);
    let eur = create_test_currency("EUR", 978);
    let rate_value = dec("0.85");

    let mock_provider = MockProvider::new().with_rate(&usd, &eur, rate_value);
    let mut cached_provider = CachedExchangeRateProvider::new(mock_provider, 300_000);

    // Multiple lookups within the time-to-live hit upstream only once.
    for _ in 0..5 {
        let _rate = cached_provider.get_exchange_rate(&usd, &eur, 0);
    }

    assert_eq!(cached_provider.upstream().get_call_count(), 1);
}

#[test]
fn test_cached_provider_ttl_expiration() {
    let usd = create_test_currency("USD", 840);
    let eur = create_test_currency("EUR", 978);
    let rate_value = dec("0.85");

    let mock_provider = MockProvider::new().with_rate(&usd, &eur, rate_value);
    let mut cached_provider = CachedExchangeRateProvider::new(mock_provider, 50);

    // First lookup goes upstream.
    let _rate1 = cached_provider.get_exchange_rate(&usd, &eur, 0);
    assert_eq!(cached_provider.upstream().get_call_count(), 1);

    // A second lookup within the 50 ms time-to-live is served from the cache.
    let _rate2 = cached_provider.get_exchange_rate(&usd, &eur, 40);
    assert_eq!(cached_provider.upstream().get_call_count(), 1);

    // Sixty milliseconds after the insert, the entry has expired.
    let _rate3 = cached_provider.get_exchange_rate(&usd, &eur, 60);
    assert_eq!(cached_provider.upstream().get_call_count(), 2);
}

#[test]
fn test_currency_conversion_service_basic() {
    let usd = create_test_currency("USD", 840);
    let eur = create_test_currency("EUR", 978);
    let rate_value = dec("0.85");

    let mut provider = StaticRateProvider::new();
    provider.add_rate(&usd, &eur, rate_value);

    let mut conversion_service = CurrencyConversion::new();
    conversion_service.add_provider(provider);

    let money = create_test_money("100", usd);
    let result = conversion_service.convert(&money, &eur, 0).unwrap();

    assert_eq!(result.amount, dec("85.0"));
    assert_eq!(result.currency, eur);
}

#[test]
fn test_currency_conversion_same_currency() {
    let usd = create_test_currency("USD", 840);

    let mut conversion_service: CurrencyConversion<BigDecimal, StaticRateProvider<BigDecimal>> =
        CurrencyConversion::new();
    let money = create_test_money("100", usd.clone());
    let result = conversion_service.convert(&money, &usd, 0).unwrap();

    assert_eq!(result.amount, money.amount);
    assert_eq!(result.currency, money.currency);
}

#[test]
fn test_currency_conversion_no_rate_found() {
    let usd = create_test_currency("USD", 840);
    let eur = create_test_currency("EUR", 978);

    let mut conversion_service: CurrencyConversion<BigDecimal, StaticRateProvider<BigDecimal>> =
        CurrencyConversion::new();
    let money = create_test_money("100", usd);
    let result = conversion_service.convert(&money, &eur, 0);

    assert_eq!(result.unwrap_err(), ExchangeError::NoRateFound);
}

#[test]
fn test_currency_conversion_fallback_providers() {
    let usd = create_test_currency("USD", 840);
    let eur = create_test_currency("EUR", 978);
    let gbp = create_test_currency("GBP", 826);

    // First provider only has USD -> EUR.
    let mut provider1 = StaticRateProvider::new();
    provider1.add_rate(&usd, &eur, dec("0.85"));

    // Second provider only has USD -> GBP.
    let mut provider2 = StaticRateProvider::new();
    provider2.add_rate(&usd, &gbp, dec("0.75"));

    let mut conversion_service = CurrencyConversion::new();
    conversion_service.add_provider(provider1);
    conversion_service.add_provider(provider2);

    let money = create_test_money("100", usd.clone());

    let eur_result = conversion_service.convert(&money, &eur, 0).unwrap();
    assert_eq!(eur_result.amount, dec("85.0"));

    let gbp_result = conversion_service.convert(&money, &gbp, 0).unwrap();
    assert_eq!(gbp_result.amount, dec("75.0"));
}

#[test]
fn test_currency_conversion_batch() {
    let usd = create_test_currency("USD", 840);
    let eur = create_test_currency("EUR", 978);
    let gbp = create_test_currency("GBP", 826);

    let mut provider = StaticRateProvider::new();
    provider.add_rate(&usd, &eur, dec("0.85"));
    provider.add_rate(&gbp, &eur, dec("1.15"));

    let mut conversion_service = CurrencyConversion::new();
    conversion_service.add_provider(provider);

    let amounts = vec![
        create_test_money("100", usd.clone()),
        create_test_money("200", usd),
        create_test_money("50", gbp),
        create_test_money("75", eur.clone()),
    ];

    let results = conversion_service.convert_batch(&amounts, &eur, 0);

    assert_eq!(results.len(), 4);
    assert_eq!(results[0].as_ref().unwrap().amount, dec("85.0"));
    assert_eq!(results[1].as_ref().unwrap().amount, dec("170.0"));
    assert_eq!(results[2].as_ref().unwrap().amount, dec("57.5"));
    assert_eq!(results[3].as_ref().unwrap().amount, dec("75"));
}

#[test]
fn test_money_conversion_extension_trait() {
    let usd = create_test_currency("USD", 840);
    let eur = create_test_currency("EUR", 978);
    let rate = dec("0.85");

    let money = create_test_money("100", usd);
    let converted = money.convert_with_rate(rate, eur.clone());

    assert_eq!(converted.amount, dec("85.0"));
    assert_eq!(converted.currency, eur);
}

#[test]
fn test_money_conversion_cross_type() {
    let usd = create_test_currency("USD", 840);
    let eur = create_test_currency("EUR", 978);
    let rate = dec("0.85");

    let money = create_test_money("100", usd);
    let result: Result<Monetary<BigDecimal>, ExchangeError> =
        money.convert_to_type(rate, eur.clone());

    assert!(result.is_ok());
    let converted = result.unwrap();
    assert_eq!(converted.amount, dec("85.0"));
    assert_eq!(converted.currency, eur);
}

#[test]
fn test_complex_conversion_scenario() {
    let usd = create_test_currency("USD", 840);
    let eur = create_test_currency("EUR", 978);
    let gbp = create_test_currency("GBP", 826);
    let jpy = create_test_currency("JPY", 392);

    let mut static_provider = StaticRateProvider::new();
    static_provider.add_rate(&usd, &eur, dec("0.85"));
    static_provider.add_rate(&eur, &gbp, dec("0.87"));
    static_provider.add_rate(&usd, &jpy, dec("150.0"));

    let cached_provider = CachedExchangeRateProvider::new(static_provider, 300_000);

    let mut conversion_service = CurrencyConversion::new();
    conversion_service.add_provider(cached_provider);

    let usd_money = create_test_money("1000", usd.clone());

    let eur_result = conversion_service.convert(&usd_money, &eur, 0).unwrap();
    assert_eq!(eur_result.amount, dec("850.0"));

    let jpy_result = conversion_service.convert(&usd_money, &jpy, 0).unwrap();
    assert_eq!(jpy_result.amount, dec("150000.0"));

    let gbp_from_eur = conversion_service.convert(&eur_result, &gbp, 0).unwrap();
    assert_eq!(gbp_from_eur.amount, dec("739.5"));
}

#[test]
fn test_conversion_service_with_context() {
    let usd = create_test_currency("USD", 840);
    let eur = create_test_currency("EUR", 978);

    let context = MonetaryContext::builder()
        .with_rounding_mode(RoundingMode::HalfUp)
        .with_max_scale(2)
        .build();

    let mut provider: StaticRateProvider<BigDecimal> = StaticRateProvider::with_context(context);

    let rate = dec("0.85");
    provider.add_rate(&usd, &eur, rate);

    let conversion_service: CurrencyConversion<BigDecimal, StaticRateProvider<BigDecimal>> =
        CurrencyConversion::with_context(context);

    assert_eq!(*conversion_service.default_context().rounding_mode(), RoundingMode::HalfUp);
    assert_eq!(conversion_service.default_context().max_scale(), 2);
}

#[test]
fn test_cache_freshness_window() {
    // Within one time-to-live window, five lookups of the same pair cost
    // exactly one upstream call; a lookup after the window costs another.
    let usd = create_test_currency("USD", 840);
    let eur = create_test_currency("EUR", 978);

    let mock_provider = MockProvider::new().with_rate(&usd, &eur, dec("0.85"));
    let mut cached_provider = CachedExchangeRateProvider::new(mock_provider, 50);

    for t in [0u64, 10, 20, 30, 40] {
        let rate = cached_provider.get_exchange_rate(&usd, &eur, t).unwrap();
        assert_eq!(*rate.get_factor(), dec("0.85"));
    }
    assert_eq!(cached_provider.upstream().get_call_count(), 1);

    let rate = cached_provider.get_exchange_rate(&usd, &eur, 60).unwrap();
    assert_eq!(*rate.get_factor(), dec("0.85"));
    assert_eq!(cached_provider.upstream().get_call_count(), 2);
}

#[test]
fn test_conversion_error_on_overflow() {
    // A product beyond the 128-bit unscaled range is reported as a
    // conversion error, not performed.
    let usd = create_test_currency("USD", 840);
    let eur = create_test_currency("EUR", 978);

    let mut provider = StaticRateProvider::new();
    provider.add_rate(&usd, &eur, BigDecimal::new(i128::MAX, 0));

    let mut conversion_service = CurrencyConversion::new();
    conversion_service.add_provider(provider);

    let money = Monetary::new(BigDecimal::new(i128::MAX, 0), usd);
    let result = conversion_service.convert(&money, &eur, 0);
    assert_eq!(result.unwrap_err(), ExchangeError::ConversionError);
}

#[test]
fn test_provider_priority_order() {
    // When two providers both quote the pair, the first one wins.
    let usd = create_test_currency("USD", 840);
    let eur = create_test_currency("EUR", 978);

    let mut provider1 = StaticRateProvider::new();
    provider1.add_rate(&usd, &eur, dec("0.85"));
    let mut provider2 = StaticRateProvider::new();
    provider2.add_rate(&usd, &eur, dec("0.99"));

    let mut conversion_service = CurrencyConversion::new();
    conversion_service.add_provider(provider1);
    conversion_service.add_provider(provider2);

    let money = create_test_money("100", usd);
    let result = conversion_service.convert(&money, &eur, 0).unwrap();
    assert_eq!(result.amount, dec("85.0"));
}

#[test]
fn test_convert_to_cross_type_service() {
    let usd = create_test_currency("USD", 840);
    let eur = create_test_currency("EUR", 978);

    let mut provider = StaticRateProvider::new();
    provider.add_rate(&usd, &eur, dec("0.85"));

    let mut conversion_service = CurrencyConversion::new();
    conversion_service.add_provider(provider);

    let money = create_test_money("100", usd.clone());
    let converted: Monetary<BigDecimal> =
        conversion_service.convert_to(&money, &eur, 0).unwrap();
    assert_eq!(converted.amount, dec("85"));
    assert_eq!(converted.currency, eur);

    let same: Monetary<BigDecimal> = conversion_service.convert_to(&money, &usd, 0).unwrap();
    assert_eq!(same.amount, dec("100"));
}
