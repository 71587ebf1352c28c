//! The commonly used items of the library, for a single import.

pub use crate::constants::RoundingMode;
pub use crate::errors::{CurrencyError, CurrencyResult, ExchangeError};
pub use crate::exchange::base_exchange::{
    CurrencyConversion,
    CurrencyPair,
    ExchangeRate,
    ExchangeRateProvider,
    MoneyConversion,
};
pub use crate::exchange::cached_exchange::CachedExchangeRateProvider;
pub use crate::exchange::static_exchange::StaticRateProvider;
pub use crate::money::currency::Currency;
pub use crate::money::currency_unit::CurrencyUnit;
pub use crate::money::types::BigDecimal;
pub use crate::money::{Monetary, MonetaryContext, MonetaryContextBuilder, Monetizable, MoneyError};
