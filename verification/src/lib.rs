//! A verified library for representing and converting monetary amounts.
//!
//! The numeric substrate is a fixed-point decimal (`BigDecimal`): a signed
//! 128-bit unscaled value together with a signed 32-bit scale, denoting
//! `unscaled * 10^-scale`.  On top of it sit currency descriptors with a
//! registry, monetary values with a rounding context, and an exchange-rate
//! subsystem with pluggable providers, caching, and batch conversion.

pub mod constants;
pub mod errors;
pub mod exchange;
pub mod money;
pub mod prelude;
