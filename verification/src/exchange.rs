//! The exchange subsystem: rates with a time-to-live, pluggable rate
//! providers, a caching provider, and the conversion service.
//!
//! Nothing here reads a clock: every time-dependent operation takes the
//! current time as a plain millisecond count, so that its outcome is a
//! function of its arguments alone.

pub mod base_exchange;
pub mod cached_exchange;
pub mod static_exchange;
