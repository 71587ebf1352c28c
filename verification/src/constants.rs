//! Rounding modes for scale adjustment of fixed-point decimals.

use vstd::prelude::*;

verus! {

/// How to adjust a truncated quotient when a rescale discards digits.
///
/// Given a value split as `u = q * f + r` (quotient `q` truncated toward
/// zero, remainder `r` carrying the sign of `u`, factor `f = 10^k > 0`),
/// each mode decides whether `q` moves one step away from, or toward,
/// zero, or up, or down.
#[derive(Debug, Clone, Copy, PartialEq, Eq, Structural)]
pub enum RoundingMode {
    /// Away from zero whenever any digit is discarded.
    Up,
    /// Toward zero: plain truncation.
    Down,
    /// Toward positive infinity.
    Ceiling,
    /// Toward negative infinity.
    Floor,
    /// To nearest; ties away from zero.
    HalfUp,
    /// To nearest; ties toward zero.
    HalfDown,
    /// To nearest; ties to the even quotient (banker's rounding).
    HalfEven,
    /// No rounding permitted: the caller asserts the rescale is exact.
    Unnecessary,
}

} // verus!
