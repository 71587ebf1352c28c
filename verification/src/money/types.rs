//! The fixed-point decimal number underlying all monetary arithmetic.
//!
//! A [`BigDecimal`] is a pair `(unscaled_value, scale)` of a signed 128-bit
//! integer and a signed 32-bit scale, denoting the exact rational number
//! `unscaled_value * 10^-scale`.  The scale may be negative (an implicit
//! multiplication by a power of ten).  All operations are exact integer
//! arithmetic; rescaling to a smaller scale applies one of the
//! [`RoundingMode`]s.

use vstd::prelude::*;
use crate::constants::RoundingMode;

verus! {

/// `10^k`, as a mathematical integer.
pub open spec fn pow10(k: nat) -> int
    decreases k,
{
    if k == 0 {
        1
    } else {
        10 * pow10((k - 1) as nat)
    }
}

/// Whether a mathematical integer fits in an `i128`.
pub open spec fn fits_i128(x: int) -> bool {
    i128::MIN <= x <= i128::MAX
}

/// Truncated (round-toward-zero) division, for a nonzero divisor.
pub open spec fn tdiv(x: int, d: int) -> int {
    if x == 0 {
        0
    } else if x > 0 && d > 0 {
        x / d
    } else if x < 0 && d < 0 {
        (x * -1) / (d * -1)
    } else if x < 0 {
        ((x * -1) / d) * -1
    } else {
        (x / (d * -1)) * -1
    }
}

/// Remainder of truncated division; carries the sign of the dividend.
pub open spec fn tmod(x: int, d: int) -> int {
    if x == 0 {
        0
    } else if x > 0 && d > 0 {
        x % d
    } else if x < 0 && d < 0 {
        ((x * -1) % (d * -1)) * -1
    } else if x < 0 {
        ((x * -1) % d) * -1
    } else {
        x % (d * -1)
    }
}

/// The sign of an integer: -1, 0 or 1.
pub open spec fn sign(x: int) -> int {
    if x > 0 {
        1
    } else if x < 0 {
        -1
    } else {
        0
    }
}

/// The absolute value of an integer.
pub open spec fn abs_int(x: int) -> int {
    if x >= 0 {
        x
    } else {
        -x
    }
}

pub proof fn lemma_pow10_pos(k: nat)
    ensures
        pow10(k) >= 1,
    decreases k,
{
    if k > 0 {
        lemma_pow10_pos((k - 1) as nat);
    }
}

pub proof fn lemma_pow10_adds(a: nat, b: nat)
    ensures
        pow10(a + b) == pow10(a) * pow10(b),
    decreases a,
{
    if a == 0 {
    } else {
        lemma_pow10_adds((a - 1) as nat, b);
        assert(pow10(a + b) == 10 * pow10(((a - 1) + b) as nat)) by {
            assert(a + b >= 1);
            assert(((a + b) - 1) as nat == ((a - 1) + b) as nat);
        }
        assert(10 * (pow10((a - 1) as nat) * pow10(b)) == (10 * pow10((a - 1) as nat)) * pow10(
            b,
        )) by {
            vstd::arithmetic::mul::lemma_mul_is_associative(10, pow10((a - 1) as nat), pow10(b));
        }
    }
}

pub proof fn lemma_pow10_increases(a: nat, b: nat)
    requires
        a <= b,
    ensures
        pow10(a) <= pow10(b),
    decreases b,
{
    if a < b {
        lemma_pow10_increases(a, (b - 1) as nat);
        lemma_pow10_pos((b - 1) as nat);
    }
}

/// `10^38` is the largest power of ten that fits in an `i128`.
pub proof fn lemma_pow10_38()
    ensures
        pow10(38) == 0x4b3b4ca85a86c47a098a224000000000,
{
    reveal_with_fuel(pow10, 40);
}

/// Fundamental relation between truncated quotient and remainder.
pub proof fn lemma_tdiv_tmod(x: int, d: int)
    requires
        d != 0,
    ensures
        d * tdiv(x, d) + tmod(x, d) == x,
        abs_int(tmod(x, d)) < abs_int(d),
        abs_int(tdiv(x, d)) <= abs_int(x),
        x >= 0 ==> tmod(x, d) >= 0,
        x <= 0 ==> tmod(x, d) <= 0,
        x >= 0 && d > 0 ==> tdiv(x, d) >= 0,
        x <= 0 && d > 0 ==> tdiv(x, d) <= 0,
{
    if x != 0 {
        let xm = abs_int(x);
        let dm = abs_int(d);
        let q = xm / dm;
        let r = xm % dm;
        vstd::arithmetic::div_mod::lemma_fundamental_div_mod(xm, dm);
        vstd::arithmetic::div_mod::lemma_mod_bound(xm, dm);
        vstd::arithmetic::div_mod::lemma_div_pos_is_pos(xm, dm);
        vstd::arithmetic::div_mod::lemma_div_is_ordered_by_denominator(xm, 1, dm);
        vstd::arithmetic::div_mod::lemma_div_basics(xm);
        assert(dm * q + r == xm);
        assert(d * tdiv(x, d) + tmod(x, d) == x) by {
            if x > 0 && d > 0 {
            } else if x < 0 && d < 0 {
                assert((-d) * q == -(d * q)) by {
                    vstd::arithmetic::mul::lemma_mul_unary_negation(d, q);
                }
            } else if x < 0 {
                assert(d * (q * -1) == -(d * q)) by {
                    vstd::arithmetic::mul::lemma_mul_unary_negation(q, d);
                    vstd::arithmetic::mul::lemma_mul_is_commutative(d, q);
                    vstd::arithmetic::mul::lemma_mul_is_commutative(d, -q);
                }
            } else {
                assert(d * (q * -1) == (-d) * q) by {
                    vstd::arithmetic::mul::lemma_mul_unary_negation(d, q);
                    vstd::arithmetic::mul::lemma_mul_is_commutative(d, -q);
                    vstd::arithmetic::mul::lemma_mul_is_commutative(q, -d);
                }
            }
        }
    }
}

/// `10^k` as an `i128`; defined for every power that fits.
fn pow10_i128(k: u32) -> (r: i128)
    requires
        k <= 38,
    ensures
        r == pow10(k as nat),
{
    let mut r: i128 = 1;
    let mut i: u32 = 0;
    while i < k
        invariant
            i <= k <= 38,
            r == pow10(i as nat),
        decreases k - i,
    {
        proof {
            lemma_pow10_38();
            lemma_pow10_increases((i + 1) as nat, 38);
            lemma_pow10_pos(i as nat);
        }
        r = r * 10;
        i = i + 1;
    }
    r
}

/// A truncated quotient and remainder of `i128` values stay in range,
/// except for the lone overflowing case `i128::MIN / -1`.
proof fn lemma_tdiv_tmod_fits(x: i128, d: i128)
    requires
        d != 0,
        !(x == i128::MIN && d == -1),
    ensures
        fits_i128(tdiv(x as int, d as int)),
        fits_i128(tmod(x as int, d as int)),
{
    lemma_tdiv_tmod(x as int, d as int);
    let xm = abs_int(x as int);
    let dm = abs_int(d as int);
    if x != 0 {
        if d == 1 || d == -1 {
            assert(xm / 1 == xm) by {
                vstd::arithmetic::div_mod::lemma_div_basics(xm);
            }
            assert(abs_int(tdiv(x as int, d as int)) == xm);
        } else {
            assert(xm / dm <= xm / 2) by {
                vstd::arithmetic::div_mod::lemma_div_is_ordered_by_denominator(xm, 2, dm);
            }
            assert(xm / 2 <= 0x80000000000000000000000000000000int / 2) by {
                vstd::arithmetic::div_mod::lemma_div_is_ordered(
                    xm,
                    0x80000000000000000000000000000000int,
                    2,
                );
            }
            assert(abs_int(tdiv(x as int, d as int)) == xm / dm);
        }
    }
}

/// Truncated division on `i128`.
fn tdiv_i128(x: i128, d: i128) -> (r: i128)
    requires
        d != 0,
        !(x == i128::MIN && d == -1),
    ensures
        r == tdiv(x as int, d as int),
{
    proof {
        lemma_tdiv_tmod(x as int, d as int);
        lemma_tdiv_tmod_fits(x, d);
    }
    x.checked_div(d).unwrap()
}

/// Remainder of truncated division on `i128`; carries the dividend's sign.
fn tmod_i128(x: i128, d: i128) -> (r: i128)
    requires
        d != 0,
        !(x == i128::MIN && d == -1),
    ensures
        r == tmod(x as int, d as int),
{
    proof {
        lemma_tdiv_tmod(x as int, d as int);
        lemma_tdiv_tmod_fits(x, d);
    }
    x.checked_rem(d).unwrap()
}

/// Scaling an integer by a positive power of ten preserves its sign and
/// scales its magnitude exactly.
proof fn lemma_mul_pow10_abs_sign(v: int, k: nat)
    ensures
        abs_int(v * pow10(k)) == abs_int(v) * pow10(k),
        sign(v * pow10(k)) == sign(v),
{
    lemma_pow10_pos(k);
    let p = pow10(k);
    if v == 0 {
        assert(0 * p == 0) by {
            vstd::arithmetic::mul::lemma_mul_basics(p);
        }
    } else if v > 0 {
        assert(v * p > 0) by {
            vstd::arithmetic::mul::lemma_mul_strictly_positive(v, p);
        }
    } else {
        assert((-v) * p > 0) by {
            vstd::arithmetic::mul::lemma_mul_strictly_positive(-v, p);
        }
        assert((-v) * p == -(v * p)) by {
            vstd::arithmetic::mul::lemma_mul_unary_negation(v, p);
        }
    }
}

/// If scaling `u` up by `k0 - k` steps already gave `v`, and one more
/// factor of ten leaves the `i128` range, then the fully scaled value
/// exceeds any `i128` in magnitude, with the sign of `u`.
proof fn lemma_scaled_magnitude_exceeds(u: int, v: int, k: nat, k0: nat, h: int)
    requires
        1 <= k <= k0,
        v == u * pow10((k0 - k) as nat),
        v != 0,
        !fits_i128(v * 10),
        fits_i128(h),
    ensures
        abs_int(u * pow10(k0)) > abs_int(h),
        sign(u * pow10(k0)) == sign(u),
{
    lemma_mul_pow10_abs_sign(u, (k0 - k) as nat);
    lemma_mul_pow10_abs_sign(u, k0);
    lemma_mul_pow10_abs_sign(v, k);
    lemma_mul_pow10_abs_sign(v, 1);
    lemma_pow10_pos(k);
    lemma_pow10_pos((k0 - k) as nat);
    assert(u * pow10(k0) == v * pow10(k)) by {
        lemma_pow10_adds((k0 - k) as nat, k);
        vstd::arithmetic::mul::lemma_mul_is_associative(u, pow10((k0 - k) as nat), pow10(k));
    }
    assert(abs_int(v) * pow10(k) >= abs_int(v) * 10) by {
        lemma_pow10_increases(1, k);
        assert(pow10(1) == 10) by {
            reveal_with_fuel(pow10, 2);
        }
        vstd::arithmetic::mul::lemma_mul_inequality(10, pow10(k), abs_int(v));
        vstd::arithmetic::mul::lemma_mul_is_commutative(10, abs_int(v));
        vstd::arithmetic::mul::lemma_mul_is_commutative(pow10(k), abs_int(v));
    }
    assert(abs_int(v * 10) > i128::MAX);
}

/// An exact signed decimal: the rational number `unscaled_value * 10^-scale`.
///
/// Equality and ordering compare the denoted numbers, not the
/// representations: `(1230, 3)` equals `(123, 2)`.
#[derive(Debug, Clone, Copy, Default)]
pub struct BigDecimal {
    pub unscaled_value: i128,
    pub scale: i32,
}

impl BigDecimal {
    /// The denoted value, scaled up to scale `t`: `unscaled * 10^(t - scale)`.
    /// Meaningful for `t >= scale`, where it is an integer.
    pub open spec fn at_scale(self, t: int) -> int {
        self.unscaled_value * pow10((t - self.scale) as nat)
    }

    /// The larger of the two scales: the common scale at which two
    /// decimals are compared exactly, without rounding.
    pub open spec fn common_scale(self, other: Self) -> int {
        if self.scale >= other.scale {
            self.scale as int
        } else {
            other.scale as int
        }
    }

    /// Whether two decimals denote the same number.
    pub open spec fn same_value(self, other: Self) -> bool {
        self.at_scale(self.common_scale(other)) == other.at_scale(self.common_scale(other))
    }

    pub fn new(unscaled_value: i128, scale: i32) -> (r: Self)
        ensures
            r.unscaled_value == unscaled_value,
            r.scale == scale,
    {
        Self { unscaled_value, scale }
    }

    pub fn from_i64(value: i64) -> (r: Self)
        ensures
            r.unscaled_value == value as int,
            r.scale == 0,
    {
        Self { unscaled_value: value as i128, scale: 0 }
    }

    pub fn zero() -> (r: Self)
        ensures
            r.unscaled_value == 0,
            r.scale == 0,
    {
        Self { unscaled_value: 0, scale: 0 }
    }

    pub fn one() -> (r: Self)
        ensures
            r.unscaled_value == 1,
            r.scale == 0,
    {
        Self { unscaled_value: 1, scale: 0 }
    }

    pub fn scale(&self) -> (r: i32)
        ensures
            r == self.scale,
    {
        self.scale
    }

    pub fn unscaled_value(&self) -> (r: i128)
        ensures
            r == self.unscaled_value,
    {
        self.unscaled_value
    }

    /// The same decimal with the opposite sign.
    pub open spec fn spec_negated(self) -> Self {
        BigDecimal { unscaled_value: (0 - self.unscaled_value) as i128, scale: self.scale }
    }

    /// The same decimal with a nonnegative sign.
    pub open spec fn spec_abs(self) -> Self {
        if self.unscaled_value >= 0 {
            self
        } else {
            self.spec_negated()
        }
    }

    /// Flip the sign of the denoted value.
    pub fn negate(&self) -> (r: Self)
        requires
            self.unscaled_value != i128::MIN,
        ensures
            r == self.spec_negated(),
            r.unscaled_value == -self.unscaled_value,
            r.scale == self.scale,
    {
        Self { unscaled_value: -self.unscaled_value, scale: self.scale }
    }

    /// The magnitude of the denoted value, at the same scale.
    pub fn abs(&self) -> (r: Self)
        requires
            self.unscaled_value != i128::MIN,
        ensures
            r == self.spec_abs(),
            r.unscaled_value == abs_int(self.unscaled_value as int),
            r.scale == self.scale,
    {
        if self.unscaled_value < 0 {
            Self { unscaled_value: -self.unscaled_value, scale: self.scale }
        } else {
            *self
        }
    }

    /// -1, 0 or 1, according to the sign of the denoted value.
    pub fn signum(&self) -> (r: i32)
        ensures
            r == sign(self.unscaled_value as int),
            -1 <= r <= 1,
    {
        if self.unscaled_value > 0 {
            1
        } else if self.unscaled_value < 0 {
            -1
        } else {
            0
        }
    }

    /// Whether the denoted value can be brought to scale `t`.
    ///
    /// Rescaling upward multiplies the unscaled value by `10^(t - scale)`,
    /// so both the factor and the product must fit in an `i128` (the
    /// machine limit); rescaling downward divides by `10^(scale - t)`,
    /// so only the factor must fit.  With `Unnecessary` the discarded
    /// remainder must be zero.
    pub open spec fn can_rescale(self, t: int, mode: RoundingMode) -> bool {
        if t >= self.scale {
            t - self.scale <= 38 && fits_i128(self.at_scale(t))
        } else {
            self.scale - t <= 38 && (mode is Unnecessary ==> tmod(
                self.unscaled_value as int,
                pow10((self.scale - t) as nat),
            ) == 0)
        }
    }

    /// The quotient adjustment a rounding mode prescribes when a rescale
    /// discards digits.  `q` is the quotient truncated toward zero, `r`
    /// the remainder carrying the dividend's sign, and `f = 10^k > 0`
    /// the discarded factor; `half` is `f / 2`, exact since `f` is even
    /// whenever digits are discarded.
    pub open spec fn round_delta(mode: RoundingMode, q: int, r: int, f: int) -> int {
        let half = f / 2;
        match mode {
            RoundingMode::Up => if r != 0 {
                sign(r)
            } else {
                0
            },
            RoundingMode::Down => 0,
            RoundingMode::Ceiling => if r > 0 {
                1
            } else {
                0
            },
            RoundingMode::Floor => if r < 0 {
                -1
            } else {
                0
            },
            RoundingMode::HalfUp => if abs_int(r) >= half {
                sign(r)
            } else {
                0
            },
            RoundingMode::HalfDown => if abs_int(r) > half {
                sign(r)
            } else {
                0
            },
            RoundingMode::HalfEven => if abs_int(r) > half || (abs_int(r) == half && tmod(q, 2)
                != 0) {
                sign(r)
            } else {
                0
            },
            RoundingMode::Unnecessary => 0,
        }
    }

    /// The decimal at scale `t`: multiplied out exactly when `t` is at
    /// least the current scale, otherwise divided with the given
    /// rounding applied to the discarded remainder.
    pub open spec fn spec_rescaled(self, t: int, mode: RoundingMode) -> Self {
        if t >= self.scale {
            BigDecimal { unscaled_value: self.at_scale(t) as i128, scale: t as i32 }
        } else {
            let f = pow10((self.scale - t) as nat);
            let q = tdiv(self.unscaled_value as int, f);
            let r = tmod(self.unscaled_value as int, f);
            BigDecimal {
                unscaled_value: (q + Self::round_delta(mode, q, r, f)) as i128,
                scale: t as i32,
            }
        }
    }

    /// Return this value at scale `scale`, rounding with `rounding_mode`
    /// when digits are discarded (a no-op direction-wise when the scale
    /// grows).
    pub fn with_scale(&self, scale: i32, rounding_mode: &RoundingMode) -> (r: Self)
        requires
            self.can_rescale(scale as int, *rounding_mode),
        ensures
            r == self.spec_rescaled(scale as int, *rounding_mode),
    {
        if scale == self.scale {
            proof {
                assert(pow10(0) == 1);
                assert(self.at_scale(scale as int) == self.unscaled_value * 1);
                assert(self.unscaled_value * 1 == self.unscaled_value);
                assert(self.spec_rescaled(scale as int, *rounding_mode) == BigDecimal {
                    unscaled_value: self.unscaled_value,
                    scale: self.scale,
                });
            }
            return *self;
        }
        if scale > self.scale {
            let k = (scale - self.scale) as u32;
            let factor = pow10_i128(k);
            Self { unscaled_value: self.unscaled_value * factor, scale }
        } else {
            let k = (self.scale - scale) as u32;
            let f = pow10_i128(k);
            proof {
                lemma_pow10_pos(k as nat);
                lemma_pow10_increases(1, k as nat);
                lemma_tdiv_tmod(self.unscaled_value as int, f as int);
                lemma_tdiv_tmod_fits(self.unscaled_value, f);
            }
            let q = tdiv_i128(self.unscaled_value, f);
            let r = tmod_i128(self.unscaled_value, f);
            proof {
                let xm = abs_int(self.unscaled_value as int);
                assert(xm / (f as int) <= xm / 2) by {
                    vstd::arithmetic::div_mod::lemma_div_is_ordered_by_denominator(
                        xm,
                        2,
                        f as int,
                    );
                }
                assert(xm / 2 <= 0x80000000000000000000000000000000int / 2) by {
                    vstd::arithmetic::div_mod::lemma_div_is_ordered(
                        xm,
                        0x80000000000000000000000000000000int,
                        2,
                    );
                }
                if self.unscaled_value != 0 {
                    assert(abs_int(tdiv(self.unscaled_value as int, f as int)) == xm / (
                    f as int));
                }
            }
            let delta: i128 = match rounding_mode {
                RoundingMode::Up => if r > 0 {
                    1
                } else if r < 0 {
                    -1
                } else {
                    0
                },
                RoundingMode::Down => 0,
                RoundingMode::Ceiling => if r > 0 {
                    1
                } else {
                    0
                },
                RoundingMode::Floor => if r < 0 {
                    -1
                } else {
                    0
                },
                RoundingMode::HalfUp => {
                    let half = tdiv_i128(f, 2);
                    let ra = if r < 0 {
                        -r
                    } else {
                        r
                    };
                    if ra >= half {
                        if r > 0 {
                            1
                        } else {
                            -1
                        }
                    } else {
                        0
                    }
                },
                RoundingMode::HalfDown => {
                    let half = tdiv_i128(f, 2);
                    let ra = if r < 0 {
                        -r
                    } else {
                        r
                    };
                    if ra > half {
                        if r > 0 {
                            1
                        } else {
                            -1
                        }
                    } else {
                        0
                    }
                },
                RoundingMode::HalfEven => {
                    let half = tdiv_i128(f, 2);
                    let ra = if r < 0 {
                        -r
                    } else {
                        r
                    };
                    if ra > half || (ra == half && tmod_i128(q, 2) != 0) {
                        if r > 0 {
                            1
                        } else {
                            -1
                        }
                    } else {
                        0
                    }
                },
                RoundingMode::Unnecessary => 0,
            };
            Self { unscaled_value: q + delta, scale }
        }
    }

    /// Compare the denoted values at their common scale:
    /// -1, 0 or 1 as `self` is below, equal to, or above `other`.
    #[verifier::loop_isolation(false)]
    fn cmp_value(&self, other: &Self) -> (r: i8)
        ensures
            ({
                let ms = self.common_scale(*other);
                r == sign(self.at_scale(ms) - other.at_scale(ms))
            }),
    {
        let ghost ms = self.common_scale(*other);
        let (lo, hi, flip) = if self.scale <= other.scale {
            (self, other, false)
        } else {
            (other, self, true)
        };
        proof {
            assert(pow10(0) == 1);
            assert(hi.at_scale(ms) == hi.unscaled_value * 1);
            lemma_mul_pow10_abs_sign(lo.unscaled_value as int, (ms - lo.scale) as nat);
        }
        let sl = lo.signum();
        let sh = hi.signum();
        if sl != sh {
            let c: i8 = if sl < sh {
                -1
            } else {
                1
            };
            if flip {
                return -c;
            } else {
                return c;
            }
        }
        if sl == 0 {
            return 0;
        }
        let ghost k0 = (hi.scale - lo.scale) as nat;
        let mut k: i64 = hi.scale as i64 - lo.scale as i64;
        let mut v = lo.unscaled_value;
        proof {
            assert(v == lo.unscaled_value * pow10((k0 - k) as nat)) by {
                vstd::arithmetic::mul::lemma_mul_basics(lo.unscaled_value as int);
            }
        }
        while k > 0
            invariant
                0 <= k <= k0,
                v == lo.unscaled_value * pow10((k0 - k) as nat),
                v != 0,
                sign(v as int) == sign(lo.unscaled_value as int),
            decreases k,
        {
            proof {
                lemma_mul_pow10_abs_sign(lo.unscaled_value as int, (k0 - k) as nat);
                lemma_mul_pow10_abs_sign(v as int, (k - 1) as nat);
                lemma_mul_pow10_abs_sign(v as int, 1);
                lemma_pow10_adds((k0 - k) as nat, 1);
                vstd::arithmetic::mul::lemma_mul_is_associative(
                    lo.unscaled_value as int,
                    pow10((k0 - k) as nat),
                    10,
                );
                assert(pow10(1) == 10) by {
                    reveal_with_fuel(pow10, 2);
                }
            }
            match v.checked_mul(10) {
                Some(nv) => {
                    v = nv;
                    k = k - 1;
                    proof {
                        assert((k0 - k) as nat == (k0 - (k + 1)) as nat + 1);
                        lemma_pow10_adds((k0 - (k + 1)) as nat, 1);
                    }
                },
                None => {
                    proof {
                        lemma_scaled_magnitude_exceeds(
                            lo.unscaled_value as int,
                            v as int,
                            k as nat,
                            k0,
                            hi.unscaled_value as int,
                        );
                        assert(lo.at_scale(ms) == lo.unscaled_value * pow10(k0));
                        assert(hi.at_scale(ms) == hi.unscaled_value as int);
                        assert(abs_int(lo.at_scale(ms)) > abs_int(hi.at_scale(ms)));
                        assert(sign(lo.at_scale(ms)) == sign(lo.unscaled_value as int));
                        assert(sign(lo.at_scale(ms) - hi.at_scale(ms)) == sign(
                            lo.unscaled_value as int,
                        ));
                    }
                    let c: i8 = if sl > 0 {
                        1
                    } else {
                        -1
                    };
                    if flip {
                        return -c;
                    } else {
                        return c;
                    }
                },
            }
        }
        let c: i8 = if v < hi.unscaled_value {
            -1
        } else if v == hi.unscaled_value {
            0
        } else {
            1
        };
        if flip {
            -c
        } else {
            c
        }
    }

    /// The exact sum at the common scale: both operands brought to
    /// `max(s1, s2)` (an exact, upward rescale) and their unscaled
    /// values added.
    pub open spec fn spec_plus(self, other: Self) -> Self {
        let ms = self.common_scale(other);
        BigDecimal {
            unscaled_value: (self.at_scale(ms) + other.at_scale(ms)) as i128,
            scale: ms as i32,
        }
    }

    /// Machine limits for an exact addition: both operands and the sum
    /// must be representable at the common scale.
    pub open spec fn can_add(self, other: Self) -> bool {
        let ms = self.common_scale(other);
        &&& self.can_rescale(ms, RoundingMode::HalfEven)
        &&& other.can_rescale(ms, RoundingMode::HalfEven)
        &&& fits_i128(self.at_scale(ms) + other.at_scale(ms))
    }

    /// The exact difference at the common scale.
    pub open spec fn spec_minus(self, other: Self) -> Self {
        let ms = self.common_scale(other);
        BigDecimal {
            unscaled_value: (self.at_scale(ms) - other.at_scale(ms)) as i128,
            scale: ms as i32,
        }
    }

    /// Machine limits for an exact subtraction.
    pub open spec fn can_subtract(self, other: Self) -> bool {
        let ms = self.common_scale(other);
        &&& self.can_rescale(ms, RoundingMode::HalfEven)
        &&& other.can_rescale(ms, RoundingMode::HalfEven)
        &&& fits_i128(self.at_scale(ms) - other.at_scale(ms))
    }

    /// The exact product: unscaled values multiplied, scales added.
    pub open spec fn spec_times_exact(self, other: Self) -> Self {
        BigDecimal {
            unscaled_value: (self.unscaled_value * other.unscaled_value) as i128,
            scale: (self.scale + other.scale) as i32,
        }
    }

    /// Machine limits for a multiplication rescaled to `t`.
    pub open spec fn can_multiply(self, other: Self, t: int, mode: RoundingMode) -> bool {
        &&& fits_i128(self.unscaled_value * other.unscaled_value)
        &&& i32::MIN <= self.scale + other.scale <= i32::MAX
        &&& self.spec_times_exact(other).can_rescale(t, mode)
    }

    /// Sum with both operands brought to `max(s1, s2)`; exact, so the
    /// rounding mode is never consulted.
    pub fn add(&self, other: &Self, rounding_mode: &RoundingMode) -> (r: Self)
        requires
            self.can_add(*other),
        ensures
            r == self.spec_plus(*other),
    {
        let max_scale = if self.scale >= other.scale {
            self.scale
        } else {
            other.scale
        };
        let a = self.with_scale(max_scale, rounding_mode);
        let b = other.with_scale(max_scale, rounding_mode);
        Self { unscaled_value: a.unscaled_value + b.unscaled_value, scale: max_scale }
    }

    /// Difference with both operands brought to `max(s1, s2)`; exact.
    pub fn subtract(&self, other: &Self, rounding_mode: &RoundingMode) -> (r: Self)
        requires
            self.can_subtract(*other),
        ensures
            r == self.spec_minus(*other),
    {
        let max_scale = if self.scale >= other.scale {
            self.scale
        } else {
            other.scale
        };
        let a = self.with_scale(max_scale, rounding_mode);
        let b = other.with_scale(max_scale, rounding_mode);
        Self { unscaled_value: a.unscaled_value - b.unscaled_value, scale: max_scale }
    }

    /// Product at intermediate scale `s1 + s2`, then rescaled to
    /// `target_scale` with `rounding_mode`.
    pub fn multiply(&self, other: &Self, rounding_mode: &RoundingMode, target_scale: i32) -> (r:
        Self)
        requires
            self.can_multiply(*other, target_scale as int, *rounding_mode),
        ensures
            r == self.spec_times_exact(*other).spec_rescaled(target_scale as int, *rounding_mode),
    {
        let result_scale = (self.scale as i64 + other.scale as i64) as i32;
        let result = Self {
            unscaled_value: self.unscaled_value * other.unscaled_value,
            scale: result_scale,
        };
        result.with_scale(target_scale, rounding_mode)
    }

    /// The guard-digit quotient: the dividend is scaled by an extra
    /// `10^(t + 10)` so that integer division keeps ten guard digits,
    /// and the result is rescaled down to `t` with the rounding mode.
    pub open spec fn spec_divided(self, other: Self, t: int, mode: RoundingMode) -> Self {
        let q = tdiv(self.unscaled_value * pow10((t + 10) as nat), other.unscaled_value as int);
        let inter = BigDecimal {
            unscaled_value: q as i128,
            scale: (self.scale - other.scale + t + 10) as i32,
        };
        inter.spec_rescaled(t, mode)
    }

    /// Machine limits for the guard-digit division path.
    pub open spec fn can_divide(self, other: Self, t: int, mode: RoundingMode) -> bool {
        let scaled = self.unscaled_value * pow10((t + 10) as nat);
        let q = tdiv(scaled, other.unscaled_value as int);
        &&& 0 <= t + 10 <= 38
        &&& fits_i128(scaled)
        &&& !(scaled == i128::MIN && other.unscaled_value == -1)
        &&& i32::MIN <= self.scale - other.scale + t + 10 <= i32::MAX
        &&& BigDecimal {
            unscaled_value: q as i128,
            scale: (self.scale - other.scale + t + 10) as i32,
        }.can_rescale(t, mode)
    }

    /// Division by a nonzero decimal; reports the zero divisor instead
    /// of dividing.
    pub fn divide(&self, other: &Self, rounding_mode: &RoundingMode, target_scale: i32) -> (r:
        Result<Self, &'static str>)
        requires
            other.unscaled_value != 0 ==> self.can_divide(
                *other,
                target_scale as int,
                *rounding_mode,
            ),
        ensures
            other.unscaled_value == 0 <==> r is Err,
            other.unscaled_value != 0 ==> r == Ok::<Self, &'static str>(
                self.spec_divided(*other, target_scale as int, *rounding_mode),
            ),
    {
        if other.unscaled_value == 0 {
            return Err("Division by zero");
        }
        let k = (target_scale as i64 + 10) as u32;
        let scale_factor = pow10_i128(k);
        let scaled_dividend = self.unscaled_value * scale_factor;
        let quotient = tdiv_i128(scaled_dividend, other.unscaled_value);
        let inter_scale = (self.scale as i64 - other.scale as i64 + target_scale as i64 + 10)
            as i32;
        let result = Self { unscaled_value: quotient, scale: inter_scale };
        Ok(result.with_scale(target_scale, rounding_mode))
    }

    /// Rescale, reporting instead of assuming the machine limits: the
    /// result is the rescaled decimal exactly when [`BigDecimal::can_rescale`]
    /// holds, and nothing otherwise.
    pub fn try_with_scale(&self, scale: i32, rounding_mode: &RoundingMode) -> (r: Option<Self>)
        ensures
            self.can_rescale(scale as int, *rounding_mode) ==> r == Some(
                self.spec_rescaled(scale as int, *rounding_mode),
            ),
            !self.can_rescale(scale as int, *rounding_mode) ==> r is None,
    {
        if scale >= self.scale {
            let k64 = scale as i64 - self.scale as i64;
            if k64 > 38 {
                return None;
            }
            let factor = pow10_i128(k64 as u32);
            match self.unscaled_value.checked_mul(factor) {
                Some(_) => Some(self.with_scale(scale, rounding_mode)),
                None => None,
            }
        } else {
            let k64 = self.scale as i64 - scale as i64;
            if k64 > 38 {
                return None;
            }
            let f = pow10_i128(k64 as u32);
            proof {
                lemma_pow10_pos(k64 as nat);
            }
            match rounding_mode {
                RoundingMode::Unnecessary => {
                    let r = tmod_i128(self.unscaled_value, f);
                    if r != 0 {
                        None
                    } else {
                        Some(self.with_scale(scale, rounding_mode))
                    }
                },
                _ => Some(self.with_scale(scale, rounding_mode)),
            }
        }
    }

    /// Multiply, reporting instead of assuming the machine limits: the
    /// result is the rounded product exactly when [`BigDecimal::can_multiply`]
    /// holds, and nothing otherwise.
    pub fn try_multiply(&self, other: &Self, rounding_mode: &RoundingMode, target_scale: i32) -> (r:
        Option<Self>)
        ensures
            self.can_multiply(*other, target_scale as int, *rounding_mode) ==> r == Some(
                self.spec_times_exact(*other).spec_rescaled(target_scale as int, *rounding_mode),
            ),
            !self.can_multiply(*other, target_scale as int, *rounding_mode) ==> r is None,
    {
        let prod = match self.unscaled_value.checked_mul(other.unscaled_value) {
            Some(p) => p,
            None => {
                return None;
            },
        };
        let sum64 = self.scale as i64 + other.scale as i64;
        if sum64 > i32::MAX as i64 || sum64 < i32::MIN as i64 {
            return None;
        }
        let inter = Self { unscaled_value: prod, scale: sum64 as i32 };
        inter.try_with_scale(target_scale, rounding_mode)
    }

    pub fn is_zero(&self) -> (r: bool)
        ensures
            r == (self.unscaled_value == 0),
    {
        self.unscaled_value == 0
    }

    pub fn is_positive(&self) -> (r: bool)
        ensures
            r == (self.unscaled_value > 0),
    {
        self.unscaled_value > 0
    }

    pub fn is_negative(&self) -> (r: bool)
        ensures
            r == (self.unscaled_value < 0),
    {
        self.unscaled_value < 0
    }
}

/// Whether `c` is a decimal digit.
pub open spec fn is_digit(c: char) -> bool {
    '0' <= c <= '9'
}

/// The numeric value of a digit character.
pub open spec fn digit_val(c: char) -> nat {
    (c as int - '0' as int) as nat
}

/// The digit character for a value below ten.
pub open spec fn digit_char(d: nat) -> char {
    if d == 0 {
        '0'
    } else if d == 1 {
        '1'
    } else if d == 2 {
        '2'
    } else if d == 3 {
        '3'
    } else if d == 4 {
        '4'
    } else if d == 5 {
        '5'
    } else if d == 6 {
        '6'
    } else if d == 7 {
        '7'
    } else if d == 8 {
        '8'
    } else {
        '9'
    }
}

pub open spec fn all_digits(s: Seq<char>) -> bool {
    forall|i: int| 0 <= i < s.len() ==> is_digit(#[trigger] s[i])
}

/// The number a digit string denotes, most significant digit first.
pub open spec fn digits_val(s: Seq<char>) -> nat
    decreases s.len(),
{
    if s.len() == 0 {
        0
    } else {
        digits_val(s.drop_last()) * 10 + digit_val(s.last())
    }
}

/// The canonical digits of `n`, most significant first, without leading
/// zeros (a single `'0'` for zero).
pub open spec fn dec_digits(n: nat) -> Seq<char>
    decreases n,
{
    if n < 10 {
        seq![digit_char(n)]
    } else {
        dec_digits(n / 10) + seq![digit_char(n % 10)]
    }
}

/// The digits of `n` left-padded with zeros to exactly `w` places;
/// canonical for `n < 10^w`.
pub open spec fn padded_digits(n: nat, w: nat) -> Seq<char>
    decreases w,
{
    if w == 0 {
        seq![]
    } else {
        padded_digits(n / 10, (w - 1) as nat) + seq![digit_char(n % 10)]
    }
}

pub open spec fn zeros(n: nat) -> Seq<char> {
    Seq::new(n, |i: int| '0')
}

pub proof fn lemma_dec_digits_wf(n: nat)
    ensures
        dec_digits(n).len() >= 1,
        all_digits(dec_digits(n)),
        digits_val(dec_digits(n)) == n,
    decreases n,
{
    if n < 10 {
        let s = dec_digits(n);
        assert(s =~= seq![digit_char(n)]);
        assert(s.drop_last() =~= Seq::<char>::empty());
        assert(digit_val(digit_char(n)) == n);
        assert(is_digit(digit_char(n)));
        assert(s.len() == 1);
        assert(s.last() == digit_char(n));
        assert(digits_val(s) == digits_val(s.drop_last()) * 10 + digit_val(s.last()));
        assert(digits_val(Seq::<char>::empty()) == 0);
        assert(digits_val(s.drop_last()) == 0);
    } else {
        lemma_dec_digits_wf(n / 10);
        let a = dec_digits(n / 10);
        let s = dec_digits(n);
        assert(s =~= a + seq![digit_char(n % 10)]);
        assert(s.drop_last() =~= a);
        assert(s.last() == digit_char(n % 10));
        assert(digit_val(digit_char(n % 10)) == n % 10);
        assert((n / 10) * 10 + n % 10 == n) by {
            vstd::arithmetic::div_mod::lemma_fundamental_div_mod(n as int, 10);
        }
        assert(digits_val(s) == digits_val(s.drop_last()) * 10 + digit_val(s.last()));
        assert(digits_val(s.drop_last()) == digits_val(a));
        assert forall|i: int| 0 <= i < s.len() implies is_digit(#[trigger] s[i]) by {
            if i < a.len() {
                assert(s[i] == a[i]);
            } else {
                assert(s[i] == digit_char(n % 10));
            }
        }
    }
}

pub proof fn lemma_padded_digits_wf(n: nat, w: nat)
    requires
        n < pow10(w),
    ensures
        padded_digits(n, w).len() == w,
        all_digits(padded_digits(n, w)),
        digits_val(padded_digits(n, w)) == n,
    decreases w,
{
    if w == 0 {
        assert(padded_digits(n, 0) =~= Seq::<char>::empty());
    } else {
        assert(n / 10 < pow10((w - 1) as nat)) by {
            lemma_pow10_pos((w - 1) as nat);
            vstd::arithmetic::div_mod::lemma_fundamental_div_mod(n as int, 10);
            vstd::arithmetic::div_mod::lemma_mod_bound(n as int, 10);
            if n / 10 >= pow10((w - 1) as nat) {
                assert((n / 10) * 10 >= pow10((w - 1) as nat) * 10) by {
                    vstd::arithmetic::mul::lemma_mul_inequality(
                        pow10((w - 1) as nat),
                        (n / 10) as int,
                        10,
                    );
                }
            }
        }
        lemma_padded_digits_wf(n / 10, (w - 1) as nat);
        let a = padded_digits(n / 10, (w - 1) as nat);
        let s = padded_digits(n, w);
        assert(s =~= a + seq![digit_char(n % 10)]);
        assert(s.drop_last() =~= a);
        assert(digit_val(digit_char(n % 10)) == n % 10);
        assert((n / 10) * 10 + n % 10 == n) by {
            vstd::arithmetic::div_mod::lemma_fundamental_div_mod(n as int, 10);
        }
    }
}

impl BigDecimal {
    /// The canonical text of the denoted value.
    ///
    /// For scale zero: the unscaled value itself.  For a positive scale:
    /// the integer part, a point, and the remaining digits zero-padded
    /// to exactly `scale` places.  For a negative scale: the unscaled
    /// value followed by `-scale` zeros.  A sign is printed whenever the
    /// unscaled value is negative, also for values like `-0.005`.
    pub open spec fn spec_format(self) -> Seq<char> {
        let m = abs_int(self.unscaled_value as int) as nat;
        let sgn: Seq<char> = if self.unscaled_value < 0 {
            seq!['-']
        } else {
            seq![]
        };
        if self.scale <= 0 {
            sgn + dec_digits(m) + zeros((0 - self.scale) as nat)
        } else {
            let p = pow10(self.scale as nat) as nat;
            sgn + dec_digits(m / p) + seq!['.'] + padded_digits(m % p, self.scale as nat)
        }
    }
}

/// `10^k` as a `u128`; defined for every power that fits an `i128`.
fn pow10_u128(k: u32) -> (r: u128)
    requires
        k <= 38,
    ensures
        r == pow10(k as nat),
{
    let mut r: u128 = 1;
    let mut i: u32 = 0;
    while i < k
        invariant
            i <= k <= 38,
            r == pow10(i as nat),
        decreases k - i,
    {
        proof {
            lemma_pow10_38();
            lemma_pow10_increases((i + 1) as nat, 38);
            lemma_pow10_pos(i as nat);
        }
        r = r * 10;
        i = i + 1;
    }
    r
}

/// Append one decimal digit character to the output text.
fn push_digit_char(out: &mut String, c: char)
    requires
        is_digit(c),
    ensures
        final (out)@ == old(out)@ + seq![c],
{
    proof {
        reveal_strlit("0");
        reveal_strlit("1");
        reveal_strlit("2");
        reveal_strlit("3");
        reveal_strlit("4");
        reveal_strlit("5");
        reveal_strlit("6");
        reveal_strlit("7");
        reveal_strlit("8");
        reveal_strlit("9");
        assert("0"@ =~= seq!['0']);
        assert("1"@ =~= seq!['1']);
        assert("2"@ =~= seq!['2']);
        assert("3"@ =~= seq!['3']);
        assert("4"@ =~= seq!['4']);
        assert("5"@ =~= seq!['5']);
        assert("6"@ =~= seq!['6']);
        assert("7"@ =~= seq!['7']);
        assert("8"@ =~= seq!['8']);
        assert("9"@ =~= seq!['9']);
    }
    match c {
        '0' => out.append("0"),
        '1' => out.append("1"),
        '2' => out.append("2"),
        '3' => out.append("3"),
        '4' => out.append("4"),
        '5' => out.append("5"),
        '6' => out.append("6"),
        '7' => out.append("7"),
        '8' => out.append("8"),
        _ => {
            proof {
                assert(c == '9');
            }
            out.append("9")
        },
    }
}

/// The digit character for a value below ten.
fn digit_char_of(d: u128) -> (c: char)
    requires
        d < 10,
    ensures
        c == digit_char(d as nat),
        is_digit(c),
{
    if d == 0 {
        '0'
    } else if d == 1 {
        '1'
    } else if d == 2 {
        '2'
    } else if d == 3 {
        '3'
    } else if d == 4 {
        '4'
    } else if d == 5 {
        '5'
    } else if d == 6 {
        '6'
    } else if d == 7 {
        '7'
    } else if d == 8 {
        '8'
    } else {
        '9'
    }
}

/// Append the canonical digits of `n`, most significant first.
fn push_digits(out: &mut String, n: u128)
    ensures
        final (out)@ == old(out)@ + dec_digits(n as nat),
    decreases n,
{
    let ghost pre = out@;
    if n >= 10 {
        push_digits(out, n / 10);
    }
    let c = digit_char_of(n % 10);
    push_digit_char(out, c);
    proof {
        if n >= 10 {
            assert(dec_digits(n as nat) =~= dec_digits(n as nat / 10) + seq![
                digit_char(n as nat % 10),
            ]);
            assert(final (out)@ =~= pre + dec_digits(n as nat));
        } else {
            assert(dec_digits(n as nat) =~= seq![digit_char(n as nat)]);
            assert(final (out)@ =~= pre + dec_digits(n as nat));
        }
    }
}

/// Append the digits of `n` left-padded with zeros to exactly `w` places.
fn push_padded_digits(out: &mut String, n: u128, w: u32)
    ensures
        final (out)@ == old(out)@ + padded_digits(n as nat, w as nat),
    decreases w,
{
    let ghost pre = out@;
    if w == 0 {
        proof {
            assert(padded_digits(n as nat, 0) =~= Seq::<char>::empty());
            assert(final (out)@ =~= pre + padded_digits(n as nat, 0));
        }
        return ;
    }
    push_padded_digits(out, n / 10, w - 1);
    let c = digit_char_of(n % 10);
    push_digit_char(out, c);
    proof {
        assert(padded_digits(n as nat, w as nat) =~= padded_digits(n as nat / 10, (w - 1) as nat)
            + seq![digit_char(n as nat % 10)]);
        assert(final (out)@ =~= pre + padded_digits(n as nat, w as nat));
    }
}

/// Append `count` zero characters.
#[verifier::loop_isolation(false)]
fn push_zeros(out: &mut String, count: usize)
    ensures
        final (out)@ == old(out)@ + zeros(count as nat),
{
    let ghost pre = out@;
    let mut i: usize = 0;
    while i < count
        invariant
            0 <= i <= count,
            out@ == pre + zeros(i as nat),
        decreases count - i,
    {
        push_digit_char(out, '0');
        proof {
            assert(pre + zeros(i as nat) + seq!['0'] =~= pre + zeros((i + 1) as nat));
        }
        i = i + 1;
    }
    proof {
        assert(out@ =~= pre + zeros(count as nat));
    }
}

impl BigDecimal {
    /// The magnitude of the unscaled value, widened so that even
    /// `i128::MIN` has one.
    fn unscaled_magnitude(&self) -> (r: u128)
        ensures
            r == abs_int(self.unscaled_value as int),
    {
        if self.unscaled_value >= 0 {
            self.unscaled_value as u128
        } else {
            (-(self.unscaled_value + 1)) as u128 + 1
        }
    }

    /// Render the denoted value as text; the exact inverse of parsing
    /// for every nonnegative scale.
    pub fn to_string(&self) -> (r: String)
        ensures
            r@ == self.spec_format(),
    {
        let mut out = String::new();
        if self.unscaled_value < 0 {
            proof {
                reveal_strlit("-");
                assert("-"@ =~= seq!['-']);
            }
            out.append("-");
        }
        let mag = self.unscaled_magnitude();
        let ghost pre = out@;
        if self.scale <= 0 {
            push_digits(&mut out, mag);
            let zcount: usize = (-(self.scale as i64)) as usize;
            push_zeros(&mut out, zcount);
            proof {
                assert(out@ =~= self.spec_format());
            }
        } else {
            let ghost m = mag as nat;
            proof {
                lemma_dec_digits_wf(m);
            }
            if self.scale > 38 {
                // The magnitude has fewer than 39 digits, so a scale this
                // large makes the integer part zero and the fraction a
                // zero-padded copy of all the digits.
                proof {
                    lemma_pow10_38();
                    assert(pow10(39) == 10 * pow10(38));
                    lemma_pow10_increases(39, self.scale as nat);
                    assert(m < pow10(self.scale as nat));
                    vstd::arithmetic::div_mod::lemma_basic_div(m as int, pow10(self.scale as nat));
                    vstd::arithmetic::div_mod::lemma_small_mod(m, pow10(self.scale as nat) as nat);
                }
                push_digits(&mut out, 0);
                proof {
                    reveal_strlit(".");
                    assert("."@ =~= seq!['.']);
                }
                out.append(".");
                push_padded_digits(&mut out, mag, self.scale as u32);
                proof {
                    assert(out@ =~= self.spec_format());
                }
            } else {
                let p = pow10_u128(self.scale as u32);
                proof {
                    lemma_pow10_pos(self.scale as nat);
                }
                let q = mag / p;
                let rm = mag % p;
                push_digits(&mut out, q);
                proof {
                    reveal_strlit(".");
                    assert("."@ =~= seq!['.']);
                }
                out.append(".");
                push_padded_digits(&mut out, rm, self.scale as u32);
                proof {
                    assert(out@ =~= self.spec_format());
                }
            }
        }
        out
    }
}

/// The length of the longest digit-only prefix.
pub open spec fn digit_prefix_len(s: Seq<char>) -> nat
    decreases s.len(),
{
    if s.len() == 0 || !is_digit(s[0]) {
        0
    } else {
        1 + digit_prefix_len(s.skip(1))
    }
}

/// What a text denotes as a decimal: an optional sign, a nonempty run
/// of integer digits, and optionally a point followed by a nonempty run
/// of fraction digits.  The scale is the number of fraction digits; the
/// unscaled value is the signed concatenation of all digits, and must
/// fit in an `i128`.
pub open spec fn spec_parse(s: Seq<char>) -> Option<BigDecimal> {
    let neg = s.len() > 0 && s[0] == '-';
    let body = if neg {
        s.skip(1)
    } else {
        s
    };
    let k = digit_prefix_len(body);
    if k == 0 {
        None
    } else if k == body.len() {
        let m = digits_val(body);
        let u = if neg {
            -(m as int)
        } else {
            m as int
        };
        if fits_i128(u) {
            Some(BigDecimal { unscaled_value: u as i128, scale: 0 })
        } else {
            None
        }
    } else if body[k as int] == '.' && k + 1 < body.len() && all_digits(body.skip(k as int + 1)) {
        let fp = body.skip(k as int + 1);
        let m = digits_val(body.take(k as int) + fp);
        let u = if neg {
            -(m as int)
        } else {
            m as int
        };
        if fits_i128(u) && fp.len() <= i32::MAX {
            Some(BigDecimal { unscaled_value: u as i128, scale: fp.len() as i32 })
        } else {
            None
        }
    } else {
        None
    }
}

/// Appending one digit multiplies the denoted number by ten and adds it.
proof fn lemma_digits_val_push(s: Seq<char>, c: char)
    ensures
        digits_val(s.push(c)) == digits_val(s) * 10 + digit_val(c),
        digits_val(s.push(c)) >= digits_val(s),
{
    let e = s.push(c);
    assert(e.drop_last() =~= s);
    assert(e.last() == c);
    assert(digits_val(s) * 10 >= digits_val(s) * 1);
}

/// The value of concatenated digit strings.
proof fn lemma_digits_val_concat(a: Seq<char>, b: Seq<char>)
    ensures
        digits_val(a + b) == digits_val(a) * pow10(b.len()) + digits_val(b),
    decreases b.len(),
{
    if b.len() == 0 {
        assert(a + b =~= a);
        assert(digits_val(a) * 1 == digits_val(a));
    } else {
        lemma_digits_val_concat(a, b.drop_last());
        let s = a + b;
        assert(s.drop_last() =~= a + b.drop_last());
        assert(s.last() == b.last());
        let p1 = pow10((b.len() - 1) as nat);
        assert(pow10(b.len()) == p1 * 10) by {
            lemma_pow10_adds((b.len() - 1) as nat, 1);
            assert(pow10(1) == 10) by {
                reveal_with_fuel(pow10, 2);
            }
        }
        let va = digits_val(a) as int;
        assert((va * p1 + digits_val(b.drop_last())) * 10 == va * p1 * 10 + digits_val(
            b.drop_last(),
        ) * 10) by {
            vstd::arithmetic::mul::lemma_mul_is_distributive_add_other_way(
                10,
                va * p1,
                digits_val(b.drop_last()) as int,
            );
            vstd::arithmetic::mul::lemma_mul_is_commutative(
                10,
                va * p1 + digits_val(b.drop_last()),
            );
            vstd::arithmetic::mul::lemma_mul_is_commutative(10, va * p1);
            vstd::arithmetic::mul::lemma_mul_is_commutative(10, digits_val(b.drop_last()) as int);
        }
        assert(va * p1 * 10 == va * (p1 * 10)) by {
            vstd::arithmetic::mul::lemma_mul_is_associative(va, p1, 10);
        }
        assert(digits_val(b) == digits_val(b.drop_last()) * 10 + digit_val(b.last()));
    }
}

/// A scan that saw `j` digits and then a non-digit (or the end) has
/// found the digit prefix.
proof fn lemma_digit_prefix_from_scan(s: Seq<char>, j: int)
    requires
        0 <= j <= s.len(),
        forall|i: int| 0 <= i < j ==> is_digit(#[trigger] s[i]),
        j == s.len() || !is_digit(s[j]),
    ensures
        digit_prefix_len(s) == j,
    decreases j,
{
    if j == 0 {
    } else {
        lemma_digit_prefix_from_scan(s.skip(1), j - 1);
    }
}

/// Every character of the digit prefix is a digit.
proof fn lemma_digit_prefix_chars(s: Seq<char>)
    ensures
        digit_prefix_len(s) <= s.len(),
        forall|i: int| 0 <= i < digit_prefix_len(s) ==> is_digit(#[trigger] s[i]),
        digit_prefix_len(s) < s.len() ==> !is_digit(s[digit_prefix_len(s) as int]),
    decreases s.len(),
{
    if s.len() > 0 && is_digit(s[0]) {
        lemma_digit_prefix_chars(s.skip(1));
        let t = s.skip(1);
        assert forall|i: int| 0 <= i < digit_prefix_len(s) implies is_digit(#[trigger] s[i]) by {
            if i > 0 {
                assert(s[i] == t[i - 1]);
                assert(is_digit(t[i - 1]));
            }
        }
        if digit_prefix_len(s) < s.len() {
            assert(s[digit_prefix_len(s) as int] == t[digit_prefix_len(t) as int]);
        }
    }
}

/// A text that parses holds only ASCII characters: a sign, a point,
/// and digits.
proof fn lemma_parse_needs_ascii(s: Seq<char>)
    requires
        spec_parse(s) is Some,
    ensures
        vstd::utf8::is_ascii_chars(s),
{
    let neg = s.len() > 0 && s[0] == '-';
    let body = if neg {
        s.skip(1)
    } else {
        s
    };
    let k = digit_prefix_len(body);
    lemma_digit_prefix_chars(body);
    assert forall|i: int| 0 <= i < s.len() implies '\0' <= #[trigger] s[i] <= '\u{7f}' by {
        let off: int = if neg {
            1
        } else {
            0
        };
        if i < off {
            assert(s[i] == '-');
        } else {
            let j = i - off;
            assert(s[i] == body[j]);
            if j < k {
                assert(is_digit(body[j]));
            } else if k < body.len() && j == k {
                assert(body[j] == '.');
            } else {
                assert(k < body.len() && j > k);
                let fp = body.skip(k as int + 1);
                assert(all_digits(fp));
                assert(body[j] == fp[j - k - 1]);
                assert(is_digit(fp[j - k - 1]));
            }
        }
    }
}

/// The numeric value of a character, when it is a decimal digit.
fn digit_of_char(c: char) -> (r: Option<u8>)
    ensures
        match r {
            Some(d) => is_digit(c) && d == digit_val(c) && d <= 9,
            None => !is_digit(c),
        },
{
    if c == '0' {
        Some(0)
    } else if c == '1' {
        Some(1)
    } else if c == '2' {
        Some(2)
    } else if c == '3' {
        Some(3)
    } else if c == '4' {
        Some(4)
    } else if c == '5' {
        Some(5)
    } else if c == '6' {
        Some(6)
    } else if c == '7' {
        Some(7)
    } else if c == '8' {
        Some(8)
    } else if c == '9' {
        Some(9)
    } else {
        None
    }
}

impl BigDecimal {
    /// Read a decimal from text: an optional `-`, an integer part, and
    /// optionally `.` and a fraction part whose length becomes the
    /// scale.  Rejects empty input, a missing digit run, stray
    /// characters, extra points, and values outside the 128-bit range.
    #[verifier::loop_isolation(false)]
    #[verifier::rlimit(60)]
    pub fn from_text(s: &str) -> (r: Result<Self, &'static str>)
        ensures
            match spec_parse(s@) {
                Some(d) => r == Ok::<Self, &'static str>(d),
                None => r is Err,
            },
    {
        if !s.is_ascii() {
            proof {
                if spec_parse(s@) is Some {
                    lemma_parse_needs_ascii(s@);
                }
            }
            return Err("Invalid number format");
        }
        let n = s.unicode_len();
        if n == 0 {
            return Err("Empty string");
        }
        let neg = s.get_char(0) == '-';
        let start: usize = if neg {
            1
        } else {
            0
        };
        let ghost body = if neg {
            s@.skip(1)
        } else {
            s@
        };
        proof {
            assert(body.len() == n - start);
            assert forall|j: int| 0 <= j < body.len() implies body[j] == s@[j + start] by {}
        }
        // Integer digits.
        let mut i: usize = start;
        let mut acc: u128 = 0;
        let mut overflow = false;
        let mut stop = false;
        let ghost mut gs = Seq::<char>::empty();
        while !stop && i < n
            invariant
                start <= i <= n,
                gs =~= s@.subrange(start as int, i as int),
                all_digits(gs),
                !overflow ==> acc == digits_val(gs),
                overflow ==> digits_val(gs) > u128::MAX,
                stop ==> i < n && !is_digit(s@[i as int]),
            decreases n - i + if stop {
                0int
            } else {
                1int
            },
        {
            let c = s.get_char(i);
            match digit_of_char(c) {
                Some(d) => {
                    proof {
                        lemma_digits_val_push(gs, c);
                        assert(gs.push(c) =~= s@.subrange(start as int, i + 1));
                    }
                    if !overflow {
                        match acc.checked_mul(10) {
                            Some(t) => {
                                match t.checked_add(d as u128) {
                                    Some(t2) => {
                                        acc = t2;
                                    },
                                    None => {
                                        overflow = true;
                                    },
                                }
                            },
                            None => {
                                proof {
                                    assert(digits_val(gs.push(c)) >= digits_val(gs) * 10);
                                }
                                overflow = true;
                            },
                        }
                    } else {
                        proof {
                            assert(digits_val(gs.push(c)) >= digits_val(gs));
                        }
                    }
                    proof {
                        gs = gs.push(c);
                    }
                    i = i + 1;
                },
                None => {
                    stop = true;
                },
            }
        }
        let int_len = i - start;
        proof {
            assert forall|j: int| 0 <= j < int_len implies is_digit(#[trigger] body[j]) by {
                assert(gs[j] == s@[start + j]);
                assert(is_digit(gs[j]));
                assert(body[j] == s@[start + j]);
            }
            if int_len < body.len() {
                assert(body[int_len as int] == s@[i as int]);
            }
            lemma_digit_prefix_from_scan(body, int_len as int);
        }
        if int_len == 0 {
            return Err("Invalid number format");
        }
        if i == n {
            // No fraction: the whole body is the digit run.
            proof {
                assert(gs =~= body);
            }
            return Self::finish_parse(acc, overflow, neg, 0, Ghost(gs));
        }
        let ghost k = int_len as int;
        proof {
            assert(body[k] == s@[i as int]);
        }
        let dot = s.get_char(i);
        if dot != '.' {
            return Err("Invalid number format");
        }
        let fstart = i + 1;
        i = fstart;
        // Fraction digits: everything after the point must be a digit.
        while i < n
            invariant
                fstart <= i <= n,
                gs =~= s@.subrange(start as int, start + k) + s@.subrange(fstart as int, i as int),
                all_digits(gs),
                !overflow ==> acc == digits_val(gs),
                overflow ==> digits_val(gs) > u128::MAX,
            decreases n - i,
        {
            let c = s.get_char(i);
            match digit_of_char(c) {
                Some(d) => {
                    proof {
                        lemma_digits_val_push(gs, c);
                        assert(gs.push(c) =~= s@.subrange(start as int, start + k) + s@.subrange(
                            fstart as int,
                            i + 1,
                        ));
                    }
                    if !overflow {
                        match acc.checked_mul(10) {
                            Some(t) => {
                                match t.checked_add(d as u128) {
                                    Some(t2) => {
                                        acc = t2;
                                    },
                                    None => {
                                        overflow = true;
                                    },
                                }
                            },
                            None => {
                                proof {
                                    assert(digits_val(gs.push(c)) >= digits_val(gs) * 10);
                                }
                                overflow = true;
                            },
                        }
                    } else {
                        proof {
                            assert(digits_val(gs.push(c)) >= digits_val(gs));
                        }
                    }
                    proof {
                        gs = gs.push(c);
                    }
                    i = i + 1;
                },
                None => {
                    proof {
                        assert(body[k + 1 + (i - fstart)] == s@[i as int]);
                        assert(!all_digits(body.skip(k + 1))) by {
                            assert(body.skip(k + 1)[i - fstart] == s@[i as int]);
                        }
                    }
                    return Err("Invalid fraction part");
                },
            }
        }
        let frac_len = n - fstart;
        if frac_len == 0 {
            return Err("Empty fraction part");
        }
        if frac_len > i32::MAX as usize {
            proof {
                assert(body.skip(k + 1) =~= s@.subrange(fstart as int, n as int));
            }
            return Err("Invalid number format");
        }
        proof {
            assert(body.take(k) =~= s@.subrange(start as int, start + k));
            assert(body.skip(k + 1) =~= s@.subrange(fstart as int, n as int));
            assert(gs =~= body.take(k) + body.skip(k + 1));
            let fp = body.skip(k + 1);
            assert forall|j: int| 0 <= j < fp.len() implies is_digit(#[trigger] fp[j]) by {
                assert(fp[j] == gs[k + j]);
                assert(is_digit(gs[k + j]));
            }
            assert(k + 1 < body.len());
        }
        Self::finish_parse(acc, overflow, neg, frac_len as i32, Ghost(gs))
    }

    /// Turn accumulated digits into a decimal, rejecting values outside
    /// the 128-bit range.  `gs` is the digit string that was scanned.
    fn finish_parse(acc: u128, overflow: bool, neg: bool, scale: i32, Ghost(gs): Ghost<Seq<char>>)
        -> (r: Result<Self, &'static str>)
        requires
            !overflow ==> acc == digits_val(gs),
            overflow ==> digits_val(gs) > u128::MAX,
        ensures
            ({
                let m = digits_val(gs);
                let u = if neg {
                    -(m as int)
                } else {
                    m as int
                };
                match r {
                    Ok(d) => fits_i128(u) && d == (BigDecimal {
                        unscaled_value: u as i128,
                        scale: scale,
                    }),
                    Err(_) => !fits_i128(u),
                }
            }),
    {
        if overflow {
            return Err("Invalid number format");
        }
        if neg {
            if acc > 0x80000000000000000000000000000000u128 {
                return Err("Invalid number format");
            }
            if acc == 0x80000000000000000000000000000000u128 {
                return Ok(Self { unscaled_value: i128::MIN, scale });
            }
            return Ok(Self { unscaled_value: -(acc as i128), scale });
        }
        if acc > i128::MAX as u128 {
            return Err("Invalid number format");
        }
        Ok(Self { unscaled_value: acc as i128, scale })
    }
}

/// Negating a decimal twice restores it exactly.
pub proof fn lemma_negate_involutive(d: BigDecimal)
    requires
        d.unscaled_value != i128::MIN,
    ensures
        d.spec_negated().spec_negated() == d,
{
}

/// The magnitude of a decimal is never negative, and keeps the scale.
pub proof fn lemma_abs_nonnegative(d: BigDecimal)
    requires
        d.unscaled_value != i128::MIN,
    ensures
        d.spec_abs().unscaled_value >= 0,
        d.spec_abs().scale == d.scale,
{
}

/// A multiple of `f` splits under truncated division with quotient `x`
/// and no remainder.
proof fn lemma_tmod_multiple(x: int, f: int)
    requires
        f > 0,
    ensures
        tmod(x * f, f) == 0,
        tdiv(x * f, f) == x,
{
    if x == 0 {
        assert(0 * f == 0) by {
            vstd::arithmetic::mul::lemma_mul_basics(f);
        }
    } else if x > 0 {
        assert(x * f > 0) by {
            vstd::arithmetic::mul::lemma_mul_strictly_positive(x, f);
        }
        assert((x * f) % f == 0) by {
            vstd::arithmetic::div_mod::lemma_mod_multiples_basic(x, f);
        }
        assert((x * f) / f == x) by {
            vstd::arithmetic::div_mod::lemma_div_by_multiple(x, f);
        }
    } else {
        assert((-x) * f > 0) by {
            vstd::arithmetic::mul::lemma_mul_strictly_positive(-x, f);
        }
        assert((-x) * f == -(x * f)) by {
            vstd::arithmetic::mul::lemma_mul_unary_negation(x, f);
        }
        assert(((-x) * f) % f == 0) by {
            vstd::arithmetic::div_mod::lemma_mod_multiples_basic(-x, f);
        }
        assert(((-x) * f) / f == -x) by {
            vstd::arithmetic::div_mod::lemma_div_by_multiple(-x, f);
        }
    }
}

/// Rescaling up to `s2` and then back down to any `s1` between the
/// original scale and `s2` is exact — `Unnecessary` rounding succeeds —
/// and agrees with rescaling directly to `s1`.
pub proof fn lemma_rescale_compose(d: BigDecimal, s1: i32, s2: i32, m: RoundingMode)
    requires
        d.scale <= s1 <= s2,
        d.can_rescale(s2 as int, m),
    ensures
        d.can_rescale(s1 as int, m),
        d.spec_rescaled(s2 as int, m).can_rescale(s1 as int, RoundingMode::Unnecessary),
        d.spec_rescaled(s2 as int, m).spec_rescaled(s1 as int, RoundingMode::Unnecessary)
            == d.spec_rescaled(s1 as int, m),
{
    let a = d.scale as int;
    let u = d.unscaled_value as int;
    let p1 = pow10((s1 - a) as nat);
    let p2 = pow10((s2 - a) as nat);
    let f = pow10((s2 - s1) as nat);
    lemma_pow10_pos((s1 - a) as nat);
    lemma_pow10_pos((s2 - a) as nat);
    lemma_pow10_pos((s2 - s1) as nat);
    assert(p2 == p1 * f) by {
        lemma_pow10_adds((s1 - a) as nat, (s2 - s1) as nat);
    }
    assert(u * p2 == (u * p1) * f) by {
        vstd::arithmetic::mul::lemma_mul_is_associative(u, p1, f);
    }
    lemma_tmod_multiple(u * p1, f);
    assert(fits_i128(u * p1)) by {
        lemma_mul_pow10_abs_sign(u, (s1 - a) as nat);
        lemma_mul_pow10_abs_sign(u, (s2 - a) as nat);
        assert(abs_int(u) * p1 <= abs_int(u) * p2) by {
            lemma_pow10_increases((s1 - a) as nat, (s2 - a) as nat);
            vstd::arithmetic::mul::lemma_mul_inequality(p1, p2, abs_int(u));
            vstd::arithmetic::mul::lemma_mul_is_commutative(p1, abs_int(u));
            vstd::arithmetic::mul::lemma_mul_is_commutative(p2, abs_int(u));
        }
    }
    let up = d.spec_rescaled(s2 as int, m);
    assert(up.unscaled_value == u * p2);
    if s1 == s2 {
        assert(pow10(0) == 1);
        assert(up.at_scale(s1 as int) == up.unscaled_value * 1);
    } else {
        assert(up.spec_rescaled(s1 as int, RoundingMode::Unnecessary) == BigDecimal {
            unscaled_value: (u * p1) as i128,
            scale: s1,
        });
    }
}

/// Adding a zero decimal preserves the denoted value, on either side.
pub proof fn lemma_zero_add_identity(x: BigDecimal)
    requires
        (BigDecimal { unscaled_value: 0, scale: 0 }).can_add(x),
    ensures
        (BigDecimal { unscaled_value: 0, scale: 0 }).spec_plus(x).same_value(x),
        (x.spec_plus(BigDecimal { unscaled_value: 0, scale: 0 }).same_value(x)),
{
    let z = BigDecimal { unscaled_value: 0, scale: 0 };
    let ms = z.common_scale(x);
    assert(pow10(0) == 1);
    assert(z.at_scale(ms) == 0) by {
        vstd::arithmetic::mul::lemma_mul_basics(pow10((ms - 0) as nat));
    }
    let p = z.spec_plus(x);
    assert(p.unscaled_value == x.at_scale(ms));
    assert(p.at_scale(ms) == p.unscaled_value * 1);
    let q = x.spec_plus(z);
    assert(q.unscaled_value == x.at_scale(ms));
    assert(q.at_scale(ms) == q.unscaled_value * 1);
}

/// Adding a decimal and then subtracting it restores the value exactly:
/// the result is `x` itself, represented at the common scale.
pub proof fn lemma_add_sub_cancels(x: BigDecimal, y: BigDecimal)
    requires
        x.can_add(y),
    ensures
        x.spec_plus(y).can_subtract(y),
        x.spec_plus(y).spec_minus(y).same_value(x),
        x.spec_plus(y).spec_minus(y).unscaled_value == x.at_scale(x.common_scale(y)),
{
    let ms = x.common_scale(y);
    let p = x.spec_plus(y);
    assert(pow10(0) == 1);
    assert(p.at_scale(ms) == p.unscaled_value * 1);
    assert(p.common_scale(y) == ms);
    let r = p.spec_minus(y);
    assert(r.unscaled_value == x.at_scale(ms));
    assert(r.at_scale(ms) == r.unscaled_value * 1);
    assert(r.common_scale(x) == ms);
}

impl core::str::FromStr for BigDecimal {
    type Err = &'static str;

    fn from_str(s: &str) -> Result<Self, Self::Err> {
        BigDecimal::from_text(s)
    }
}

/// Parsing the canonical text of a decimal with a nonnegative scale
/// yields exactly that decimal back: the same unscaled value and the
/// same scale.
pub proof fn lemma_parse_format_round_trip(d: BigDecimal)
    requires
        d.scale >= 0,
    ensures
        spec_parse(d.spec_format()) == Some(d),
{
    let u = d.unscaled_value as int;
    let m = abs_int(u) as nat;
    let neg = d.unscaled_value < 0;
    let sgn: Seq<char> = if neg {
        seq!['-']
    } else {
        seq![]
    };
    let s = d.spec_format();
    lemma_dec_digits_wf(m);
    if d.scale == 0 {
        let dg = dec_digits(m);
        assert(s =~= sgn + dg + zeros(0));
        assert(s =~= sgn + dg);
        assert(is_digit(dg[0]));
        if neg {
            assert(s[0] == '-');
            assert(s.skip(1) =~= dg);
        } else {
            assert(s[0] == dg[0]);
            assert(s[0] != '-');
            assert(s =~= dg);
        }
        let body = if s.len() > 0 && s[0] == '-' {
            s.skip(1)
        } else {
            s
        };
        assert(body =~= dg);
        lemma_digit_prefix_from_scan(body, dg.len() as int);
        assert(digits_val(body) == m);
        if neg {
            assert(-(m as int) == u);
        } else {
            assert(m as int == u);
        }
        assert(spec_parse(s) == Some(d));
    } else {
        let w = d.scale as nat;
        let p = pow10(w) as nat;
        lemma_pow10_pos(w);
        let q = m / p;
        let rm = m % p;
        vstd::arithmetic::div_mod::lemma_fundamental_div_mod(m as int, p as int);
        vstd::arithmetic::div_mod::lemma_mod_bound(m as int, p as int);
        let dg = dec_digits(q);
        let fr = padded_digits(rm, w);
        lemma_dec_digits_wf(q);
        lemma_padded_digits_wf(rm, w);
        assert(s =~= sgn + dg + seq!['.'] + fr);
        let body = if s.len() > 0 && s[0] == '-' {
            s.skip(1)
        } else {
            s
        };
        assert(is_digit(dg[0]));
        if neg {
            assert(s[0] == '-');
            assert(body =~= dg + seq!['.'] + fr);
        } else {
            assert(s[0] == dg[0]);
            assert(s[0] != '-');
            assert(body =~= dg + seq!['.'] + fr);
        }
        let k = dg.len() as int;
        assert forall|i: int| 0 <= i < k implies is_digit(#[trigger] body[i]) by {
            assert(body[i] == dg[i]);
        }
        assert(body[k] == '.');
        assert(!is_digit('.'));
        lemma_digit_prefix_from_scan(body, k);
        assert(body.take(k) =~= dg);
        assert(body.skip(k + 1) =~= fr);
        assert(all_digits(fr));
        assert(k + 1 < body.len());
        lemma_digits_val_concat(dg, fr);
        assert(digits_val(dg + fr) == digits_val(dg) * pow10(fr.len()) + digits_val(fr));
        assert(pow10(fr.len()) == p as int);
        assert(q * (p as int) == (p as int) * q) by {
            vstd::arithmetic::mul::lemma_mul_is_commutative(q as int, p as int);
        }
        assert(digits_val(dg + fr) == m);
        if neg {
            assert(-(m as int) == u);
        } else {
            assert(m as int == u);
        }
        assert(fr.len() == w <= i32::MAX);
        assert(spec_parse(s) == Some(d));
    }
}

impl PartialEq for BigDecimal {
    /// Value equality: `(1230, 3)` equals `(123, 2)`.
    fn eq(&self, other: &Self) -> (r: bool) {
        self.cmp_value(other) == 0
    }
}

impl vstd::std_specs::cmp::PartialEqSpecImpl for BigDecimal {
    open spec fn obeys_eq_spec() -> bool {
        true
    }

    open spec fn eq_spec(&self, other: &Self) -> bool {
        self.same_value(*other)
    }
}

impl PartialOrd for BigDecimal {
    /// Value ordering at the common scale.
    fn partial_cmp(&self, other: &Self) -> (r: Option<core::cmp::Ordering>) {
        let c = self.cmp_value(other);
        if c < 0 {
            Some(core::cmp::Ordering::Less)
        } else if c == 0 {
            Some(core::cmp::Ordering::Equal)
        } else {
            Some(core::cmp::Ordering::Greater)
        }
    }
}

impl vstd::std_specs::cmp::PartialOrdSpecImpl for BigDecimal {
    open spec fn obeys_partial_cmp_spec() -> bool {
        true
    }

    open spec fn partial_cmp_spec(&self, other: &Self) -> Option<core::cmp::Ordering> {
        let ms = self.common_scale(*other);
        if self.at_scale(ms) < other.at_scale(ms) {
            Some(core::cmp::Ordering::Less)
        } else if self.at_scale(ms) == other.at_scale(ms) {
            Some(core::cmp::Ordering::Equal)
        } else {
            Some(core::cmp::Ordering::Greater)
        }
    }
}

} // verus!
