//! Rational time bases and timestamp rescaling.

use vstd::prelude::*;

verus! {

/// Timestamp value that stands for "unknown" (no presentation time).
pub const NO_TIMESTAMP: i64 = i64::MIN;

/// A rational number `num / den`, used as a time base or a frame rate.
#[derive(Clone, Copy, Debug, PartialEq, Eq, Structural)]
pub struct Rational {
    pub num: i32,
    pub den: i32,
}

/// Errors of rational construction.
#[derive(Clone, Copy, Debug, PartialEq, Eq, Structural)]
pub enum TimeError {
    /// The denominator would be zero.
    ZeroDenominator,
}

/// How a scaled value that falls between two integers is rounded.
#[derive(Clone, Copy, Debug, PartialEq, Eq, Structural)]
pub enum Rounding {
    /// Toward zero.
    Zero,
    /// Away from zero.
    Inf,
    /// Toward minus infinity.
    Down,
    /// Toward plus infinity.
    Up,
    /// To the nearest integer, halfway cases away from zero.
    NearInf,
}

impl Rational {
    /// A rational is well formed when its denominator is not zero.
    pub open spec fn wf(self) -> bool {
        self.den != 0
    }

    /// Builds `num / den`; a zero denominator is reported, not accepted.
    pub fn new(num: i32, den: i32) -> (r: Result<Rational, TimeError>)
        ensures
            den == 0 <==> r == Err::<Rational, TimeError>(TimeError::ZeroDenominator),
            den != 0 ==> r == Ok::<Rational, TimeError>(Rational { num, den }),
    {
        if den == 0 {
            Err(TimeError::ZeroDenominator)
        } else {
            Ok(Rational { num, den })
        }
    }

    /// The reciprocal `den / num`, as a value.
    pub open spec fn spec_inverse(self) -> Rational {
        Rational { num: self.den, den: self.num }
    }

    /// The reciprocal; fails where the numerator is zero, since the result
    /// would have a zero denominator.
    pub fn inverse(&self) -> (r: Result<Rational, TimeError>)
        ensures
            self.num == 0 <==> r == Err::<Rational, TimeError>(TimeError::ZeroDenominator),
            self.num != 0 ==> r == Ok::<Rational, TimeError>(self.spec_inverse()),
    {
        Rational::new(self.den, self.num)
    }
}

/// `n / c` rounded as `rnd` says, for a positive divisor `c`.
pub open spec fn round_div(n: int, c: int, rnd: Rounding) -> int {
    let floor = n / c;
    let ceil = -((-n) / c);
    match rnd {
        Rounding::Down => floor,
        Rounding::Up => ceil,
        Rounding::Zero => if n >= 0 { floor } else { ceil },
        Rounding::Inf => if n >= 0 { ceil } else { floor },
        Rounding::NearInf => if n >= 0 {
            (2 * n + c) / (2 * c)
        } else {
            -((2 * (-n) + c) / (2 * c))
        },
    }
}

/// `value * from / to`, rounded as `rnd` says.
///
/// With `pass_minmax`, the extreme values `i64::MIN` (unknown) and `i64::MAX`
/// pass through unchanged. A negative scale factor, a non-positive divisor,
/// or a result that does not fit in `i64` gives `NO_TIMESTAMP`.
pub open spec fn rescaled(value: i64, from: Rational, to: Rational, rnd: Rounding, pass_minmax: bool) -> i64 {
    let b = from.num * to.den;
    let c = to.num * from.den;
    if pass_minmax && (value == i64::MIN || value == i64::MAX) {
        value
    } else if b < 0 || c <= 0 {
        NO_TIMESTAMP
    } else {
        let q = round_div(value * b, c, rnd);
        if i64::MIN <= q <= i64::MAX { q as i64 } else { NO_TIMESTAMP }
    }
}

/// Rounds `m / c` (both non-negative, `c` positive) for a non-negative dividend.
fn round_magnitude(m: u128, c: u128, up: bool, nearest: bool) -> (r: u128)
    requires
        0 < c < 0x1_0000_0000_0000_0000,
        m < 0x4000_0000_0000_0000_0000_0000_0000_0000,
    ensures
        nearest ==> r == (2 * m + c) / (2 * c),
        !nearest && !up ==> r == m / c,
        !nearest && up ==> r == -((-m) / (c as int)),
{
    if nearest {
        (2 * m + c) / (2 * c)
    } else if !up {
        m / c
    } else {
        let q = m / c;
        let rem = m % c;
        proof {
            lemma_ceil_div(m as int, c as int);
        }
        if rem == 0 { q } else { q + 1 }
    }
}

proof fn lemma_ceil_div(m: int, c: int)
    requires
        m >= 0,
        c > 0,
    ensures
        -((-m) / c) == if m % c == 0 { m / c } else { m / c + 1 },
{
    let q = m / c;
    let r = m % c;
    assert(m == q * c + r) by (nonlinear_arith) requires q == m / c, r == m % c, c > 0;
    if r == 0 {
        assert(-m == (-q) * c) by (nonlinear_arith) requires m == q * c + r, r == 0;
        assert((-m) / c == -q) by (nonlinear_arith) requires -m == (-q) * c, c > 0;
    } else {
        assert(-m == (-q - 1) * c + (c - r)) by (nonlinear_arith) requires m == q * c + r;
        assert(0 <= c - r < c);
        assert((-m) / c == -q - 1) by (nonlinear_arith)
            requires -m == (-q - 1) * c + (c - r), 0 <= c - r < c, c > 0;
    }
}


/// Rescales `value` from time base `from` to time base `to`, rounding as
/// `rnd` says; see `rescaled` for the extreme and degenerate cases.
pub fn rescale_rnd(value: i64, from: Rational, to: Rational, rnd: Rounding, pass_minmax: bool) -> (r: i64)
    ensures
        r == rescaled(value, from, to, rnd, pass_minmax),
{
    if pass_minmax && (value == i64::MIN || value == i64::MAX) {
        return value;
    }
    proof {
        lemma_i32_product(from.num as int, to.den as int);
        lemma_i32_product(to.num as int, from.den as int);
    }
    let b: i64 = from.num as i64 * to.den as i64;
    let c: i64 = to.num as i64 * from.den as i64;
    if b < 0 || c <= 0 {
        return NO_TIMESTAMP;
    }
    let neg = value < 0;
    let mag: u128 = if neg { (0i128 - value as i128) as u128 } else { value as u128 };
    assert(mag <= 0x8000_0000_0000_0000);
    assert(mag * (b as u128) <= 0x2000_0000_0000_0000_0000_0000_0000_0000) by (nonlinear_arith)
        requires mag <= 0x8000_0000_0000_0000, 0 <= b <= 0x4000_0000_0000_0000;
    let m: u128 = mag * (b as u128);
    let (up, nearest) = match rnd {
        Rounding::Down => (neg, false),
        Rounding::Up => (!neg, false),
        Rounding::Zero => (false, false),
        Rounding::Inf => (true, false),
        Rounding::NearInf => (false, true),
    };
    let q = round_magnitude(m, c as u128, up, nearest);
    proof {
        let n = value * b;
        if neg {
            assert(n == -(m as int)) by (nonlinear_arith) requires n == value * b, m == mag * b, mag == -value;
        } else {
            assert(n == m as int) by (nonlinear_arith) requires n == value * b, m == mag * b, mag == value;
        }
        lemma_zero_div(c as int);
    }
    if neg {
        if q <= 0x8000_0000_0000_0000 {
            (0i128 - q as i128) as i64
        } else {
            NO_TIMESTAMP
        }
    } else {
        if q <= 0x7fff_ffff_ffff_ffff {
            q as i64
        } else {
            NO_TIMESTAMP
        }
    }
}

/// Rescales with round-to-nearest (halfway cases away from zero) and no
/// pass-through of extreme values.
pub fn rescale(value: i64, from: Rational, to: Rational) -> (r: i64)
    ensures
        r == rescaled(value, from, to, Rounding::NearInf, false),
{
    rescale_rnd(value, from, to, Rounding::NearInf, false)
}

proof fn lemma_i32_product(x: int, y: int)
    requires
        -0x8000_0000 <= x < 0x8000_0000,
        -0x8000_0000 <= y < 0x8000_0000,
    ensures
        -0x4000_0000_0000_0000 < x * y <= 0x4000_0000_0000_0000,
{
    assert(-0x4000_0000_0000_0000 < x * y <= 0x4000_0000_0000_0000) by (nonlinear_arith)
        requires -0x8000_0000 <= x < 0x8000_0000, -0x8000_0000 <= y < 0x8000_0000;
}

proof fn lemma_zero_div(c: int)
    requires
        c > 0,
    ensures
        0int / c == 0,
        (-0int) / c == 0,
        c / (2 * c) == 0,
{
    assert(c / (2 * c) == 0) by (nonlinear_arith) requires c > 0;
}

/// Taking the reciprocal twice gives back the rational one started from,
/// for every rational whose reciprocal exists (non-zero numerator).
pub proof fn lemma_inverse_involutive(r: Rational)
    requires
        r.wf(),
        r.num != 0,
    ensures
        r.spec_inverse().wf(),
        r.spec_inverse().spec_inverse() == r,
{
}

/// Rescaling from a time base to the same time base leaves every value
/// unchanged, whatever the rounding and the treatment of extreme values, for
/// every time base of positive value.
pub proof fn lemma_rescale_identity(value: i64, tb: Rational, rnd: Rounding, pass_minmax: bool)
    requires
        tb.num * tb.den > 0,
    ensures
        rescaled(value, tb, tb, rnd, pass_minmax) == value,
{
    lemma_exact_round_div(value as int, tb.num * tb.den, rnd);
}

/// Dividing an exact multiple gives the multiplier back under every rounding.
proof fn lemma_exact_round_div(v: int, b: int, rnd: Rounding)
    requires
        b > 0,
    ensures
        round_div(v * b, b, rnd) == v,
{
    assert((v * b) / b == v) by (nonlinear_arith) requires b > 0;
    assert((-(v * b)) / b == -v) by (nonlinear_arith) requires b > 0;
    if v >= 0 {
        assert(v * b >= 0) by (nonlinear_arith) requires v >= 0, b > 0;
        assert((2 * (v * b) + b) / (2 * b) == v) by (nonlinear_arith) requires b > 0, v >= 0;
    } else {
        assert(v * b < 0) by (nonlinear_arith) requires v < 0, b > 0;
        assert((2 * (-(v * b)) + b) / (2 * b) == -v) by (nonlinear_arith) requires b > 0, v < 0;
    }
}

} // verus!
