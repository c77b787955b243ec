//! Exact decimal numbers with nine fractional digits, and the rounding
//! arithmetic that unit conversions and formulas are built from.

use vstd::prelude::*;

verus! {

/// Billionths in one whole unit.
pub const NANOS_PER_UNIT: i64 = 1_000_000_000;

/// A decimal number with nine fractional digits, held exactly as a whole
/// count of billionths.
#[derive(Debug, Clone, Copy, PartialEq, Eq, Structural)]
pub struct Fixed {
    pub nanos: i64,
}

impl View for Fixed {
    type V = int;

    open spec fn view(&self) -> int {
        self.nanos as int
    }
}

/// Whether a count of billionths can be held by a `Fixed`.
pub open spec fn fits(n: int) -> bool {
    i64::MIN <= n <= i64::MAX
}

/// The integer nearest to `n / d` for `d > 0`, halves rounded away from zero.
pub open spec fn round_div(n: int, d: int) -> int {
    if n >= 0 {
        (2 * n + d) / (2 * d)
    } else {
        -((2 * -n + d) / (2 * d))
    }
}

/// A conversion factor `f.0 / f.1`: positive, with neither side above 10^9.
pub open spec fn valid_factor(f: (u64, u64)) -> bool {
    0 < f.0 <= 1_000_000_000 && 0 < f.1 <= 1_000_000_000
}

/// `n` billionths multiplied by the factor `f.0 / f.1`, rounded to the nearest billionth.
pub open spec fn scale(n: int, f: (u64, u64)) -> int {
    round_div(n * f.0, f.1 as int)
}

/// `n` billionths divided by the factor `f.0 / f.1`, rounded to the nearest billionth.
pub open spec fn unscale(n: int, f: (u64, u64)) -> int {
    round_div(n * f.1, f.0 as int)
}

/// Rounding a non-negative quotient: the remainder decides whether to round up.
proof fn lemma_round_div_by_remainder(n: int, d: int)
    requires
        n >= 0,
        d > 0,
    ensures
        round_div(n, d) == if n % d >= d - n % d {
            n / d + 1
        } else {
            n / d
        },
{
    let q = n / d;
    let r = n % d;
    vstd::arithmetic::div_mod::lemma_fundamental_div_mod(n, d);
    let res = if r >= d - r {
        q + 1
    } else {
        q
    };
    let rem = 2 * n + d - 2 * d * res;
    assert(2 * n + d == res * (2 * d) + rem && 0 <= rem < 2 * d) by (nonlinear_arith)
        requires
            n == d * q + r,
            0 <= r < d,
            res == if r >= d - r {
                q + 1
            } else {
                q
            },
            rem == 2 * n + d - 2 * d * res,
    ;
    vstd::arithmetic::div_mod::lemma_fundamental_div_mod_converse(2 * n + d, 2 * d, res, rem);
}

/// `round_div` on machine integers.
pub fn round_div_wide(n: i128, d: i128) -> (r: i128)
    requires
        d > 0,
        n > i128::MIN,
    ensures
        r == round_div(n as int, d as int),
{
    let m = if n >= 0 {
        n
    } else {
        -n
    };
    let q = m / d;
    let rem = m % d;
    proof {
        lemma_round_div_by_remainder(m as int, d as int);
        vstd::arithmetic::div_mod::lemma_fundamental_div_mod(m as int, d as int);
        if rem >= d - rem {
            assert(q < i128::MAX) by (nonlinear_arith)
                requires
                    m == d * q + rem,
                    0 <= rem < d,
                    2 * rem >= d,
                    0 <= m <= i128::MAX,
            ;
        }
    }
    let up = if rem >= d - rem {
        q + 1
    } else {
        q
    };
    if n >= 0 {
        up
    } else {
        -up
    }
}

/// A value in billionths times a count of at most 10^9 stays within 2^112.
pub proof fn lemma_product_bound(a: int, b: int)
    requires
        i64::MIN <= a <= i64::MAX,
        0 < b <= 1_000_000_000,
    ensures
        -0x1_0000_0000_0000_0000_0000_0000_0000 <= a * b <= 0x1_0000_0000_0000_0000_0000_0000_0000,
{
    assert(-0x8000_0000_0000_0000 * 1_000_000_000 <= a * b <= 0x8000_0000_0000_0000 * 1_000_000_000)
        by (nonlinear_arith)
        requires
            -0x8000_0000_0000_0000 <= a <= 0x8000_0000_0000_0000,
            0 < b <= 1_000_000_000,
    ;
}

impl Fixed {
    /// The number with the given count of billionths.
    pub fn from_nanos(nanos: i64) -> (r: Fixed)
        ensures
            r@ == nanos,
    {
        Fixed { nanos }
    }

    /// This number multiplied by the factor `f.0 / f.1`, to the nearest billionth.
    pub fn scaled(self, f: (u64, u64)) -> (r: Fixed)
        requires
            valid_factor(f),
            fits(scale(self@, f)),
        ensures
            r@ == scale(self@, f),
    {
        proof {
            lemma_product_bound(self.nanos as int, f.0 as int);
        }
        let n = self.nanos as i128 * f.0 as i128;
        let r = round_div_wide(n, f.1 as i128);
        Fixed { nanos: r as i64 }
    }

    /// This number divided by the factor `f.0 / f.1`, to the nearest billionth.
    pub fn unscaled(self, f: (u64, u64)) -> (r: Fixed)
        requires
            valid_factor(f),
            fits(unscale(self@, f)),
        ensures
            r@ == unscale(self@, f),
    {
        self.scaled((f.1, f.0))
    }
}


/// Division rounded to the nearest integer lands within half a divisor of the exact quotient.
pub proof fn lemma_round_div_close(n: int, d: int)
    requires
        d > 0,
    ensures
        -d <= 2 * (n - d * round_div(n, d)) <= d,
{
    let r = round_div(n, d);
    if n >= 0 {
        let q = (2 * n + d) / (2 * d);
        assert(r == q);
        assert(-d <= 2 * (n - d * q) <= d) by (nonlinear_arith)
            requires
                d > 0,
                q == (2 * n + d) / (2 * d),
        ;
    } else {
        let q = (2 * -n + d) / (2 * d);
        assert(r == -q);
        assert(-d <= 2 * (n - d * -q) <= d) by (nonlinear_arith)
            requires
                d > 0,
                q == (2 * -n + d) / (2 * d),
        ;
    }
}

/// An integer strictly within half a divisor of the exact quotient is the rounded quotient.
pub proof fn lemma_round_div_unique(n: int, d: int, k: int)
    requires
        d > 0,
        -d < 2 * (n - d * k) < d,
    ensures
        round_div(n, d) == k,
{
    let r = round_div(n, d);
    lemma_round_div_close(n, d);
    assert(r == k) by (nonlinear_arith)
        requires
            d > 0,
            -d < 2 * (n - d * k) < d,
            -d <= 2 * (n - d * r) <= d,
    {
        if r > k {
            assert(d * r >= d * k + d);
        } else if r < k {
            assert(d * k >= d * r + d);
        }
    }
}

/// The factor one leaves every value as it is.
pub proof fn lemma_unit_factor(n: int)
    ensures
        scale(n, (1, 1)) == n,
        unscale(n, (1, 1)) == n,
{
    lemma_round_div_unique(n, 1, n);
}


/// The distance between two counts of billionths.
pub open spec fn distance(x: int, y: int) -> int {
    if x >= y {
        x - y
    } else {
        y - x
    }
}


/// A whole number of steps divided by the size of a step is exact.
pub proof fn lemma_whole_steps(v: int, w: int)
    requires
        w > 0,
    ensures
        round_div(v * w, w) == v,
{
    assert(v * w - w * v == 0) by (nonlinear_arith);
    lemma_round_div_unique(v * w, w, v);
}

/// `r`, the rounded quotient of `b` by `w`, is within half of `w` of `b` when multiplied back,
/// and so within one part in 10^9 of `b` once `b` is at least `10^9 w / 2`.
pub proof fn lemma_value_close(b: int, w: int, r: int)
    requires
        w > 0,
        r == round_div(b, w),
    ensures
        -w <= 2 * (b - w * r) <= w,
        2 * distance(b, 0) >= NANOS_PER_UNIT * w ==> NANOS_PER_UNIT * distance(w * r, b) <= distance(
            b,
            0,
        ),
{
    lemma_round_div_close(b, w);
    if 2 * distance(b, 0) >= NANOS_PER_UNIT * w {
        let e = distance(w * r, b);
        assert(2 * e <= w);
        assert(NANOS_PER_UNIT * e <= distance(b, 0)) by (nonlinear_arith)
            requires
                2 * e <= w,
                2 * distance(b, 0) >= 1_000_000_000 * w,
                NANOS_PER_UNIT == 1_000_000_000,
        ;
    }
}

} // verus!
