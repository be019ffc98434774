//! Exact integer helpers for the fixed-point geometry: floor division,
//! integer square root, and the bound lemmas the intersection proofs lean on.

use vstd::arithmetic::div_mod::{
    lemma_div_is_ordered, lemma_div_pos_is_pos, lemma_fundamental_div_mod,
    lemma_fundamental_div_mod_converse_div, lemma_mod_division_less_than_divisor,
};
use vstd::prelude::*;

verus! {

/// Exclusive upper bound on every integer square root this crate computes:
/// the discriminant of the intersection quadratic stays below
/// `SQRT_RANGE * SQRT_RANGE`.
pub const SQRT_RANGE: i64 = 9_000_000_000_000;

/// `s` is the square root of `d` rounded toward zero.
pub open spec fn is_sqrt_floor(d: int, s: int) -> bool {
    0 <= s && s * s <= d && d < (s + 1) * (s + 1)
}

/// The square root of `d` rounded toward zero, as a value (meaningful for
/// `d >= 0`; see `lemma_sqrt_floor_exists`).
pub open spec fn sqrt_floor(d: int) -> int {
    choose|s: int| is_sqrt_floor(d, s)
}

/// Every non-negative integer has a rounded square root.
pub proof fn lemma_sqrt_floor_exists(d: int)
    requires
        0 <= d,
    ensures
        is_sqrt_floor(d, sqrt_floor(d)),
    decreases d,
{
    if d == 0 {
        assert(is_sqrt_floor(0, 0));
    } else {
        lemma_sqrt_floor_exists(d - 1);
        let s = sqrt_floor(d - 1);
        assert(is_sqrt_floor(d - 1, s));
        if (s + 1) * (s + 1) <= d {
            assert(is_sqrt_floor(d, s + 1)) by (nonlinear_arith)
                requires
                    0 <= s,
                    s * s <= d - 1,
                    d - 1 < (s + 1) * (s + 1),
                    (s + 1) * (s + 1) <= d;
        } else {
            assert(is_sqrt_floor(d, s));
        }
        assert(exists|r: int| is_sqrt_floor(d, r));
    }
}

/// The rounded square root is unique, so any witness names the value.
pub proof fn lemma_sqrt_floor_is(d: int, s: int)
    requires
        is_sqrt_floor(d, s),
    ensures
        sqrt_floor(d) == s,
{
    assert(exists|r: int| is_sqrt_floor(d, r));
    let r = sqrt_floor(d);
    assert(is_sqrt_floor(d, r));
    assert(r == s) by (nonlinear_arith)
        requires
            0 <= s,
            s * s <= d,
            d < (s + 1) * (s + 1),
            0 <= r,
            r * r <= d,
            d < (r + 1) * (r + 1);
}

/// A product is bounded by the product of the bounds of its factors.
pub proof fn lemma_mul_bounds(x: int, y: int, bx: int, by: int)
    by (nonlinear_arith)
    requires
        -bx <= x <= bx,
        -by <= y <= by,
        0 <= bx,
        0 <= by,
    ensures
        -(bx * by) <= x * y <= bx * by,
{
}

/// Multiplying by a non-negative factor preserves order.
pub proof fn lemma_mul_le_mono(k: int, x: int, y: int)
    by (nonlinear_arith)
    requires
        0 <= k,
        x <= y,
    ensures
        k * x <= k * y,
{
}

/// Negation distributes over a product.
pub proof fn lemma_neg_mul(a: int, b: int)
    by (nonlinear_arith)
    ensures
        (-a) * b == -(a * b),
{
}

/// Floor division shrinks magnitudes: a quotient by a positive divisor stays
/// within one step of the bound on the dividend divided by the same divisor,
/// and in particular within one step of the bound itself.
pub proof fn lemma_div_abs_bound(n: int, d: int, b: int)
    requires
        1 <= d,
        -b <= n <= b,
        0 <= b,
    ensures
        -(b / d) - 1 <= n / d <= b / d,
        -b - 1 <= n / d <= b,
{
    lemma_div_is_ordered(n, b, d);
    lemma_div_pos_is_pos(b, d);
    vstd::arithmetic::div_mod::lemma_div_nonincreasing(b, d);
    if n >= 0 {
        lemma_div_pos_is_pos(n, d);
    } else {
        lemma_div_is_ordered(-b, n, d);
        let q = b / d;
        let r = b % d;
        lemma_fundamental_div_mod(b, d);
        lemma_mod_division_less_than_divisor(b, d);
        if r == 0 {
            assert(-b == (-q) * d + 0) by (nonlinear_arith)
                requires
                    b == d * q + r,
                    r == 0;
            lemma_fundamental_div_mod_converse_div(-b, d, -q, 0);
        } else {
            assert(-b == (-q - 1) * d + (d - r)) by (nonlinear_arith)
                requires
                    b == d * q + r;
            lemma_fundamental_div_mod_converse_div(-b, d, -q - 1, d - r);
        }
    }
}

/// Division rounding toward negative infinity, matching the specification
/// meaning of `/` on `int` for a positive divisor.
pub fn div_floor(n: i64, d: i64) -> (q: i64)
    requires
        1 <= d,
        i64::MIN < n,
    ensures
        q == n as int / d as int,
{
    if n >= 0 {
        let q0: u64 = (n as u64) / (d as u64);
        proof {
            lemma_div_pos_is_pos(n as int, d as int);
            lemma_div_is_ordered(n as int, n as int, d as int);
            lemma_div_abs_bound(n as int, d as int, n as int);
        }
        q0 as i64
    } else {
        let m: u64 = (-n) as u64;
        let dd: u64 = d as u64;
        let q0: u64 = (m - 1) / dd;
        proof {
            let mi = m as int;
            let di = d as int;
            let q = (mi - 1) / di;
            let r = (mi - 1) % di;
            lemma_fundamental_div_mod(mi - 1, di);
            lemma_mod_division_less_than_divisor(mi - 1, di);
            assert(-mi == (-q - 1) * di + (di - 1 - r)) by (nonlinear_arith)
                requires
                    mi - 1 == di * q + r;
            lemma_fundamental_div_mod_converse_div(-mi, di, -q - 1, di - 1 - r);
            lemma_div_pos_is_pos(mi - 1, di);
            lemma_div_abs_bound(mi - 1, di, mi - 1);
        }
        let qi: i64 = q0 as i64;
        -qi - 1
    }
}

/// Integer square root, rounded toward zero.
pub fn isqrt(d: i128) -> (s: i128)
    requires
        0 <= d,
        d < 81_000_000_000_000_000_000_000_000,
    ensures
        is_sqrt_floor(d as int, s as int),
        0 <= s < SQRT_RANGE,
{
    let mut lo: u64 = 0;
    let mut hi: u64 = (SQRT_RANGE as u64) - 1;
    proof {
        assert((8_999_999_999_999int + 1) * (8_999_999_999_999int + 1)
            == 81_000_000_000_000_000_000_000_000int) by (nonlinear_arith);
    }
    while lo < hi
        invariant
            lo <= hi,
            hi < SQRT_RANGE,
            (lo as int) * (lo as int) <= d,
            d < ((hi as int) + 1) * ((hi as int) + 1),
        decreases hi - lo,
    {
        let mid: u64 = lo + (hi - lo + 1) / 2;
        assert(lo < mid <= hi);
        let mi: i128 = mid as i128;
        proof {
            lemma_mul_bounds(mi as int, mi as int, 9_000_000_000_000, 9_000_000_000_000);
        }
        let msq: i128 = mi * mi;
        if msq <= d {
            lo = mid;
        } else {
            hi = mid - 1;
        }
    }
    lo as i128
}

} // verus!
