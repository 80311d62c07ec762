//! Fixed-point decimal arithmetic.
//!
//! A quantity of 1.5 is held as the integer 1_500_000: the count of its
//! millionths. Results that have no exact millionth are rounded to the
//! nearest one, a tie going up; results that leave the range of `i64` stop at
//! its nearest end.
use vstd::prelude::*;
use vstd::arithmetic::div_mod::lemma_fundamental_div_mod;

verus! {

/// The number of steps in one whole unit.
pub const MICRO: i64 = 1_000_000;

/// `v`, or the end of the `i64` range nearest to it.
pub open spec fn saturate(v: int) -> int {
    if v < i64::MIN {
        i64::MIN as int
    } else if v > i64::MAX {
        i64::MAX as int
    } else {
        v
    }
}

/// The integer nearest to `n / d`, for a positive `d`; of two equally near
/// ones the greater.
pub open spec fn div_round(n: int, d: int) -> int {
    (2 * n + d) / (2 * d)
}

/// `v * num / den`, rounded and saturated.
pub open spec fn scale(v: int, num: int, den: int) -> int {
    saturate(div_round(v * num, den))
}

/// The magnitude of `v`.
pub open spec fn abs(v: int) -> int {
    if v < 0 {
        -v
    } else {
        v
    }
}

/// `div_round(n, d)` lies within half a step of the exact quotient.
pub proof fn lemma_div_round_bounds(n: int, d: int)
    requires
        d > 0,
    ensures
        2 * n - d < 2 * d * div_round(n, d) <= 2 * n + d,
{
    lemma_fundamental_div_mod(2 * n + d, 2 * d);
}

/// A quotient that lies within half a step of `n / d` is `div_round(n, d)`.
pub proof fn lemma_div_round_unique(n: int, d: int, q: int)
    requires
        d > 0,
        2 * n - d < 2 * d * q <= 2 * n + d,
    ensures
        div_round(n, d) == q,
{
    let r = 2 * n + d - 2 * d * q;
    assert(2 * n + d == q * (2 * d) + r) by (nonlinear_arith)
        requires
            r == 2 * n + d - 2 * d * q,
    ;
    vstd::arithmetic::div_mod::lemma_fundamental_div_mod_converse(2 * n + d, 2 * d, q, r);
}

/// Dividing an exact multiple gives the factor back.
pub proof fn lemma_div_round_exact(q: int, d: int)
    requires
        d > 0,
    ensures
        div_round(q * d, d) == q,
{
    assert(2 * (q * d) == 2 * d * q) by (nonlinear_arith);
    lemma_div_round_unique(q * d, d, q);
}

/// Narrows a 128-bit value to 64 bits, stopping at the ends of the range.
pub fn saturate_i128(v: i128) -> (r: i64)
    ensures
        r == saturate(v as int),
{
    if v < i64::MIN as i128 {
        i64::MIN
    } else if v > i64::MAX as i128 {
        i64::MAX
    } else {
        v as i64
    }
}

/// Rounded division of a 128-bit numerator by a positive divisor.
pub fn div_round_i128(n: i128, d: i128) -> (r: i128)
    requires
        0 < d <= 0x1_0000_0000_0000_0000_0000_0000,
        -0x4000_0000_0000_0000_0000_0000_0000_0000 <= n <= 0x4000_0000_0000_0000_0000_0000_0000_0000,
    ensures
        r == div_round(n as int, d as int),
{
    proof {
        lemma_fundamental_div_mod(n as int, d as int);
        vstd::arithmetic::div_mod::lemma_mod_bound(n as int, d as int);
        assert(-0x4000_0000_0000_0000_0000_0000_0000_0000 - 1 <= (n as int) / (d as int)
            <= 0x4000_0000_0000_0000_0000_0000_0000_0000) by (nonlinear_arith)
            requires
                n == d * ((n as int) / (d as int)) + (n as int) % (d as int),
                0 <= (n as int) % (d as int) < d,
                -0x4000_0000_0000_0000_0000_0000_0000_0000 <= n
                    <= 0x4000_0000_0000_0000_0000_0000_0000_0000,
                d >= 1,
        ;
    }
    let q: i128 = match n.checked_div_euclid(d) {
        Some(q) => q,
        None => 0,
    };
    let m: i128 = match n.checked_rem_euclid(d) {
        Some(m) => m,
        None => 0,
    };
    if 2 * m >= d {
        proof {
            assert(2 * n - d < 2 * d * (q + 1) <= 2 * n + d) by (nonlinear_arith)
                requires
                    n == d * q + m,
                    0 <= m < d,
                    2 * m >= d,
            ;
            lemma_div_round_unique(n as int, d as int, q + 1);
        }
        q + 1
    } else {
        proof {
            assert(2 * n - d < 2 * d * q <= 2 * n + d) by (nonlinear_arith)
                requires
                    n == d * q + m,
                    0 <= m < d,
                    2 * m < d,
            ;
            lemma_div_round_unique(n as int, d as int, q as int);
        }
        q
    }
}

/// `v * num / den` in fixed point: the product is exact, the quotient is
/// rounded to the nearest integer and then saturated.
pub fn mul_div(v: i64, num: i64, den: i64) -> (r: i64)
    requires
        0 < den,
    ensures
        r == scale(v as int, num as int, den as int),
{
    assert(-0x4000_0000_0000_0000_0000_0000_0000_0000 <= v * num
        <= 0x4000_0000_0000_0000_0000_0000_0000_0000) by (nonlinear_arith)
        requires
            -0x8000_0000_0000_0000 <= v <= 0x8000_0000_0000_0000,
            -0x8000_0000_0000_0000 <= num <= 0x8000_0000_0000_0000,
    ;
    let product: i128 = (v as i128) * (num as i128);
    saturate_i128(div_round_i128(product, den as i128))
}

/// The sum of two values, saturated.
pub fn add_saturating(a: i64, b: i64) -> (r: i64)
    ensures
        r == saturate(a + b),
{
    saturate_i128(a as i128 + b as i128)
}

/// The difference of two values, saturated.
pub fn sub_saturating(a: i64, b: i64) -> (r: i64)
    ensures
        r == saturate(a - b),
{
    saturate_i128(a as i128 - b as i128)
}

} // verus!
