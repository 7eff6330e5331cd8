//! Saturating fixed-point arithmetic.
//!
//! Every physical quantity in this crate is a signed 64-bit count of
//! millionths of its unit (micrometres, microradians, microseconds,
//! microvolts, and so on). Sums and differences of two such counts are exact
//! integer sums; a product or a quotient is rescaled by [`SCALE`] and rounded
//! toward zero. A result that leaves the 64-bit range is pinned to the nearest
//! end of that range, so no operation here can overflow or trap.

use vstd::prelude::*;

verus! {

/// The number of counts in one whole unit.
pub const SCALE: i64 = 1_000_000;

/// The absolute value of an integer.
pub open spec fn magnitude(x: int) -> int {
    if x >= 0 {
        x
    } else {
        -x
    }
}

/// The sign of a count: `1` for zero and above, `-1` below zero.
///
/// Zero counts as positive, so a quantity that comes to rest exactly on its
/// target is not read as having crossed it.
pub open spec fn sign_of(x: int) -> int {
    if x >= 0 {
        1
    } else {
        -1
    }
}

/// The nearest value to `x` inside the `i64` range.
pub open spec fn clamp(x: int) -> int {
    if x < i64::MIN as int {
        i64::MIN as int
    } else if x > i64::MAX as int {
        i64::MAX as int
    } else {
        x
    }
}

/// The nearest value to `x` inside `[-bound, bound]`. A negative bound counts
/// as zero.
pub open spec fn clamp_to(x: int, bound: int) -> int {
    if bound < 0 {
        0
    } else if x < -bound {
        -bound
    } else if x > bound {
        bound
    } else {
        x
    }
}

/// The quotient of `n` by `d`, rounded toward zero. Meaningful for `d != 0`.
pub open spec fn trunc_div(n: int, d: int) -> int {
    if (n >= 0) == (d > 0) {
        magnitude(n) / magnitude(d)
    } else {
        -(magnitude(n) / magnitude(d))
    }
}

/// The saturating sum of two counts.
pub open spec fn sum(a: int, b: int) -> int {
    clamp(a + b)
}

/// The saturating difference of two counts.
pub open spec fn difference(a: int, b: int) -> int {
    clamp(a - b)
}

/// The saturating negation of a count.
pub open spec fn negation(a: int) -> int {
    clamp(-a)
}

/// `a * n / d`, rounded toward zero and saturated. Meaningful for `d != 0`.
pub open spec fn ratio(a: int, n: int, d: int) -> int {
    clamp(trunc_div(a * n, d))
}

/// The fixed-point product of two counts.
pub open spec fn product(a: int, b: int) -> int {
    ratio(a, b, SCALE as int)
}

/// The fixed-point quotient of two counts. Meaningful for `b != 0`.
pub open spec fn quotient(a: int, b: int) -> int {
    ratio(a, SCALE as int, b)
}

/// `(a * b + c * d) / divisor`, rounded toward zero and saturated.
pub open spec fn sum_of_products(a: int, b: int, c: int, d: int, divisor: int) -> int {
    clamp(trunc_div(a * b + c * d, divisor))
}

/// `(a * b - c * d) / divisor`, rounded toward zero and saturated.
pub open spec fn difference_of_products(a: int, b: int, c: int, d: int, divisor: int) -> int {
    clamp(trunc_div(a * b - c * d, divisor))
}

/// Whether `r` is the integer square root of `n`, rounded down.
pub open spec fn is_sqrt_floor(n: nat, r: nat) -> bool {
    r * r <= n && n < (r + 1) * (r + 1)
}

/// The integer square root of `n`, rounded down.
pub open spec fn sqrt_floor(n: nat) -> nat {
    choose|r: nat| is_sqrt_floor(n, r)
}

/// At most one number is the rounded-down square root of `n`.
pub proof fn lemma_sqrt_floor_unique(n: nat, r1: nat, r2: nat)
    requires
        is_sqrt_floor(n, r1),
        is_sqrt_floor(n, r2),
    ensures
        r1 == r2,
{
    if r1 < r2 {
        assert((r1 + 1) * (r1 + 1) <= r2 * r2) by (nonlinear_arith)
            requires
                r1 + 1 <= r2,
        ;
    } else if r2 < r1 {
        assert((r2 + 1) * (r2 + 1) <= r1 * r1) by (nonlinear_arith)
            requires
                r2 + 1 <= r1,
        ;
    }
}

/// A number that satisfies the defining inequalities is the square root.
pub proof fn lemma_sqrt_floor_is(n: nat, r: nat)
    requires
        is_sqrt_floor(n, r),
    ensures
        sqrt_floor(n) == r,
{
    lemma_sqrt_floor_unique(n, r, sqrt_floor(n));
}

/// The product of two 64-bit counts fits comfortably in 128 bits.
pub proof fn lemma_product_fits(a: int, b: int)
    requires
        i64::MIN <= a <= i64::MAX,
        i64::MIN <= b <= i64::MAX,
    ensures
        -0x3fff_ffff_ffff_ffff_8000_0000_0000_0000 <= a * b
            <= 0x4000_0000_0000_0000_0000_0000_0000_0000,
{
    assert(-0x3fff_ffff_ffff_ffff_8000_0000_0000_0000 <= a * b
        <= 0x4000_0000_0000_0000_0000_0000_0000_0000) by (nonlinear_arith)
        requires
            -0x8000_0000_0000_0000 <= a <= 0x7fff_ffff_ffff_ffff,
            -0x8000_0000_0000_0000 <= b <= 0x7fff_ffff_ffff_ffff,
    ;
}

/// Dividing by one changes nothing.
pub proof fn lemma_trunc_div_one(n: int)
    ensures
        trunc_div(n, 1) == n,
{
    assert(magnitude(n) / 1 == magnitude(n)) by (nonlinear_arith);
}

/// Dividing zero gives zero.
pub proof fn lemma_trunc_div_zero(d: int)
    requires
        d != 0,
    ensures
        trunc_div(0, d) == 0,
{
    assert(0int / magnitude(d) == 0) by (nonlinear_arith)
        requires
            magnitude(d) >= 1,
    ;
}

/// Pins a 128-bit value into the 64-bit range.
pub fn saturate(x: i128) -> (r: i64)
    ensures
        r as int == clamp(x as int),
{
    if x < i64::MIN as i128 {
        i64::MIN
    } else if x > i64::MAX as i128 {
        i64::MAX
    } else {
        x as i64
    }
}

/// The absolute value of a count, widened so that it cannot overflow.
pub fn abs_wide(x: i64) -> (r: i128)
    ensures
        r as int == magnitude(x as int),
{
    if x >= 0 {
        x as i128
    } else {
        -(x as i128)
    }
}

/// Whether a count is zero or above.
pub fn is_positive(x: i64) -> (r: bool)
    ensures
        r == (sign_of(x as int) == 1),
{
    x >= 0
}

/// Saturating addition.
pub fn sat_add(a: i64, b: i64) -> (r: i64)
    ensures
        r as int == sum(a as int, b as int),
{
    saturate(a as i128 + b as i128)
}

/// Saturating subtraction.
pub fn sat_sub(a: i64, b: i64) -> (r: i64)
    ensures
        r as int == difference(a as int, b as int),
{
    saturate(a as i128 - b as i128)
}

/// Saturating negation.
pub fn sat_neg(a: i64) -> (r: i64)
    ensures
        r as int == negation(a as int),
{
    saturate(-(a as i128))
}

/// The exact integer product of two counts, saturated.
pub fn sat_mul(a: i64, b: i64) -> (r: i64)
    ensures
        r as int == clamp(a as int * b as int),
{
    proof {
        lemma_product_fits(a as int, b as int);
    }
    saturate((a as i128) * (b as i128))
}

/// Division of 128-bit values, rounded toward zero.
pub fn div_wide(n: i128, d: i128) -> (q: i128)
    requires
        d != 0,
        n > i128::MIN,
        d > i128::MIN,
    ensures
        q as int == trunc_div(n as int, d as int),
        magnitude(q as int) <= magnitude(n as int),
{
    let nm: u128 = if n >= 0 {
        n as u128
    } else {
        (-n) as u128
    };
    let dm: u128 = if d >= 0 {
        d as u128
    } else {
        (-d) as u128
    };
    let qm: u128 = nm / dm;
    proof {
        assert(0 <= nm as int / dm as int <= nm as int) by (nonlinear_arith)
            requires
                nm >= 0,
                dm >= 1,
        ;
    }
    if (n >= 0) == (d > 0) {
        qm as i128
    } else {
        -(qm as i128)
    }
}

/// `(a * b + c * d) / divisor`, rounded toward zero and saturated.
pub fn sum_products(a: i64, b: i64, c: i64, d: i64, divisor: i64) -> (r: i64)
    requires
        divisor > 0,
    ensures
        r as int == sum_of_products(a as int, b as int, c as int, d as int, divisor as int),
{
    proof {
        lemma_product_fits(a as int, b as int);
        lemma_product_fits(c as int, d as int);
    }
    let p: i128 = (a as i128) * (b as i128);
    let q: i128 = (c as i128) * (d as i128);
    match p.checked_add(q) {
        Some(total) => saturate(div_wide(total, divisor as i128)),
        None => {
            proof {
                let top = 0x8000_0000_0000_0000_0000_0000_0000_0000int;
                assert(p + q == top);
                assert(top / (divisor as int) > i64::MAX as int) by (nonlinear_arith)
                    requires
                        top == 0x8000_0000_0000_0000_0000_0000_0000_0000int,
                        0 < divisor as int <= 0x7fff_ffff_ffff_ffff,
                ;
            }
            i64::MAX
        },
    }
}

/// `(a * b - c * d) / divisor`, rounded toward zero and saturated.
pub fn diff_products(a: i64, b: i64, c: i64, d: i64, divisor: i64) -> (r: i64)
    requires
        divisor > 0,
    ensures
        r as int == difference_of_products(
            a as int,
            b as int,
            c as int,
            d as int,
            divisor as int,
        ),
{
    proof {
        lemma_product_fits(a as int, b as int);
        lemma_product_fits(c as int, d as int);
    }
    let p: i128 = (a as i128) * (b as i128);
    let q: i128 = (c as i128) * (d as i128);
    match p.checked_sub(q) {
        Some(total) => saturate(div_wide(total, divisor as i128)),
        None => {
            proof {
                let top = 0x8000_0000_0000_0000_0000_0000_0000_0000int;
                assert(p - q == top);
                assert(top / (divisor as int) > i64::MAX as int) by (nonlinear_arith)
                    requires
                        top == 0x8000_0000_0000_0000_0000_0000_0000_0000int,
                        0 < divisor as int <= 0x7fff_ffff_ffff_ffff,
                ;
            }
            i64::MAX
        },
    }
}

/// `a * n / d`, rounded toward zero and saturated.
pub fn mul_div(a: i64, n: i64, d: i64) -> (r: i64)
    requires
        d != 0,
    ensures
        r as int == ratio(a as int, n as int, d as int),
{
    proof {
        lemma_product_fits(a as int, n as int);
    }
    let wide: i128 = (a as i128) * (n as i128);
    saturate(div_wide(wide, d as i128))
}

/// The fixed-point product of two counts.
pub fn fx_mul(a: i64, b: i64) -> (r: i64)
    ensures
        r as int == product(a as int, b as int),
{
    mul_div(a, b, SCALE)
}

/// The fixed-point quotient of two counts.
pub fn fx_div(a: i64, b: i64) -> (r: i64)
    requires
        b != 0,
    ensures
        r as int == quotient(a as int, b as int),
{
    mul_div(a, SCALE, b)
}

/// Pins a count into `[-bound, bound]`. A negative bound counts as zero.
pub fn clamp_symmetric(x: i64, bound: i64) -> (r: i64)
    ensures
        r as int == clamp_to(x as int, bound as int),
{
    if bound < 0 {
        0
    } else if x < -bound {
        -bound
    } else if x > bound {
        bound
    } else {
        x
    }
}

/// The integer square root of `n`, rounded down.
pub fn isqrt(n: u128) -> (r: u64)
    ensures
        is_sqrt_floor(n as nat, r as nat),
        r as nat == sqrt_floor(n as nat),
{
    let mut lo: u128 = 0;
    let mut hi: u128 = 0x1_0000_0000_0000_0000;
    assert(n < hi * hi) by (nonlinear_arith)
        requires
            hi == 0x1_0000_0000_0000_0000,
            n <= 0xffff_ffff_ffff_ffff_ffff_ffff_ffff_ffff,
    ;
    while hi - lo > 1
        invariant
            lo < hi <= 0x1_0000_0000_0000_0000,
            lo * lo <= n,
            n < hi * hi,
        decreases hi - lo,
    {
        let mid: u128 = lo + (hi - lo) / 2;
        assert(mid * mid <= 0xffff_ffff_ffff_ffff * 0xffff_ffff_ffff_ffff) by (nonlinear_arith)
            requires
                0 <= mid <= 0xffff_ffff_ffff_ffff,
        ;
        if mid * mid <= n {
            lo = mid;
        } else {
            hi = mid;
        }
    }
    assert(hi == lo + 1);
    proof {
        lemma_sqrt_floor_is(n as nat, lo as nat);
    }
    lo as u64
}

} // verus!
