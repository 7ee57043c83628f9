//! Fixed-point scalars.
//!
//! Every quantity of the simulation (a coordinate, a speed, a duration, a
//! coefficient) is an `i64` that counts thousandths of its unit: `1500` is one
//! and a half pixels, seconds or pixels per second. Sums and differences are
//! exact. A product of two such quantities is divided by [`SCALE`] again and
//! rounded toward zero, and so is every other division in this crate.

use vstd::prelude::*;

verus! {

/// Number of stored units that make up one whole unit.
pub const SCALE: i64 = 1000;

/// Largest magnitude of a quantity that the simulation multiplies: a speed,
/// an extent, a duration, an acceleration, a coefficient.
pub const LIMIT: i64 = 10_000_000_000;

/// Largest magnitude of a coordinate of a position. Positions are only added
/// to and compared, so they may range further than [`LIMIT`].
///
/// With every input inside these two limits, no sum, difference or scaled
/// product that the crate computes leaves the range of `i64`.
pub const POSITION_LIMIT: i64 = 1_000_000_000_000_000_000;

/// Largest magnitude of the scaled product of two quantities within [`LIMIT`].
pub const PRODUCT_LIMIT: i64 = 100_000_000_000_000_000;

/// Whether `v` is within [`LIMIT`].
pub open spec fn in_limit(v: int) -> bool {
    -LIMIT <= v <= LIMIT
}

/// Whether `v` is within [`POSITION_LIMIT`].
pub open spec fn in_position_limit(v: int) -> bool {
    -POSITION_LIMIT <= v <= POSITION_LIMIT
}

/// Quotient of `a` by a positive `d`, rounded toward zero.
pub open spec fn div_toward_zero(a: int, d: int) -> int
    recommends
        d > 0,
{
    if a >= 0 {
        a / d
    } else {
        -((-a) / d)
    }
}

/// Product of two fixed-point quantities, as a fixed-point quantity.
pub open spec fn mul_scaled(a: int, b: int) -> int {
    div_toward_zero(a * b, SCALE as int)
}

/// Half of a fixed-point quantity.
pub open spec fn half(a: int) -> int {
    div_toward_zero(a, 2)
}

/// The fixed-point quantity that stands for the whole number `n`.
pub open spec fn whole(n: int) -> int {
    n * SCALE
}

/// The number nearest to `v` that an `i32` can hold.
pub open spec fn saturated_i32(v: int) -> int {
    if v < i32::MIN {
        i32::MIN as int
    } else if v > i32::MAX {
        i32::MAX as int
    } else {
        v
    }
}

/// Whether `r` is the square root of `n`, rounded down.
pub open spec fn is_floor_sqrt(n: int, r: int) -> bool {
    0 <= r && r * r <= n < (r + 1) * (r + 1)
}

/// Square root of a non-negative `n`, rounded down.
pub open spec fn floor_sqrt(n: int) -> int
    recommends
        n >= 0,
{
    choose|r: int| is_floor_sqrt(n, r)
}

/// A scaled product with a zero factor is zero.
pub proof fn lemma_mul_scaled_zero(a: int)
    ensures
        mul_scaled(a, 0) == 0,
        mul_scaled(0, a) == 0,
{
    assert(a * 0 == 0) by (nonlinear_arith);
    assert(0 * a == 0) by (nonlinear_arith);
}

/// Multiplying by one whole unit changes nothing.
pub proof fn lemma_mul_scaled_one(a: int)
    ensures
        mul_scaled(a, SCALE as int) == a,
        mul_scaled(SCALE as int, a) == a,
{
    assert(a * 1000 == 1000 * a) by (nonlinear_arith);
    if a >= 0 {
        assert((a * 1000) / 1000 == a);
    } else {
        assert(-(a * 1000) == (-a) * 1000);
        assert(((-a) * 1000) / 1000 == -a);
    }
}

/// Negating one factor negates the scaled product: rounding is symmetric.
pub proof fn lemma_mul_scaled_neg(a: int, b: int)
    ensures
        mul_scaled(-a, b) == -mul_scaled(a, b),
        mul_scaled(a, -b) == -mul_scaled(a, b),
{
    assert((-a) * b == -(a * b)) by (nonlinear_arith);
    assert(a * (-b) == -(a * b)) by (nonlinear_arith);
}

/// The scaled product has the sign of the exact product.
pub proof fn lemma_mul_scaled_sign(a: int, b: int)
    ensures
        (a >= 0 && b >= 0) || (a <= 0 && b <= 0) ==> mul_scaled(a, b) >= 0,
        (a >= 0 && b <= 0) || (a <= 0 && b >= 0) ==> mul_scaled(a, b) <= 0,
{
    assert((a >= 0 && b >= 0) || (a <= 0 && b <= 0) ==> a * b >= 0) by (nonlinear_arith);
    assert((a >= 0 && b <= 0) || (a <= 0 && b >= 0) ==> a * b <= 0) by (nonlinear_arith);
}

/// The scaled product of two quantities within [`LIMIT`] stays within
/// [`PRODUCT_LIMIT`].
pub proof fn lemma_mul_scaled_bound(a: int, b: int)
    requires
        in_limit(a),
        in_limit(b),
    ensures
        -PRODUCT_LIMIT <= mul_scaled(a, b) <= PRODUCT_LIMIT,
{
    lemma_product_bound(a, b);
}

/// The exact product of two quantities within [`LIMIT`] is at most
/// `LIMIT * LIMIT`.
proof fn lemma_product_bound(a: int, b: int)
    requires
        in_limit(a),
        in_limit(b),
    ensures
        -100_000_000_000_000_000_000 <= a * b <= 100_000_000_000_000_000_000,
{
    assert(-100_000_000_000_000_000_000 <= a * b <= 100_000_000_000_000_000_000)
        by (nonlinear_arith)
        requires
            -10_000_000_000 <= a <= 10_000_000_000,
            -10_000_000_000 <= b <= 10_000_000_000,
    ;
}

/// At most one number is the rounded-down square root of `n`.
pub proof fn lemma_floor_sqrt_unique(n: int, r1: int, r2: int)
    requires
        is_floor_sqrt(n, r1),
        is_floor_sqrt(n, r2),
    ensures
        r1 == r2,
{
    if r1 < r2 {
        assert((r1 + 1) * (r1 + 1) <= r2 * r2) by (nonlinear_arith)
            requires
                0 <= r1,
                r1 + 1 <= r2,
        ;
    }
    if r2 < r1 {
        assert((r2 + 1) * (r2 + 1) <= r1 * r1) by (nonlinear_arith)
            requires
                0 <= r2,
                r2 + 1 <= r1,
        ;
    }
}

/// A number that passes the test for the rounded-down square root is it.
pub proof fn lemma_floor_sqrt_is(n: int, r: int)
    requires
        is_floor_sqrt(n, r),
    ensures
        floor_sqrt(n) == r,
{
    lemma_floor_sqrt_unique(n, r, floor_sqrt(n));
}

/// The fixed-point quantity that stands for the whole number `n`.
pub fn from_int(n: i32) -> (r: i64)
    ensures
        r == whole(n as int),
{
    (n as i64) * SCALE
}

/// The number nearest to `v` that an `i32` can hold.
pub fn saturate_i32(v: i64) -> (r: i32)
    ensures
        r == saturated_i32(v as int),
{
    if v < i32::MIN as i64 {
        i32::MIN
    } else if v > i32::MAX as i64 {
        i32::MAX
    } else {
        v as i32
    }
}

/// Quotient of `a` by two, rounded toward zero.
pub fn halve(a: i64) -> (r: i64)
    ensures
        r == half(a as int),
{
    a / 2
}

/// Product of two fixed-point quantities, rounded toward zero.
pub fn scale_mul(a: i64, b: i64) -> (r: i64)
    requires
        in_limit(a as int),
        in_limit(b as int),
    ensures
        r == mul_scaled(a as int, b as int),
        -PRODUCT_LIMIT <= r <= PRODUCT_LIMIT,
{
    proof {
        lemma_product_bound(a as int, b as int);
        lemma_mul_scaled_bound(a as int, b as int);
    }
    let wide: i128 = (a as i128) * (b as i128);
    let quotient: i128 = wide / (SCALE as i128);
    quotient as i64
}

/// Square root of `n`, rounded down.
pub fn isqrt(n: u128) -> (r: u64)
    requires
        n < 0x4000_0000_0000_0000_0000_0000_0000_0000,
    ensures
        is_floor_sqrt(n as int, r as int),
        r == floor_sqrt(n as int),
{
    let mut low: u64 = 0;
    let mut high: u64 = 0x8000_0000_0000_0000;
    assert(0x8000_0000_0000_0000int * 0x8000_0000_0000_0000int
        == 0x4000_0000_0000_0000_0000_0000_0000_0000int) by (nonlinear_arith);
    while high - low > 1
        invariant
            low < high <= 0x8000_0000_0000_0000,
            low * low <= n < high * high,
        decreases high - low,
    {
        let mid: u64 = low + (high - low) / 2;
        assert(mid * mid < 0x4000_0000_0000_0000_0000_0000_0000_0000) by (nonlinear_arith)
            requires
                0 <= mid < 0x8000_0000_0000_0000,
        ;
        let square: u128 = (mid as u128) * (mid as u128);
        if square <= n {
            low = mid;
        } else {
            high = mid;
        }
    }
    proof {
        lemma_floor_sqrt_is(n as int, low as int);
    }
    low
}

} // verus!
