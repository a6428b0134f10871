//! Fixed-point arithmetic in millionths, rounding toward zero and saturating
//! at the limits of `i64`.

use vstd::prelude::*;

verus! {

/// The fixed-point representation of the number one: every fractional
/// quantity of this crate is an integer count of millionths.
pub const UNIT: i64 = 1_000_000;

/// Integer division that rounds toward zero, so that negating the dividend
/// negates the quotient.
pub open spec fn trunc_div(a: int, b: int) -> int
    recommends
        b > 0,
{
    if a >= 0 {
        a / b
    } else {
        -((-a) / b)
    }
}

/// The value of `i64` that lies nearest to `v`.
pub open spec fn saturate(v: int) -> int {
    if v < i64::MIN {
        i64::MIN as int
    } else if v > i64::MAX {
        i64::MAX as int
    } else {
        v
    }
}

/// Narrows a wide intermediate result to `i64`, saturating at either end.
pub fn saturate_to_i64(v: i128) -> (r: i64)
    ensures
        r == saturate(v as int),
{
    if v < i64::MIN as i128 {
        i64::MIN
    } else if v > i64::MAX as i128 {
        i64::MAX
    } else {
        v as i64
    }
}

/// Divides by a positive divisor, rounding toward zero.
pub fn div_toward_zero(a: i128, b: i128) -> (q: i128)
    requires
        b > 0,
    ensures
        q == trunc_div(a as int, b as int),
{
    a / b
}

/// A product is bounded by the product of the bounds of its factors.
pub proof fn lemma_product_bound(a: int, b: int, ma: int, mb: int)
    by (nonlinear_arith)
    requires
        -ma <= a <= ma,
        -mb <= b <= mb,
    ensures
        -(ma * mb) <= a * b <= ma * mb,
{
}

/// Rounding toward zero never takes a quotient outside the bounds of its
/// dividend.
pub proof fn lemma_trunc_div_bound(a: int, b: int, m: int)
    by (nonlinear_arith)
    requires
        b >= 1,
        -m <= a <= m,
    ensures
        -m <= trunc_div(a, b) <= m,
{
}

} // verus!
