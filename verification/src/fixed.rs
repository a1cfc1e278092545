//! Fixed-point arithmetic shared by the rest of the crate.

use vstd::prelude::*;

verus! {

/// The value one on the parts-per-million scale of blend factors and
/// magnitudes.
pub const ONE: u64 = 1_000_000;

/// The quotient of `n` by a positive `d`, rounded toward zero.
pub open spec fn trunc_div(n: int, d: int) -> int {
    if n >= 0 {
        n / d
    } else {
        -((-n) / d)
    }
}

/// `v` limited to the interval from `lo` to `hi`.
pub open spec fn clamp(v: int, lo: int, hi: int) -> int {
    if v < lo {
        lo
    } else if v > hi {
        hi
    } else {
        v
    }
}

/// The point a fraction `t` of the way from `from` to `to`, with `t` in parts
/// per million and limited to the interval from zero to one. A result that is
/// not whole is rounded toward zero.
pub open spec fn lerp_spec(from: int, to: int, t: int) -> int {
    let t = clamp(t, 0, ONE as int);
    trunc_div((ONE - t) * from + t * to, ONE as int)
}

/// A weighted mean of two values lies between them.
pub proof fn lemma_weighted_mean_bounds(from: int, to: int, t: int, lo: int, hi: int)
    by (nonlinear_arith)
    requires
        0 <= t <= ONE,
        lo <= from <= hi,
        lo <= to <= hi,
    ensures
        ONE * lo <= (ONE - t) * from + t * to <= ONE * hi,
{
}

/// Interpolation never leaves the interval spanned by its two ends.
pub proof fn lemma_lerp_between(from: int, to: int, t: int)
    ensures
        from <= to ==> from <= lerp_spec(from, to, t) <= to,
        to <= from ==> to <= lerp_spec(from, to, t) <= from,
{
    let tc = clamp(t, 0, ONE as int);
    if from <= to {
        lemma_weighted_mean_bounds(from, to, tc, from, to);
    } else {
        lemma_weighted_mean_bounds(from, to, tc, to, from);
    }
}

/// Interpolation reaches `from` at zero and `to` at one.
pub proof fn lemma_lerp_ends(from: int, to: int)
    ensures
        lerp_spec(from, to, 0) == from,
        lerp_spec(from, to, ONE as int) == to,
{
    assert((ONE - 0) * from + 0 * to == 1_000_000 * from) by (nonlinear_arith);
    assert((ONE - ONE) * from + ONE * to == 1_000_000 * to) by (nonlinear_arith);
}

/// A share of `w` parts of a 64-bit number is at most `w` times as large as
/// such a number can be.
proof fn lemma_share_bounds(w: int, v: int)
    by (nonlinear_arith)
    requires
        0 <= w <= ONE,
        i64::MIN <= v <= i64::MAX,
    ensures
        w * i64::MIN <= w * v <= w * i64::MAX,
{
}

/// Linear interpolation from `from` to `to` by `t` parts per million; a `t`
/// beyond one counts as one.
pub fn lerp(from: i64, to: i64, t: u64) -> (r: i64)
    ensures
        r == lerp_spec(from as int, to as int, t as int),
{
    let t: u64 = if t > ONE { ONE } else { t };
    let w: i128 = t as i128;
    proof {
        lemma_share_bounds(ONE - w, from as int);
        lemma_share_bounds(w as int, to as int);
    }
    let sum: i128 = (ONE as i128 - w) * (from as i128) + w * (to as i128);
    let q: i128 = sum / (ONE as i128);
    q as i64
}

/// Squaring keeps the order of whole numbers that are not negative.
pub proof fn lemma_square_monotonic(a: int, b: int)
    by (nonlinear_arith)
    requires
        0 <= a <= b,
    ensures
        a * a <= b * b,
{
}

/// `r` is the square root of `n`, rounded down.
pub open spec fn is_floor_sqrt(r: nat, n: nat) -> bool {
    r * r <= n < (r + 1) * (r + 1)
}

/// The square root of `n`, rounded down.
pub open spec fn floor_sqrt(n: nat) -> nat {
    choose|r: nat| is_floor_sqrt(r, n)
}

/// Zero is the square root of zero.
pub proof fn lemma_floor_sqrt_of_zero()
    ensures
        is_floor_sqrt(0, 0),
{
    assert(0nat * 0nat == 0 && (0nat + 1) * (0nat + 1) == 1) by (nonlinear_arith);
}

/// Every number has a square root rounded down.
pub proof fn lemma_floor_sqrt(n: nat)
    ensures
        is_floor_sqrt(floor_sqrt(n), n),
    decreases n,
{
    if n == 0 {
        lemma_floor_sqrt_of_zero();
    } else {
        lemma_floor_sqrt((n - 1) as nat);
        let r = floor_sqrt((n - 1) as nat);
        if (r + 1) * (r + 1) <= n {
            assert((r + 1) * (r + 1) < (r + 2) * (r + 2)) by (nonlinear_arith);
            assert(is_floor_sqrt(r + 1, n));
        } else {
            assert(is_floor_sqrt(r, n));
        }
    }
}

/// A number has only one square root rounded down.
pub proof fn lemma_floor_sqrt_unique(r: nat, n: nat)
    requires
        is_floor_sqrt(r, n),
    ensures
        r == floor_sqrt(n),
{
    let s = floor_sqrt(n);
    if r < s {
        lemma_square_monotonic((r + 1) as int, s as int);
    } else if s < r {
        lemma_square_monotonic((s + 1) as int, r as int);
    }
}

/// The square root of `n`, rounded down.
pub fn isqrt(n: u128) -> (r: u64)
    ensures
        r == floor_sqrt(n as nat),
{
    let mut lo: u128 = 0;
    let mut hi: u128 = 0x1_0000_0000_0000_0000;
    while hi - lo > 1
        invariant
            lo < hi <= 0x1_0000_0000_0000_0000,
            lo * lo <= n < hi * hi,
        decreases hi - lo,
    {
        let mid: u128 = lo + (hi - lo) / 2;
        proof {
            lemma_square_monotonic(mid as int, 0xffff_ffff_ffff_ffff);
        }
        if mid * mid <= n {
            lo = mid;
        } else {
            hi = mid;
        }
    }
    proof {
        lemma_floor_sqrt_unique(lo as nat, n as nat);
    }
    lo as u64
}

} // verus!
