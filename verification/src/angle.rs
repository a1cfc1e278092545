//! Angles, in microradians, and the distance between two of them round the
//! circle.

use vstd::prelude::*;

verus! {

/// Half a turn.
pub const PI: i64 = 3_141_593;

/// A full turn: twice `PI`, so that reducing an angle by whole turns is exact.
pub const TAU: i64 = 6_283_186;

/// The signed rotation that carries angle `b` to angle `a` by the shorter way
/// round: the one value in `[-PI, PI)` that differs from `a - b` by whole
/// turns.
pub open spec fn cyclic_distance(a: int, b: int) -> int {
    (a - b + PI) % (TAU as int) - PI
}

/// The distance stays within half a turn, the lower end included.
pub proof fn lemma_cyclic_distance_range(a: int, b: int)
    ensures
        -PI <= cyclic_distance(a, b) < PI,
{
}

/// The distance differs from the plain difference by whole turns.
pub proof fn lemma_cyclic_distance_congruent(a: int, b: int)
    ensures
        (a - b - cyclic_distance(a, b)) % (TAU as int) == 0,
{
}

/// Only one value within half a turn differs from `a - b` by whole turns.
pub proof fn lemma_cyclic_distance_unique(a: int, b: int, r: int)
    requires
        -PI <= r < PI,
        (a - b - r) % (TAU as int) == 0,
    ensures
        r == cyclic_distance(a, b),
{
}

/// Going the other way round negates the distance, unless the two angles are
/// exactly half a turn apart.
pub proof fn lemma_cyclic_distance_antisymmetric(a: int, b: int)
    requires
        cyclic_distance(a, b) != -PI,
    ensures
        cyclic_distance(b, a) == -cyclic_distance(a, b),
{
}

/// Two angles exactly half a turn apart are at distance `-PI` either way
/// round.
pub proof fn lemma_cyclic_distance_half_turn(a: int, b: int)
    requires
        cyclic_distance(a, b) == -PI,
    ensures
        cyclic_distance(b, a) == -PI,
{
}

/// A difference that already lies within half a turn is its own distance.
pub proof fn lemma_cyclic_distance_direct(a: int, b: int)
    requires
        -PI <= a - b < PI,
    ensures
        cyclic_distance(a, b) == a - b,
{
}

/// Whole turns added to either angle leave the distance unchanged.
pub proof fn lemma_cyclic_distance_turns(a: int, b: int, j: int, k: int)
    ensures
        cyclic_distance(a + j * TAU, b + k * TAU) == cyclic_distance(a, b),
{
    let r = cyclic_distance(a, b);
    let n = (a - b - r) / (TAU as int);
    assert((a + j * TAU) - (b + k * TAU) - r == (n + j - k) * TAU) by (nonlinear_arith)
        requires
            a - b - r == n * TAU,
    ;
    assert(((n + j - k) * TAU) % (TAU as int) == 0) by (nonlinear_arith);
    lemma_cyclic_distance_unique(a + j * TAU, b + k * TAU, r);
}

/// The shortest signed rotation from `b` to `a`, for any two angles. Where the
/// two are exactly half a turn apart, the rotation is `-PI`.
pub fn cyclic_signed_distance(a: i64, b: i64) -> (r: i64)
    ensures
        r == cyclic_distance(a as int, b as int),
        -PI <= r < PI,
        (a - b - r) % (TAU as int) == 0,
{
    let shifted: i128 = a as i128 - b as i128 + PI as i128;
    let rem: i128 = shifted % (TAU as i128);
    let turned: i128 = if rem < 0 { rem + TAU as i128 } else { rem };
    (turned - PI as i128) as i64
}

} // verus!
