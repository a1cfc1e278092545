//! The wheel itself: how its angle follows the stick from one report to the
//! next, and how that angle is turned into a value of the output axis.

use vstd::prelude::*;
use vstd::math::abs;
use crate::angle::{cyclic_distance, cyclic_signed_distance};
use crate::fixed::{clamp, lerp, lerp_spec, trunc_div, ONE};
use crate::frame::{ProcessedFrame, State};

verus! {

/// How far the wheel turns to either side of its centre: three full turns.
pub const STEERING_STOP: i64 = 18_849_558;

/// The share of its angle, in parts per million, that a released wheel loses
/// per second: a quarter turn's worth of radians.
pub const EASING_RATE: u64 = 1_570_796;

/// The largest share of its angle, in parts per million, that a released wheel
/// loses in one step, however long the step took.
pub const EASING_LIMIT: u64 = 200_000;

/// Half the range of the output axis, and the value of the axis at the centre
/// of the wheel.
pub const HALF_RANGE: i32 = 32_767;

/// The blend factor, in parts per million, of an easing step that took `d_t`
/// microseconds.
pub open spec fn easing_blend(d_t: int) -> int {
    clamp(d_t * EASING_RATE / (ONE as int), 0, EASING_LIMIT as int)
}

/// The angle of a released wheel after a step of `d_t` microseconds.
pub open spec fn eased(wheel: int, d_t: int) -> int {
    lerp_spec(wheel, 0, easing_blend(d_t))
}

/// The hand held the wheel at both frames, so the step from `prev` to `cur`
/// turns the wheel.
pub open spec fn integrates(cur: ProcessedFrame, prev: ProcessedFrame) -> bool {
    &&& cur.analog_angle is Some
    &&& prev.inner.state == State::Gripped
    &&& cur.inner.state == State::Gripped
}

/// The rotation of the stick from `prev` to `cur`; zero where either frame
/// has no angle.
pub open spec fn angular_delta(cur: ProcessedFrame, prev: ProcessedFrame) -> int {
    match (cur.analog_angle, prev.analog_angle) {
        (Some(a), Some(p)) => cyclic_distance(a as int, p as int),
        _ => 0,
    }
}

/// The angle of the wheel after the step from `prev` to `cur`, which took
/// `d_t` microseconds: turned with the stick while the hand holds it, eased
/// toward the centre otherwise, and kept within the stops either way.
pub open spec fn wheel_step(
    wheel: int,
    cur: ProcessedFrame,
    prev: ProcessedFrame,
    d_t: int,
) -> int {
    let next = if integrates(cur, prev) {
        wheel + angular_delta(cur, prev)
    } else {
        eased(wheel, d_t)
    };
    clamp(next, -STEERING_STOP as int, STEERING_STOP as int)
}

/// The value of the output axis for a wheel at `angle`: the stops map to the
/// ends of the range, the centre to its middle, and what falls between two
/// values goes to the one nearer the middle.
pub open spec fn quantized(angle: int) -> int {
    HALF_RANGE + trunc_div(HALF_RANGE * angle, STEERING_STOP as int)
}

/// The angle of a released wheel after `n` steps of `d_t` microseconds each.
pub open spec fn eased_times(wheel: int, d_t: int, n: nat) -> int
    decreases n,
{
    if n == 0 {
        wheel
    } else {
        eased(eased_times(wheel, d_t, (n - 1) as nat), d_t)
    }
}

/// One step of a run of reports: the frame analyzed at the report, and the
/// microseconds that passed before it.
pub struct Step {
    pub frame: ProcessedFrame,
    pub d_t: u64,
}

/// The frame that precedes the report after `steps`, where `prev` preceded
/// the first.
pub open spec fn frame_before(prev: ProcessedFrame, steps: Seq<Step>) -> ProcessedFrame {
    if steps.len() == 0 {
        prev
    } else {
        steps.last().frame
    }
}

/// The angle of a wheel that started at `wheel`, with `prev` as the frame
/// before the first report, after the reports in `steps`.
pub open spec fn wheel_run(wheel: int, prev: ProcessedFrame, steps: Seq<Step>) -> int
    decreases steps.len(),
{
    if steps.len() == 0 {
        wheel
    } else {
        let before = steps.drop_last();
        wheel_step(
            wheel_run(wheel, prev, before),
            steps.last().frame,
            frame_before(prev, before),
            steps.last().d_t as int,
        )
    }
}

/// A step leaves the wheel within its stops, wherever it started.
pub proof fn lemma_wheel_step_within_stops(
    wheel: int,
    cur: ProcessedFrame,
    prev: ProcessedFrame,
    d_t: int,
)
    ensures
        -STEERING_STOP <= wheel_step(wheel, cur, prev, d_t) <= STEERING_STOP,
{
}

/// After every report of a run the wheel is within its stops, whatever the
/// frames were and wherever the wheel started.
pub proof fn lemma_wheel_run_within_stops(
    wheel: int,
    prev: ProcessedFrame,
    steps: Seq<Step>,
    n: int,
)
    requires
        1 <= n <= steps.len(),
    ensures
        -STEERING_STOP <= wheel_run(wheel, prev, steps.take(n)) <= STEERING_STOP,
{
}

/// A share of `wheel` that leaves out `t` parts per million is smaller than
/// `wheel` and has its sign.
proof fn lemma_share_shrinks(wheel: int, t: int)
    by (nonlinear_arith)
    requires
        0 <= t <= ONE,
    ensures
        wheel >= 0 ==> 0 <= (ONE - t) * wheel + t * 0 <= ONE * wheel,
        wheel <= 0 ==> ONE * wheel <= (ONE - t) * wheel + t * 0 <= 0,
        wheel > 0 && t > 0 ==> (ONE - t) * wheel + t * 0 <= ONE * wheel - wheel,
        wheel < 0 && t > 0 ==> (ONE - t) * wheel + t * 0 >= ONE * wheel - wheel,
{
}

/// Easing moves the wheel toward its centre and never past it: the angle
/// keeps its sign and does not grow, and it shrinks wherever the wheel is off
/// centre and the step took long enough for a blend factor above zero.
pub proof fn lemma_easing_toward_centre(wheel: int, d_t: int)
    ensures
        wheel >= 0 ==> 0 <= eased(wheel, d_t) <= wheel,
        wheel <= 0 ==> wheel <= eased(wheel, d_t) <= 0,
        wheel != 0 && easing_blend(d_t) > 0 ==> abs(eased(wheel, d_t)) < abs(
            wheel,
        ),
{
    lemma_share_shrinks(wheel, easing_blend(d_t));
}

/// A step of at least one microsecond has a blend factor above zero.
pub proof fn lemma_easing_blend_positive(d_t: int)
    requires
        d_t >= 1,
    ensures
        0 < easing_blend(d_t) <= EASING_LIMIT,
{
}

/// Repeated easing with steps of one length brings the wheel to its centre:
/// each step takes at least one microradian off the angle until none is left,
/// and the angle never changes sign on the way.
pub proof fn lemma_easing_converges(wheel: int, d_t: int, n: nat)
    requires
        easing_blend(d_t) > 0,
    ensures
        abs(eased_times(wheel, d_t, n)) <= abs(wheel),
        abs(eased_times(wheel, d_t, n)) <= abs(wheel) - n || eased_times(
            wheel,
            d_t,
            n,
        ) == 0,
        wheel >= 0 ==> eased_times(wheel, d_t, n) >= 0,
        wheel <= 0 ==> eased_times(wheel, d_t, n) <= 0,
        n >= abs(wheel) ==> eased_times(wheel, d_t, n) == 0,
    decreases n,
{
    if n > 0 {
        lemma_easing_converges(wheel, d_t, (n - 1) as nat);
        lemma_easing_toward_centre(eased_times(wheel, d_t, (n - 1) as nat), d_t);
    }
}

/// Unless the hand held the wheel at both frames, a wheel within its stops is
/// eased, whatever the angles of the frames.
pub proof fn lemma_released_wheel_eases(
    wheel: int,
    cur: ProcessedFrame,
    prev: ProcessedFrame,
    d_t: int,
)
    requires
        -STEERING_STOP <= wheel <= STEERING_STOP,
        !integrates(cur, prev),
    ensures
        wheel_step(wheel, cur, prev, d_t) == eased(wheel, d_t),
{
    lemma_easing_toward_centre(wheel, d_t);
}

/// While the hand holds the wheel, the wheel turns by the rotation of the
/// stick between the two frames, as far as the stops allow; the time that
/// passed plays no part.
pub proof fn lemma_gripped_wheel_follows(
    wheel: int,
    cur: ProcessedFrame,
    prev: ProcessedFrame,
    d_t: int,
)
    requires
        integrates(cur, prev),
    ensures
        wheel_step(wheel, cur, prev, d_t) == clamp(
            wheel + angular_delta(cur, prev),
            -STEERING_STOP as int,
            STEERING_STOP as int,
        ),
{
}

/// A stick held at one angle does not turn the wheel: the wheel follows the
/// change of the angle, not the angle.
pub proof fn lemma_held_stick_leaves_wheel(
    wheel: int,
    cur: ProcessedFrame,
    prev: ProcessedFrame,
    d_t: int,
)
    requires
        -STEERING_STOP <= wheel <= STEERING_STOP,
        integrates(cur, prev),
        cur.analog_angle == prev.analog_angle,
    ensures
        wheel_step(wheel, cur, prev, d_t) == wheel,
{
}

/// A wheel turned further is never given a smaller value of the axis.
pub proof fn lemma_quantized_monotonic(first: int, second: int)
    requires
        first <= second,
    ensures
        quantized(first) <= quantized(second),
{
}

/// The centre of the wheel is the middle of the axis, and the stops are its
/// ends.
pub proof fn lemma_quantized_centre()
    ensures
        quantized(0) == HALF_RANGE,
        quantized(-STEERING_STOP as int) == 0,
        quantized(STEERING_STOP as int) == 2 * HALF_RANGE,
{
}

/// Every angle between the stops has a value within the range of the axis.
pub proof fn lemma_quantized_range(angle: int)
    requires
        -STEERING_STOP <= angle <= STEERING_STOP,
    ensures
        0 <= quantized(angle) <= 2 * HALF_RANGE,
{
}

/// The blend factor of an easing step that took `d_t` microseconds.
pub fn easing_factor(d_t: u64) -> (t: u64)
    ensures
        t == easing_blend(d_t as int),
        t <= EASING_LIMIT,
{
    let gained: u128 = (d_t as u128) * (EASING_RATE as u128) / (ONE as u128);
    if gained > EASING_LIMIT as u128 {
        EASING_LIMIT
    } else {
        gained as u64
    }
}

/// The next angle of the wheel, from its current angle, the frame just
/// analyzed, the one before it, and the microseconds that passed since the
/// last report.
pub fn wheel_behaviour(
    cur_wheel_angle: i64,
    cur: &ProcessedFrame,
    prev: &ProcessedFrame,
    d_t: u64,
) -> (r: i64)
    ensures
        r == wheel_step(cur_wheel_angle as int, *cur, *prev, d_t as int),
        -STEERING_STOP <= r <= STEERING_STOP,
{
    let gripped = prev.inner.state == State::Gripped && cur.inner.state == State::Gripped;
    let next: i128 = match cur.analog_angle {
        Some(aangle) if gripped => {
            let da: i64 = match prev.analog_angle {
                Some(p_aangle) => cyclic_signed_distance(aangle, p_aangle),
                None => 0,
            };
            da as i128 + cur_wheel_angle as i128
        },
        _ => lerp(cur_wheel_angle, 0, easing_factor(d_t)) as i128,
    };
    if next < -(STEERING_STOP as i128) {
        -STEERING_STOP
    } else if next > STEERING_STOP as i128 {
        STEERING_STOP
    } else {
        next as i64
    }
}

/// The value of the output axis for a wheel at `angle`.
pub fn quantize_wheel_angle(angle: i64) -> (r: i32)
    requires
        -STEERING_STOP <= angle <= STEERING_STOP,
    ensures
        r == quantized(angle as int),
        0 <= r <= 2 * HALF_RANGE,
{
    let scaled: i64 = (HALF_RANGE as i64) * angle;
    assert(scaled == 32_767 * angle);
    HALF_RANGE + (scaled / STEERING_STOP) as i32
}

} // verus!
