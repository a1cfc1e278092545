//! One sample of the stick: how far it is deflected, and whether the hand
//! grips the wheel.
//!
//! The polar angle of a sample is a trigonometric quantity; it is measured
//! by the caller and handed in, in microradians.

use vstd::prelude::*;
use vstd::string::StringExecFns;
use crate::angle::PI;
use crate::text::{
    millionths, millionths_string, padded, push_padded, signed_decimal, signed_decimal_string,
};
use crate::fixed::{
    floor_sqrt, isqrt, lemma_floor_sqrt, lemma_floor_sqrt_of_zero, lemma_floor_sqrt_unique,
    lemma_square_monotonic, trunc_div, ONE,
};

verus! {

/// Full deflection along one axis.
pub const MAX_MAGNITUDE: u64 = 32767;

/// The deflection, in parts per million of `MAX_MAGNITUDE`, above which the
/// stick counts as gripped.
pub const GRIP_THRESHOLD: u64 = 920_000;

/// What the hand does with the wheel.
#[derive(Clone, Copy, PartialEq, Eq, Debug, Hash, Structural)]
pub enum State {
    /// The stick is near its centre; the wheel runs back on its own.
    Freewheel,
    /// The stick is deflected far enough to turn the wheel.
    Gripped,
}

/// A raw sample of the two axes, with the state it was last found in.
#[derive(Clone, Copy, PartialEq, Eq, Debug, Hash, Structural)]
pub struct Frame {
    pub x: i32,
    pub y: i32,
    pub state: State,
}

/// The square of the length of the vector `(x, y)`.
pub open spec fn squared_length(x: int, y: int) -> int {
    x * x + y * y
}

/// The length of `(x, y)` in parts per million of `MAX_MAGNITUDE`, rounded
/// down.
pub open spec fn magnitude(x: int, y: int) -> nat {
    floor_sqrt((squared_length(x, y) * (ONE * ONE)) as nat) / (MAX_MAGNITUDE as nat)
}

/// The length of `(x, y)` exceeds `GRIP_THRESHOLD`. The comparison is made on
/// squares, so it is exact.
pub open spec fn is_gripped(x: int, y: int) -> bool {
    squared_length(x, y) * (ONE * ONE) > (GRIP_THRESHOLD * MAX_MAGNITUDE) * (GRIP_THRESHOLD
        * MAX_MAGNITUDE)
}

/// The state that a sample at `(x, y)` is in.
pub open spec fn grip_state(x: int, y: int) -> State {
    if is_gripped(x, y) {
        State::Gripped
    } else {
        State::Freewheel
    }
}

/// The angle recorded for a sample at `(x, y)` whose polar angle was measured
/// as `polar_angle`: the measurement itself, but zero at the origin, where
/// the stick points nowhere.
pub open spec fn frame_angle(x: int, y: int, polar_angle: i64) -> i64 {
    if x == 0 && y == 0 {
        0
    } else {
        polar_angle
    }
}

/// The square of a length, in the units of `magnitude`, is not negative.
proof fn lemma_scaled_square(x: int, y: int)
    by (nonlinear_arith)
    ensures
        squared_length(x, y) * (ONE * ONE) >= 0,
        squared_length(x, y) * (ONE * ONE) == (x * x + y * y) * 1_000_000_000_000,
{
}

/// The true length of `(x, y)`, a real number, is at least `m` and less than
/// `m + 1` parts per million of `MAX_MAGNITUDE`; both comparisons are stated
/// on squares.
pub open spec fn brackets_length(m: nat, x: int, y: int) -> bool {
    &&& (m * MAX_MAGNITUDE) * (m * MAX_MAGNITUDE) <= squared_length(x, y) * (ONE * ONE)
    &&& squared_length(x, y) * (ONE * ONE) < ((m + 1) * MAX_MAGNITUDE) * ((m + 1) * MAX_MAGNITUDE)
}

/// The magnitude brackets the true length.
pub proof fn lemma_magnitude_brackets_length(x: int, y: int)
    ensures
        brackets_length(magnitude(x, y), x, y),
{
    lemma_scaled_square(x, y);
    let scaled = squared_length(x, y) * (ONE * ONE);
    let root = floor_sqrt(scaled as nat) as int;
    let found = magnitude(x, y) as int;
    lemma_floor_sqrt(scaled as nat);
    lemma_square_monotonic(found * MAX_MAGNITUDE, root);
    lemma_square_monotonic(root + 1, (found + 1) * MAX_MAGNITUDE);
}

/// Only the magnitude brackets the true length.
pub proof fn lemma_magnitude_unique(m: nat, x: int, y: int)
    requires
        brackets_length(m, x, y),
    ensures
        m == magnitude(x, y),
{
    let found = magnitude(x, y);
    lemma_magnitude_brackets_length(x, y);
    if m < found {
        lemma_square_monotonic((m + 1) * MAX_MAGNITUDE, found * MAX_MAGNITUDE);
    } else if found < m {
        lemma_square_monotonic((found + 1) * MAX_MAGNITUDE, m * MAX_MAGNITUDE);
    }
}

/// The magnitude agrees with the state: a gripped sample measures at least
/// the threshold, and one that measures more than the threshold is gripped.
pub proof fn lemma_magnitude_agrees_with_state(x: int, y: int)
    ensures
        is_gripped(x, y) ==> magnitude(x, y) >= GRIP_THRESHOLD,
        magnitude(x, y) > GRIP_THRESHOLD ==> is_gripped(x, y),
{
    let m = magnitude(x, y) as int;
    lemma_magnitude_brackets_length(x, y);
    if m < GRIP_THRESHOLD {
        lemma_square_monotonic((m + 1) * MAX_MAGNITUDE, GRIP_THRESHOLD * MAX_MAGNITUDE);
    }
    if m > GRIP_THRESHOLD {
        lemma_square_monotonic(GRIP_THRESHOLD * MAX_MAGNITUDE + 1, m * MAX_MAGNITUDE);
    }
}

/// The origin has magnitude zero and is not gripped.
pub proof fn lemma_origin_is_free()
    ensures
        magnitude(0, 0) == 0,
        grip_state(0, 0) == State::Freewheel,
{
    lemma_floor_sqrt_of_zero();
    lemma_floor_sqrt_unique(0, 0);
}

/// What the analysis of `frame` finds, given its measured polar angle.
pub open spec fn analysis(frame: Frame, polar_angle: i64) -> ProcessedFrame {
    ProcessedFrame {
        inner: Frame {
            x: frame.x,
            y: frame.y,
            state: grip_state(frame.x as int, frame.y as int),
        },
        analog_angle: Some(frame_angle(frame.x as int, frame.y as int, polar_angle)),
        analog_magnitude: magnitude(frame.x as int, frame.y as int) as u64,
    }
}

impl Frame {
    /// The angle, the magnitude and the state of this sample, given its
    /// measured polar angle. The state stored in the frame is not read.
    pub fn analyze(&self, polar_angle: i64) -> (r: (i64, u64, State))
        ensures
            r.0 == frame_angle(self.x as int, self.y as int, polar_angle),
            r.1 == magnitude(self.x as int, self.y as int),
            r.2 == grip_state(self.x as int, self.y as int),
    {
        let x: i128 = self.x as i128;
        let y: i128 = self.y as i128;
        assert(0 <= x * x <= 0x4000_0000_0000_0000) by (nonlinear_arith)
            requires
                -0x8000_0000 <= x <= 0x8000_0000,
        ;
        assert(0 <= y * y <= 0x4000_0000_0000_0000) by (nonlinear_arith)
            requires
                -0x8000_0000 <= y <= 0x8000_0000,
        ;
        let scaled: u128 = ((x * x + y * y) as u128) * 1_000_000_000_000;
        proof {
            lemma_scaled_square(x as int, y as int);
        }
        let root: u64 = isqrt(scaled);
        let magnitude: u64 = root / MAX_MAGNITUDE;
        let limit: u128 = 908_759_611_009_600_000_000;
        assert(limit == (GRIP_THRESHOLD * MAX_MAGNITUDE) * (GRIP_THRESHOLD * MAX_MAGNITUDE))
            by (nonlinear_arith)
            requires
                limit == 908_759_611_009_600_000_000,
                GRIP_THRESHOLD == 920_000,
                MAX_MAGNITUDE == 32767,
        ;
        let state = if scaled > limit {
            State::Gripped
        } else {
            State::Freewheel
        };
        let angle: i64 = if self.x == 0 && self.y == 0 {
            0
        } else {
            polar_angle
        };
        (angle, magnitude, state)
    }

    /// Analyzes the sample and stores the state found in it; returns the
    /// angle and the magnitude.
    pub fn resolve(&mut self, polar_angle: i64) -> (r: (i64, u64))
        ensures
            final(self).x == old(self).x,
            final(self).y == old(self).y,
            final(self).state == grip_state(old(self).x as int, old(self).y as int),
            r.0 == frame_angle(old(self).x as int, old(self).y as int, polar_angle),
            r.1 == magnitude(old(self).x as int, old(self).y as int),
    {
        let (angle, magnitude, state) = self.analyze(polar_angle);
        self.state = state;
        (angle, magnitude)
    }
}

impl Default for Frame {
    /// The stick at rest in its centre.
    fn default() -> (r: Self)
        ensures
            r == (Frame { x: 0, y: 0, state: State::Freewheel }),
    {
        Frame { x: 0, y: 0, state: State::Freewheel }
    }
}

/// A frame together with what its analysis found.
#[derive(Clone, Copy, PartialEq, Eq, Debug, Hash)]
pub struct ProcessedFrame {
    pub inner: Frame,
    /// The polar angle of the sample; `None` only before the first sample.
    pub analog_angle: Option<i64>,
    /// The length of the sample, in parts per million of `MAX_MAGNITUDE`.
    pub analog_magnitude: u64,
}

/// The angle of `angle` microradians in millionths of a degree, rounded
/// toward zero.
pub open spec fn micro_degrees(angle: int) -> int {
    trunc_div(angle * 180_000_000, PI as int)
}

/// The name of a state.
pub open spec fn state_name(state: State) -> Seq<char> {
    match state {
        State::Freewheel => "Freewheel"@,
        State::Gripped => "Gripped"@,
    }
}

impl ProcessedFrame {
    /// The text that `dbg_string` gives: the two axes, the angle in degrees
    /// and the magnitude with six digits after the point, and the state. Each
    /// number fills at least eight characters.
    pub open spec fn dbg_text(self) -> Seq<char> {
        "x: "@ + padded(signed_decimal(self.inner.x as int), 8) + ", y: "@ + padded(
            signed_decimal(self.inner.y as int),
            8,
        ) + ", analog_angle: "@ + (match self.analog_angle {
            Some(angle) => padded(millionths(micro_degrees(angle as int)), 8),
            None => " Undef. "@,
        }) + ", analog_magnitude: "@ + padded(millionths(self.analog_magnitude as int), 8)
            + ", state: "@ + state_name(self.inner.state)
    }

    /// The frame as a line of text, for diagnostics.
    pub fn dbg_string(&self) -> (text: String)
        ensures
            text@ == self.dbg_text(),
    {
        let mut text = String::from_str("x: ");
        push_padded(&mut text, signed_decimal_string(self.inner.x as i64).as_str(), 8);
        text.append(", y: ");
        push_padded(&mut text, signed_decimal_string(self.inner.y as i64).as_str(), 8);
        text.append(", analog_angle: ");
        match self.analog_angle {
            Some(angle) => {
                let degrees: i128 = (angle as i128) * 180_000_000 / (PI as i128);
                push_padded(&mut text, millionths_string(degrees).as_str(), 8);
            },
            None => {
                text.append(" Undef. ");
            },
        }
        text.append(", analog_magnitude: ");
        push_padded(&mut text, millionths_string(self.analog_magnitude as i128).as_str(), 8);
        text.append(", state: ");
        match self.inner.state {
            State::Freewheel => text.append("Freewheel"),
            State::Gripped => text.append("Gripped"),
        }
        assert(text@ =~= self.dbg_text());
        text
    }

    /// Analyzes `value`, whose polar angle was measured as `polar_angle`.
    pub fn from_frame(value: Frame, polar_angle: i64) -> (r: Self)
        ensures
            r == analysis(value, polar_angle),
    {
        let mut value = value;
        let (angle, magnitude) = value.resolve(polar_angle);
        ProcessedFrame { inner: value, analog_angle: Some(angle), analog_magnitude: magnitude }
    }

    /// The state found for the frame.
    pub fn state(&self) -> (r: State)
        ensures
            r == self.inner.state,
    {
        self.inner.state
    }
}

impl Default for ProcessedFrame {
    /// The frame that stands for "no sample yet": at rest, with no angle.
    fn default() -> (r: Self)
        ensures
            r == (ProcessedFrame {
                inner: Frame { x: 0, y: 0, state: State::Freewheel },
                analog_angle: None,
                analog_magnitude: 0,
            }),
    {
        ProcessedFrame { inner: Frame::default(), analog_angle: None, analog_magnitude: 0 }
    }
}

} // verus!
