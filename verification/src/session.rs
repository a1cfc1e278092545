//! The state of one session, and what each event does to it.
//!
//! A session takes the decoded events one by one. It keeps the position of
//! the stick as the axis events come in, and at each report it moves the
//! wheel and answers with the bytes of a report of its own. Whoever owns the
//! session does the reading and the writing, keeps the clock, and measures
//! the polar angle of the stick.

use vstd::prelude::*;
use vstd::math::abs;
use crate::codec::{
    decode, decoded, encode_absolute_and_sync, lemma_decoded_event_encodes_back, wheel_report,
    DecodeError, Event,
};
use crate::evdev::{ABS_X, ABS_Y, SYN_REPORT};
use crate::frame::{analysis, grip_state, Frame, ProcessedFrame, State};
use crate::record::{record_bytes, Timestamp};
use crate::wheel::{
    eased, lemma_easing_toward_centre, quantize_wheel_angle, quantized, wheel_behaviour,
    wheel_step, HALF_RANGE, STEERING_STOP,
};

verus! {

/// How far off centre the wheel must be, in microradians, for a report to be
/// made without the device asking for one.
pub const RESYNC_EPSILON: i64 = 500;

/// How long the last report must lie back, in microseconds, for a report to
/// be made without the device asking for one.
pub const RESYNC_DEBOUNCE: u64 = 4_000;

/// How long the timer that looks for a report that is due sleeps between two
/// looks, in microseconds.
pub const TIMER_PERIOD: u64 = 10_000;

/// How many bytes of input to throw away after a buffer that was not a
/// record.
pub const GARBAGE_WINDOW: usize = 256;

/// What a session holds.
pub struct SessionState {
    /// The frame analyzed at the last report of the device.
    pub prev: ProcessedFrame,
    /// The position of the stick as the axis events left it.
    pub cur: Frame,
    /// The angle of the wheel, in microradians.
    pub wheel_angle: i64,
    /// The time of the last report, in microseconds on the owner's clock.
    pub last_wheel_report: u64,
}

/// A session: the wheel, the stick, and the time of the last report.
pub struct Session {
    prev: ProcessedFrame,
    cur: Frame,
    wheel_angle: i64,
    last_wheel_report: u64,
}

/// What the owner of the session is to do after an event.
#[derive(PartialEq, Eq, Debug)]
pub enum Action {
    /// Nothing: the event moved the stick.
    Absorb,
    /// Write these bytes, which are the event as it came.
    Forward(Vec<u8>),
    /// Write these bytes, which report the wheel.
    Report(Vec<u8>),
}

/// What the owner of the session is to do after a buffer that did not decode.
#[derive(Clone, Copy, PartialEq, Eq, Debug, Structural)]
pub enum Recovery {
    /// Read and throw away up to this many bytes, then go on.
    Discard(usize),
    /// Go on with the next record.
    Skip,
}

/// The state of a session that starts at `now`: wheel and stick centred, and
/// no frame seen yet.
pub open spec fn initial(now: u64) -> SessionState {
    SessionState {
        prev: ProcessedFrame {
            inner: Frame { x: 0, y: 0, state: State::Freewheel },
            analog_angle: None,
            analog_magnitude: 0,
        },
        cur: Frame { x: 0, y: 0, state: State::Freewheel },
        wheel_angle: 0,
        last_wheel_report: now,
    }
}

/// The microseconds from the last report to `now`; zero where `now` is the
/// earlier of the two.
pub open spec fn elapsed(s: SessionState, now: u64) -> int {
    if now >= s.last_wheel_report {
        now - s.last_wheel_report
    } else {
        0
    }
}

/// The angle of the wheel after a report at `now`, with the stick where the
/// axis events left it and its polar angle measured as `polar_angle`.
pub open spec fn next_wheel_angle(s: SessionState, polar_angle: i64, now: u64) -> int {
    wheel_step(s.wheel_angle as int, analysis(s.cur, polar_angle), s.prev, elapsed(s, now))
}

/// The event moves the stick along one of its two axes.
pub open spec fn moves_stick(event: Event) -> bool {
    event matches Event::Absolute { axis, .. } && (axis == ABS_X || axis == ABS_Y)
}

/// The event is the mark at which the device ends a report.
pub open spec fn ends_report(event: Event) -> bool {
    event matches Event::Synchronize { kind, .. } && kind == SYN_REPORT
}

/// The state after a report of the device at `now`: the wheel has moved, and
/// the frame just analyzed is the previous one from now on.
pub open spec fn after_report(s: SessionState, polar_angle: i64, now: u64) -> SessionState {
    SessionState {
        prev: analysis(s.cur, polar_angle),
        cur: s.cur,
        wheel_angle: next_wheel_angle(s, polar_angle, now) as i64,
        last_wheel_report: now,
    }
}

/// The state after a report that the device did not ask for: the wheel has
/// moved, and the previous frame stays.
pub open spec fn after_resync(s: SessionState, polar_angle: i64, now: u64) -> SessionState {
    SessionState {
        prev: s.prev,
        cur: s.cur,
        wheel_angle: next_wheel_angle(s, polar_angle, now) as i64,
        last_wheel_report: now,
    }
}

/// The state after `event`, taken at `now`.
pub open spec fn after_event(s: SessionState, event: Event, polar_angle: i64, now: u64)
    -> SessionState {
    match event {
        Event::Absolute { axis, value, .. } => {
            if axis == ABS_X {
                SessionState { cur: Frame { x: value, ..s.cur }, ..s }
            } else if axis == ABS_Y {
                SessionState { cur: Frame { y: value, ..s.cur }, ..s }
            } else {
                s
            }
        },
        Event::Synchronize { kind, .. } => {
            if kind == SYN_REPORT {
                after_report(s, polar_angle, now)
            } else {
                s
            }
        },
        Event::Other { .. } => s,
    }
}

/// The bytes to write after `event`, taken at `now`: none for an event that
/// moves the stick, a report of the wheel for the mark that ends a report of
/// the device, and the event itself for any other.
pub open spec fn output_of(s: SessionState, event: Event, polar_angle: i64, now: u64) -> Seq<u8> {
    match event {
        Event::Absolute { axis, .. } if axis == ABS_X || axis == ABS_Y => Seq::empty(),
        Event::Synchronize { time, kind, .. } if kind == SYN_REPORT => wheel_report(
            quantized(next_wheel_angle(s, polar_angle, now)) as i32,
            time,
        ),
        _ => record_bytes(event.record()),
    }
}

/// The wheel is off centre, no hand holds it, and the last report lies back
/// long enough: a report is due although the device asks for none.
pub open spec fn stale(s: SessionState, now: u64) -> bool {
    &&& s.wheel_angle > RESYNC_EPSILON || s.wheel_angle < -RESYNC_EPSILON
    &&& s.prev.inner.state == State::Freewheel
    &&& elapsed(s, now) > RESYNC_DEBOUNCE
}

/// What to do after a buffer failed to decode with `error`.
pub open spec fn recovery_of(error: DecodeError) -> Recovery {
    match error {
        DecodeError::Undersized => Recovery::Discard(GARBAGE_WINDOW),
        DecodeError::Oversized => Recovery::Discard(GARBAGE_WINDOW),
        DecodeError::OutOfRange => Recovery::Skip,
    }
}

/// An event that neither moves the stick nor ends a report goes out byte for
/// byte as it came in.
pub proof fn lemma_passes_through(bytes: Seq<u8>, s: SessionState, polar_angle: i64, now: u64)
    requires
        decoded(bytes) is Ok,
        !moves_stick(decoded(bytes)->Ok_0),
        !ends_report(decoded(bytes)->Ok_0),
    ensures
        output_of(s, decoded(bytes)->Ok_0, polar_angle, now) == bytes,
        after_event(s, decoded(bytes)->Ok_0, polar_angle, now) == s,
{
    lemma_decoded_event_encodes_back(bytes);
}

/// A report that is due without the device asking for one eases the wheel:
/// its angle shrinks and keeps its sign, whatever the stick does.
pub proof fn lemma_resync_eases(s: SessionState, polar_angle: i64, now: u64)
    requires
        -STEERING_STOP <= s.wheel_angle <= STEERING_STOP,
        stale(s, now),
    ensures
        next_wheel_angle(s, polar_angle, now) == eased(s.wheel_angle as int, elapsed(s, now)),
        abs(next_wheel_angle(s, polar_angle, now)) < abs(s.wheel_angle as int),
        s.wheel_angle > 0 ==> next_wheel_angle(s, polar_angle, now) >= 0,
        s.wheel_angle < 0 ==> next_wheel_angle(s, polar_angle, now) <= 0,
{
    lemma_easing_toward_centre(s.wheel_angle as int, elapsed(s, now));
}

/// A report made while the stick is not gripped, as it is at the origin,
/// eases the wheel: its angle keeps its sign and does not grow, and it
/// shrinks if the wheel is off centre and any time has passed.
pub proof fn lemma_report_of_free_stick_eases(s: SessionState, polar_angle: i64, now: u64)
    requires
        -STEERING_STOP <= s.wheel_angle <= STEERING_STOP,
        grip_state(s.cur.x as int, s.cur.y as int) == State::Freewheel,
    ensures
        next_wheel_angle(s, polar_angle, now) == eased(s.wheel_angle as int, elapsed(s, now)),
        abs(next_wheel_angle(s, polar_angle, now)) <= abs(s.wheel_angle as int),
        s.wheel_angle != 0 && elapsed(s, now) > 0 ==> abs(next_wheel_angle(s, polar_angle, now))
            < abs(s.wheel_angle as int),
        s.wheel_angle >= 0 ==> next_wheel_angle(s, polar_angle, now) >= 0,
        s.wheel_angle <= 0 ==> next_wheel_angle(s, polar_angle, now) <= 0,
{
    lemma_easing_toward_centre(s.wheel_angle as int, elapsed(s, now));
}

/// Every state that `after_event` leads to from a wheel within its stops has
/// its wheel within its stops.
pub proof fn lemma_wheel_stays_within_stops(
    s: SessionState,
    event: Event,
    polar_angle: i64,
    now: u64,
)
    requires
        -STEERING_STOP <= s.wheel_angle <= STEERING_STOP,
    ensures
        -STEERING_STOP <= after_event(s, event, polar_angle, now).wheel_angle <= STEERING_STOP,
        -STEERING_STOP <= after_resync(s, polar_angle, now).wheel_angle <= STEERING_STOP,
{
}

impl Action {
    /// The bytes that the action asks to write.
    pub open spec fn bytes(self) -> Seq<u8> {
        match self {
            Action::Absorb => Seq::empty(),
            Action::Forward(bytes) => bytes@,
            Action::Report(bytes) => bytes@,
        }
    }
}

impl View for Session {
    type V = SessionState;

    closed spec fn view(&self) -> SessionState {
        SessionState {
            prev: self.prev,
            cur: self.cur,
            wheel_angle: self.wheel_angle,
            last_wheel_report: self.last_wheel_report,
        }
    }
}

impl Session {
    /// The wheel of a session is within its stops at all times.
    #[verifier::type_invariant]
    spec fn within_stops(self) -> bool {
        -STEERING_STOP <= self.wheel_angle <= STEERING_STOP
    }

    /// A session that starts at `now`.
    pub fn new(now: u64) -> (session: Session)
        ensures
            session@ == initial(now),
    {
        Session {
            prev: ProcessedFrame::default(),
            cur: Frame::default(),
            wheel_angle: 0,
            last_wheel_report: now,
        }
    }

    /// The angle of the wheel, in microradians.
    pub fn wheel_angle(&self) -> (angle: i64)
        ensures
            angle == self@.wheel_angle,
            -STEERING_STOP <= angle <= STEERING_STOP,
    {
        proof {
            use_type_invariant(self);
        }
        self.wheel_angle
    }

    /// The value of the output axis for the wheel where it stands.
    pub fn axis_value(&self) -> (value: i32)
        ensures
            value == quantized(self@.wheel_angle as int),
            0 <= value <= 2 * HALF_RANGE,
    {
        proof {
            use_type_invariant(self);
        }
        quantize_wheel_angle(self.wheel_angle)
    }

    /// The position of the stick as the axis events left it.
    pub fn current(&self) -> (frame: Frame)
        ensures
            frame == self@.cur,
    {
        self.cur
    }

    /// The frame analyzed at the last report of the device.
    pub fn previous(&self) -> (frame: ProcessedFrame)
        ensures
            frame == self@.prev,
    {
        self.prev
    }

    /// The time of the last report.
    pub fn last_wheel_report(&self) -> (time: u64)
        ensures
            time == self@.last_wheel_report,
    {
        self.last_wheel_report
    }

    /// The microseconds from the last report to `now`.
    fn since_report(&self, now: u64) -> (d_t: u64)
        ensures
            d_t == elapsed(self@, now),
    {
        if now >= self.last_wheel_report {
            now - self.last_wheel_report
        } else {
            0
        }
    }

    /// Moves the wheel for a report at `now` and encodes the report, stamped
    /// `time`. Returns the frame that was analyzed and the bytes.
    fn tick(&mut self, polar_angle: i64, now: u64, time: Timestamp) -> (r: (
        ProcessedFrame,
        Vec<u8>,
    ))
        ensures
            final(self)@.wheel_angle == next_wheel_angle(old(self)@, polar_angle, now),
            final(self)@.prev == old(self)@.prev,
            final(self)@.cur == old(self)@.cur,
            final(self)@.last_wheel_report == old(self)@.last_wheel_report,
            r.0 == analysis(old(self)@.cur, polar_angle),
            r.1@ == wheel_report(quantized(final(self)@.wheel_angle as int) as i32, time),
    {
        let processed = ProcessedFrame::from_frame(self.cur, polar_angle);
        let d_t = self.since_report(now);
        let angle = wheel_behaviour(self.wheel_angle, &processed, &self.prev, d_t);
        self.wheel_angle = angle;
        let axis_val = quantize_wheel_angle(angle);
        (processed, encode_absolute_and_sync(axis_val, time))
    }

    /// Takes one event of the device, at `now` on the owner's clock.
    /// `polar_angle` is the polar angle of the stick where the axis events
    /// before this one left it.
    pub fn handle(&mut self, event: &Event, polar_angle: i64, now: u64) -> (action: Action)
        ensures
            final(self)@ == after_event(old(self)@, *event, polar_angle, now),
            action.bytes() == output_of(old(self)@, *event, polar_angle, now),
            action is Absorb <==> moves_stick(*event),
            action is Report <==> ends_report(*event),
            -STEERING_STOP <= final(self)@.wheel_angle <= STEERING_STOP,
    {
        proof {
            use_type_invariant(&*self);
        }
        match event {
            Event::Absolute { axis, value, .. } => {
                if *axis == ABS_X {
                    self.cur.x = *value;
                    Action::Absorb
                } else if *axis == ABS_Y {
                    self.cur.y = *value;
                    Action::Absorb
                } else {
                    Action::Forward(event.encode())
                }
            },
            Event::Synchronize { time, kind, .. } => {
                if *kind == SYN_REPORT {
                    let (processed, bytes) = self.tick(polar_angle, now, *time);
                    self.prev = processed;
                    self.last_wheel_report = now;
                    Action::Report(bytes)
                } else {
                    Action::Forward(event.encode())
                }
            },
            Event::Other { .. } => Action::Forward(event.encode()),
        }
    }

    /// Decodes one buffer read from the device and takes the event in it. A
    /// buffer that does not decode leaves the session as it was.
    pub fn feed(&mut self, bytes: &[u8], polar_angle: i64, now: u64) -> (r: Result<
        Action,
        DecodeError,
    >)
        ensures
            match decoded(bytes@) {
                Ok(event) => {
                    &&& r matches Ok(action)
                    &&& final(self)@ == after_event(old(self)@, event, polar_angle, now)
                    &&& action.bytes() == output_of(old(self)@, event, polar_angle, now)
                    &&& (action is Absorb <==> moves_stick(event))
                    &&& (action is Report <==> ends_report(event))
                },
                Err(error) => r == Err::<Action, DecodeError>(error) && final(self)@ == old(self)@,
            },
            -STEERING_STOP <= final(self)@.wheel_angle <= STEERING_STOP,
    {
        proof {
            use_type_invariant(&*self);
        }
        match decode(bytes) {
            Ok(event) => Ok(self.handle(&event, polar_angle, now)),
            Err(error) => Err(error),
        }
    }

    /// Whether a report is due at `now` although the device asks for none.
    pub fn needs_resync(&self, now: u64) -> (due: bool)
        ensures
            due == stale(self@, now),
    {
        (self.wheel_angle > RESYNC_EPSILON || self.wheel_angle < -RESYNC_EPSILON)
            && self.prev.inner.state == State::Freewheel && self.since_report(now)
            > RESYNC_DEBOUNCE
    }

    /// Makes the report that is due at `now`, stamped `time`, and returns its
    /// bytes; does nothing and returns `None` where none is due.
    pub fn resync(&mut self, polar_angle: i64, now: u64, time: Timestamp) -> (bytes: Option<
        Vec<u8>,
    >)
        ensures
            bytes is Some <==> stale(old(self)@, now),
            bytes matches Some(report) ==> {
                &&& final(self)@ == after_resync(old(self)@, polar_angle, now)
                &&& report@ == wheel_report(
                    quantized(next_wheel_angle(old(self)@, polar_angle, now)) as i32,
                    time,
                )
            },
            bytes is None ==> final(self)@ == old(self)@,
            -STEERING_STOP <= final(self)@.wheel_angle <= STEERING_STOP,
    {
        proof {
            use_type_invariant(&*self);
        }
        if self.needs_resync(now) {
            let (_, report) = self.tick(polar_angle, now, time);
            self.last_wheel_report = now;
            Some(report)
        } else {
            None
        }
    }
}

/// What to do after a buffer failed to decode with `error`: a buffer of the
/// wrong length means that the stream is out of step, a record that is out
/// of range is dropped alone.
pub fn recovery(error: DecodeError) -> (r: Recovery)
    ensures
        r == recovery_of(error),
{
    match error {
        DecodeError::Undersized => Recovery::Discard(GARBAGE_WINDOW),
        DecodeError::Oversized => Recovery::Discard(GARBAGE_WINDOW),
        DecodeError::OutOfRange => Recovery::Skip,
    }
}

} // verus!
