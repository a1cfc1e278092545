//! The boundary to the `input_linux` crate, which knows the kinds of events
//! and the codes each kind admits.
//!
//! Nothing about the three functions at the end of this file is proved: each
//! calls into that crate, and its contract states what the crate's source
//! shows. The contracts take the timestamps of the kernel to be two 64-bit
//! numbers, as they are wherever a record has 24 bytes.

use vstd::prelude::*;
use crate::record::{Record, Timestamp};

verus! {

/// The kind of the events that end a batch or carry other marks.
pub const EV_SYN: u16 = 0x00;

/// The kind of the events that report the position of an absolute axis.
pub const EV_ABS: u16 = 0x03;

/// The kind of the events that speak to a virtual device.
pub const EV_UINPUT: u16 = 0x0101;

/// The greatest of the kinds in ordinary use.
pub const EV_MAX: u16 = 0x1f;

/// The code of the first absolute axis.
pub const ABS_X: u16 = 0x00;

/// The code of the second absolute axis.
pub const ABS_Y: u16 = 0x01;

/// The code of the synchronize event that ends one report.
pub const SYN_REPORT: u16 = 0;

/// The error of `input_linux` for a kind or a code that is out of range.
#[verifier::external_type_specification]
#[verifier::external_body]
pub struct ExRangeError(input_linux::RangeError);

/// The three sorts of event that this crate tells apart.
#[derive(Clone, Copy, PartialEq, Eq, Debug, Hash, Structural)]
pub enum Class {
    Absolute,
    Synchronize,
    Other,
}

/// `kind` is a kind of event that `input_linux` knows.
pub open spec fn kind_is_known(kind: u16) -> bool {
    kind <= EV_MAX || kind == EV_UINPUT
}

/// The number of codes that `input_linux` admits for events of `kind`; `None`
/// for a kind whose events it does not type, and whose codes it does not
/// check.
pub open spec fn code_count(kind: u16) -> Option<int> {
    if kind == 0x00 {
        Some(0x10)
    } else if kind == 0x01 {
        Some(0x300)
    } else if kind == 0x02 {
        Some(0x10)
    } else if kind == 0x03 {
        Some(0x40)
    } else if kind == 0x04 {
        Some(0x08)
    } else if kind == 0x05 {
        Some(0x11)
    } else if kind == 0x11 {
        Some(0x10)
    } else if kind == 0x12 {
        Some(0x08)
    } else if kind == 0x14 {
        Some(0x02)
    } else if kind == 0x15 {
        Some(0x80)
    } else if kind == 0x17 {
        Some(0x02)
    } else if kind == 0x0101 {
        Some(0x03)
    } else {
        None
    }
}

/// `input_linux` accepts `rec` as an event: it knows the kind, and the code
/// is one that the kind admits.
pub open spec fn in_range(rec: Record) -> bool {
    &&& kind_is_known(rec.kind)
    &&& code_count(rec.kind) matches Some(count) ==> rec.code < count
}

/// The sort of an event of `kind`.
pub open spec fn class_of(kind: u16) -> Class {
    if kind == EV_ABS {
        Class::Absolute
    } else if kind == EV_SYN {
        Class::Synchronize
    } else {
        Class::Other
    }
}

/// Calls `input_linux::EventKind::from_type` on the kind of `rec`, and
/// `input_linux::Event::new` on the `input_linux::InputEvent` made of that
/// kind and the other fields. The contract claims that the two succeed
/// exactly on the records that are `in_range`, and that the typed event is an
/// absolute one for kind `EV_ABS`, a synchronize one for kind `EV_SYN`, and
/// neither for any other kind.
#[verifier::external_body]
pub(crate) fn classify(rec: &Record) -> (r: Result<Class, input_linux::RangeError>)
    ensures
        r is Ok <==> in_range(*rec),
        r matches Ok(class) ==> class == class_of(rec.kind),
{
    let time = input_linux::EventTime::new(rec.time.seconds, rec.time.microseconds);
    let kind = input_linux::EventKind::from_type(rec.kind)?;
    let event = input_linux::InputEvent { time, kind, code: rec.code, value: rec.value };
    Ok(
        match input_linux::Event::new(event)? {
            input_linux::Event::Absolute(_) => Class::Absolute,
            input_linux::Event::Synchronize(_) => Class::Synchronize,
            _ => Class::Other,
        },
    )
}

/// Calls `input_linux::AbsoluteEvent::new` for the axis X, then `into_event`,
/// and hands back the fields of the event. The contract claims that these are
/// `time`, the kind `EV_ABS`, the code `ABS_X` and `value`.
#[verifier::external_body]
pub(crate) fn absolute_x_record(time: Timestamp, value: i32) -> (rec: Record)
    ensures
        rec == (Record { time, kind: EV_ABS, code: ABS_X, value }),
{
    let stamp = input_linux::EventTime::new(time.seconds, time.microseconds);
    let event = input_linux::AbsoluteEvent::new(stamp, input_linux::AbsoluteAxis::X, value);
    let event = event.into_event();
    let time = Timestamp { seconds: event.time.seconds(), microseconds: event.time.microseconds() };
    Record { time, kind: event.kind.code(), code: event.code, value: event.value }
}

/// Calls `input_linux::SynchronizeEvent::new` for a report, then
/// `into_event`, and hands back the fields of the event. The contract claims
/// that these are `time`, the kind `EV_SYN`, the code `SYN_REPORT` and the
/// value zero.
#[verifier::external_body]
pub(crate) fn report_record(time: Timestamp) -> (rec: Record)
    ensures
        rec == (Record { time, kind: EV_SYN, code: SYN_REPORT, value: 0 }),
{
    let stamp = input_linux::EventTime::new(time.seconds, time.microseconds);
    let event = input_linux::SynchronizeEvent::new(stamp, input_linux::SynchronizeKind::Report, 0);
    let event = event.into_event();
    let time = Timestamp { seconds: event.time.seconds(), microseconds: event.time.microseconds() };
    Record { time, kind: event.kind.code(), code: event.code, value: event.value }
}

} // verus!
