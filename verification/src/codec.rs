//! Events as they come off the wire and go back onto it.

use vstd::prelude::*;
use crate::evdev::{
    absolute_x_record, class_of, classify, in_range, report_record, Class, ABS_X, EV_ABS, EV_SYN,
    SYN_REPORT,
};
use crate::record::{
    bytes_record, lemma_bytes_survive_record, lemma_record_survives_bytes, parse_record,
    push_record, record_bytes, Record, Timestamp, RECORD_SIZE,
};

verus! {

/// A decoded event.
#[derive(Clone, Copy, PartialEq, Eq, Debug, Hash, Structural)]
pub enum Event {
    /// An absolute axis moved to `value`.
    Absolute { time: Timestamp, axis: u16, value: i32 },
    /// A mark in the stream; the kind `SYN_REPORT` ends one report.
    Synchronize { time: Timestamp, kind: u16, value: i32 },
    /// Any other event, kept as it came.
    Other { raw: Record },
}

/// Why a buffer was not decoded.
#[derive(Clone, Copy, PartialEq, Eq, Debug, Hash, Structural)]
pub enum DecodeError {
    /// The buffer is shorter than a record.
    Undersized,
    /// The buffer is longer than a record.
    Oversized,
    /// The record has a kind that is not known, or a code that its kind does
    /// not admit.
    OutOfRange,
}

/// The event that a record is decoded to.
pub open spec fn event_of(rec: Record) -> Event {
    match class_of(rec.kind) {
        Class::Absolute => Event::Absolute { time: rec.time, axis: rec.code, value: rec.value },
        Class::Synchronize => Event::Synchronize {
            time: rec.time,
            kind: rec.code,
            value: rec.value,
        },
        Class::Other => Event::Other { raw: rec },
    }
}

/// What decoding `bytes` gives.
pub open spec fn decoded(bytes: Seq<u8>) -> Result<Event, DecodeError> {
    if bytes.len() < RECORD_SIZE {
        Err(DecodeError::Undersized)
    } else if bytes.len() > RECORD_SIZE {
        Err(DecodeError::Oversized)
    } else if !in_range(bytes_record(bytes)) {
        Err(DecodeError::OutOfRange)
    } else {
        Ok(event_of(bytes_record(bytes)))
    }
}

/// The two records that report the wheel at `axis_value`: the new position of
/// the axis X, and the mark that ends the report, both stamped `time`.
pub open spec fn wheel_report(axis_value: i32, time: Timestamp) -> Seq<u8> {
    record_bytes(Record { time, kind: EV_ABS, code: ABS_X, value: axis_value }) + record_bytes(
        Record { time, kind: EV_SYN, code: SYN_REPORT, value: 0 },
    )
}

impl Event {
    /// The record that this event is decoded from.
    pub open spec fn spec_record(&self) -> Record {
        match *self {
            Event::Absolute { time, axis, value } => Record {
                time,
                kind: EV_ABS,
                code: axis,
                value,
            },
            Event::Synchronize { time, kind, value } => Record {
                time,
                kind: EV_SYN,
                code: kind,
                value,
            },
            Event::Other { raw } => raw,
        }
    }

    /// The record that this event is decoded from.
    #[verifier::when_used_as_spec(spec_record)]
    pub fn record(&self) -> (rec: Record)
        ensures
            rec == self.spec_record(),
    {
        match self {
            Event::Absolute { time, axis, value } => Record {
                time: *time,
                kind: EV_ABS,
                code: *axis,
                value: *value,
            },
            Event::Synchronize { time, kind, value } => Record {
                time: *time,
                kind: EV_SYN,
                code: *kind,
                value: *value,
            },
            Event::Other { raw } => *raw,
        }
    }

    /// The bytes that this event is decoded from.
    pub fn encode(&self) -> (bytes: Vec<u8>)
        ensures
            bytes@ == record_bytes(self.record()),
    {
        let mut bytes: Vec<u8> = Vec::new();
        push_record(&mut bytes, &self.record());
        bytes
    }
}

/// An event keeps every field of its record.
pub proof fn lemma_event_keeps_record(rec: Record)
    ensures
        event_of(rec).record() == rec,
{
}

/// A decoded event encodes to the bytes it came from.
pub proof fn lemma_decoded_event_encodes_back(bytes: Seq<u8>)
    requires
        decoded(bytes) is Ok,
    ensures
        record_bytes(decoded(bytes)->Ok_0.record()) == bytes,
{
    lemma_bytes_survive_record(bytes);
}

/// Decodes one record. A buffer of any other length is refused, and so is a
/// record that is out of range.
pub fn decode(bytes: &[u8]) -> (r: Result<Event, DecodeError>)
    ensures
        r == decoded(bytes@),
{
    if bytes.len() < RECORD_SIZE {
        return Err(DecodeError::Undersized);
    }
    if bytes.len() > RECORD_SIZE {
        return Err(DecodeError::Oversized);
    }
    let rec = parse_record(bytes);
    match classify(&rec) {
        Ok(Class::Absolute) => Ok(
            Event::Absolute { time: rec.time, axis: rec.code, value: rec.value },
        ),
        Ok(Class::Synchronize) => Ok(
            Event::Synchronize { time: rec.time, kind: rec.code, value: rec.value },
        ),
        Ok(Class::Other) => Ok(Event::Other { raw: rec }),
        Err(_) => Err(DecodeError::OutOfRange),
    }
}

/// The bytes that report the wheel at `axis_value`: always two records, the
/// position of the axis X and the mark that ends the report.
pub fn encode_absolute_and_sync(axis_value: i32, time: Timestamp) -> (bytes: Vec<u8>)
    ensures
        bytes@ == wheel_report(axis_value, time),
        bytes.len() == 2 * RECORD_SIZE,
{
    let mut bytes: Vec<u8> = Vec::new();
    let position = absolute_x_record(time, axis_value);
    let mark = report_record(time);
    push_record(&mut bytes, &position);
    push_record(&mut bytes, &mark);
    proof {
        lemma_record_survives_bytes(position);
        lemma_record_survives_bytes(mark);
    }
    bytes
}

} // verus!
