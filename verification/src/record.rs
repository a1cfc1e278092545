//! The fixed-size record in which the kernel reports one input event, and its
//! layout in bytes.
//!
//! A record is 24 bytes: seconds and microseconds as signed 64-bit numbers,
//! the kind and the code of the event as unsigned 16-bit numbers, and its
//! value as a signed 32-bit number, each least significant byte first.

use vstd::prelude::*;
use crate::bytes::{
    from_twos_complement, le_bytes, le_value, lemma_bytes_of_value,
    lemma_from_twos_complement_inverse, lemma_le_bytes_len, lemma_le_value_bound,
    lemma_radix_powers, lemma_twos_complement_inverse, lemma_value_of_bytes, push_i32, push_i64,
    push_u16, read_i32, read_i64, read_u16, twos_complement,
};

verus! {

/// The number of bytes in a record.
pub const RECORD_SIZE: usize = 24;

/// The time of an event.
#[derive(Clone, Copy, PartialEq, Eq, Debug, Hash, Structural)]
pub struct Timestamp {
    pub seconds: i64,
    pub microseconds: i64,
}

/// One record, field by field.
#[derive(Clone, Copy, PartialEq, Eq, Debug, Hash, Structural)]
pub struct Record {
    pub time: Timestamp,
    pub kind: u16,
    pub code: u16,
    pub value: i32,
}

/// The bytes of a record.
pub open spec fn record_bytes(rec: Record) -> Seq<u8> {
    le_bytes(twos_complement(rec.time.seconds as int, 8), 8) + le_bytes(
        twos_complement(rec.time.microseconds as int, 8),
        8,
    ) + le_bytes(rec.kind as nat, 2) + le_bytes(rec.code as nat, 2) + le_bytes(
        twos_complement(rec.value as int, 4),
        4,
    )
}

/// The record that `RECORD_SIZE` bytes hold.
pub open spec fn bytes_record(bytes: Seq<u8>) -> Record {
    Record {
        time: Timestamp {
            seconds: from_twos_complement(le_value(bytes.subrange(0, 8)), 8) as i64,
            microseconds: from_twos_complement(le_value(bytes.subrange(8, 16)), 8) as i64,
        },
        kind: le_value(bytes.subrange(16, 18)) as u16,
        code: le_value(bytes.subrange(18, 20)) as u16,
        value: from_twos_complement(le_value(bytes.subrange(20, 24)), 4) as i32,
    }
}

/// The bytes of a record are `RECORD_SIZE` many, and hold that record.
pub proof fn lemma_record_survives_bytes(rec: Record)
    ensures
        record_bytes(rec).len() == RECORD_SIZE,
        bytes_record(record_bytes(rec)) == rec,
{
    let seconds = twos_complement(rec.time.seconds as int, 8);
    let microseconds = twos_complement(rec.time.microseconds as int, 8);
    let value = twos_complement(rec.value as int, 4);
    let bytes = record_bytes(rec);
    lemma_radix_powers();
    lemma_le_bytes_len(seconds, 8);
    lemma_le_bytes_len(microseconds, 8);
    lemma_le_bytes_len(rec.kind as nat, 2);
    lemma_le_bytes_len(rec.code as nat, 2);
    lemma_le_bytes_len(value, 4);
    assert(bytes.subrange(0, 8) =~= le_bytes(seconds, 8));
    assert(bytes.subrange(8, 16) =~= le_bytes(microseconds, 8));
    assert(bytes.subrange(16, 18) =~= le_bytes(rec.kind as nat, 2));
    assert(bytes.subrange(18, 20) =~= le_bytes(rec.code as nat, 2));
    assert(bytes.subrange(20, 24) =~= le_bytes(value, 4));
    lemma_twos_complement_inverse(rec.time.seconds as int, 8);
    lemma_twos_complement_inverse(rec.time.microseconds as int, 8);
    lemma_twos_complement_inverse(rec.value as int, 4);
    lemma_value_of_bytes(seconds, 8);
    lemma_value_of_bytes(microseconds, 8);
    lemma_value_of_bytes(rec.kind as nat, 2);
    lemma_value_of_bytes(rec.code as nat, 2);
    lemma_value_of_bytes(value, 4);
}

/// `RECORD_SIZE` bytes are the bytes of the record they hold: no two records
/// share their bytes, and every such buffer is some record.
pub proof fn lemma_bytes_survive_record(bytes: Seq<u8>)
    requires
        bytes.len() == RECORD_SIZE,
    ensures
        record_bytes(bytes_record(bytes)) == bytes,
{
    let seconds = bytes.subrange(0, 8);
    let microseconds = bytes.subrange(8, 16);
    let kind = bytes.subrange(16, 18);
    let code = bytes.subrange(18, 20);
    let value = bytes.subrange(20, 24);
    lemma_radix_powers();
    lemma_le_value_bound(seconds);
    lemma_le_value_bound(microseconds);
    lemma_le_value_bound(kind);
    lemma_le_value_bound(code);
    lemma_le_value_bound(value);
    lemma_from_twos_complement_inverse(le_value(seconds), 8);
    lemma_from_twos_complement_inverse(le_value(microseconds), 8);
    lemma_from_twos_complement_inverse(le_value(value), 4);
    lemma_bytes_of_value(seconds);
    lemma_bytes_of_value(microseconds);
    lemma_bytes_of_value(kind);
    lemma_bytes_of_value(code);
    lemma_bytes_of_value(value);
    assert(seconds + microseconds + kind + code + value =~= bytes);
}

/// Reads the record that `bytes` hold.
pub fn parse_record(bytes: &[u8]) -> (rec: Record)
    requires
        bytes.len() == RECORD_SIZE,
    ensures
        rec == bytes_record(bytes@),
{
    Record {
        time: Timestamp { seconds: read_i64(bytes, 0), microseconds: read_i64(bytes, 8) },
        kind: read_u16(bytes, 16),
        code: read_u16(bytes, 18),
        value: read_i32(bytes, 20),
    }
}

/// Appends the bytes of `rec` to `out`.
pub fn push_record(out: &mut Vec<u8>, rec: &Record)
    ensures
        final(out)@ == old(out)@ + record_bytes(*rec),
{
    let ghost start = out@;
    push_i64(out, rec.time.seconds);
    push_i64(out, rec.time.microseconds);
    push_u16(out, rec.kind);
    push_u16(out, rec.code);
    push_i32(out, rec.value);
    assert(out@ =~= start + record_bytes(*rec));
}

/// The bytes of `rec`.
pub fn encode_record(rec: &Record) -> (bytes: Vec<u8>)
    ensures
        bytes@ == record_bytes(*rec),
        bytes.len() == RECORD_SIZE,
{
    let mut bytes: Vec<u8> = Vec::new();
    push_record(&mut bytes, rec);
    proof {
        lemma_record_survives_bytes(*rec);
    }
    bytes
}

} // verus!
