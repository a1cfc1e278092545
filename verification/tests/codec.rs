use stick_wheel::codec::{decode, encode_absolute_and_sync, DecodeError, Event};
use stick_wheel::evdev::{ABS_X, ABS_Y, EV_ABS, EV_SYN, SYN_REPORT};
use stick_wheel::record::{encode_record, parse_record, Record, Timestamp, RECORD_SIZE};

fn wire(seconds: i64, microseconds: i64, kind: u16, code: u16, value: i32) -> Vec<u8> {
    let mut bytes = Vec::new();
    bytes.extend_from_slice(&seconds.to_le_bytes());
    bytes.extend_from_slice(&microseconds.to_le_bytes());
    bytes.extend_from_slice(&kind.to_le_bytes());
    bytes.extend_from_slice(&code.to_le_bytes());
    bytes.extend_from_slice(&value.to_le_bytes());
    bytes
}

fn stamp(seconds: i64, microseconds: i64) -> Timestamp {
    Timestamp { seconds, microseconds }
}

#[test]
fn a_record_is_24_bytes() {
    assert_eq!(RECORD_SIZE, 24);
    assert_eq!(RECORD_SIZE, std::mem::size_of::<input_linux::InputEvent>());
}

#[test]
fn a_record_is_laid_out_field_by_field() {
    let rec = Record { time: stamp(0x0102_0304_0506_0708, -2), kind: 3, code: 0x0102, value: -3 };
    let expected: Vec<u8> = vec![
        0x08, 0x07, 0x06, 0x05, 0x04, 0x03, 0x02, 0x01, 0xfe, 0xff, 0xff, 0xff, 0xff, 0xff, 0xff,
        0xff, 0x03, 0x00, 0x02, 0x01, 0xfd, 0xff, 0xff, 0xff,
    ];
    assert_eq!(encode_record(&rec), expected);
    assert_eq!(parse_record(&expected), rec);
}

#[test]
fn records_survive_their_bytes() {
    let numbers64 = [0, 1, -1, 255, 256, -256, i64::MAX, i64::MIN, 1_700_000_000, 999_999];
    let numbers32 = [0, 1, -1, 255, -32_768, 32_767, i32::MAX, i32::MIN];
    let numbers16 = [0, 1, 255, 256, 0x1234, u16::MAX];
    for seconds in numbers64 {
        for value in numbers32 {
            for kind in numbers16 {
                let rec = Record {
                    time: stamp(seconds, seconds.wrapping_mul(3)),
                    kind,
                    code: !kind,
                    value,
                };
                let bytes = encode_record(&rec);
                assert_eq!(bytes, wire(seconds, seconds.wrapping_mul(3), kind, !kind, value));
                assert_eq!(parse_record(&bytes), rec);
            }
        }
    }
}

#[test]
fn bytes_survive_their_record() {
    let mut seed: u32 = 12_345;
    for _ in 0..500 {
        let mut bytes = Vec::new();
        for _ in 0..RECORD_SIZE {
            seed = seed.wrapping_mul(1_664_525).wrapping_add(1_013_904_223);
            bytes.push((seed >> 24) as u8);
        }
        assert_eq!(encode_record(&parse_record(&bytes)), bytes);
    }
}

#[test]
fn the_layout_is_that_of_the_kernel() {
    let time = input_linux::EventTime::new(1_700_000_000, 123_456);
    let theirs = input_linux::AbsoluteEvent::new(time, input_linux::AbsoluteAxis::Y, -12_345)
        .into_event()
        .into_bytes();
    let ours = encode_record(
        &Record { time: stamp(1_700_000_000, 123_456), kind: EV_ABS, code: ABS_Y, value: -12_345 },
    );
    assert_eq!(ours, theirs.to_vec());
}

#[test]
fn an_absolute_event_decodes_with_axis_and_value() {
    let bytes = wire(10, 20, EV_ABS, ABS_X, -32_768);
    assert_eq!(
        decode(&bytes),
        Ok(Event::Absolute { time: stamp(10, 20), axis: ABS_X, value: -32_768 })
    );
    let bytes = wire(10, 20, EV_ABS, 0x3f, 7);
    assert_eq!(decode(&bytes), Ok(Event::Absolute { time: stamp(10, 20), axis: 0x3f, value: 7 }));
}

#[test]
fn a_synchronize_event_decodes_with_kind_and_time() {
    let bytes = wire(1_700_000_000, 999_999, EV_SYN, SYN_REPORT, 0);
    assert_eq!(
        decode(&bytes),
        Ok(Event::Synchronize { time: stamp(1_700_000_000, 999_999), kind: SYN_REPORT, value: 0 })
    );
    let bytes = wire(1, 2, EV_SYN, 3, 9);
    assert_eq!(decode(&bytes), Ok(Event::Synchronize { time: stamp(1, 2), kind: 3, value: 9 }));
}

#[test]
fn any_other_event_is_kept_as_it_came() {
    let bytes = wire(5, 6, 0x01, 30, 1);
    let raw = Record { time: stamp(5, 6), kind: 0x01, code: 30, value: 1 };
    assert_eq!(decode(&bytes), Ok(Event::Other { raw }));
    let bytes = wire(5, 6, 0x16, 0xffff, -1);
    let raw = Record { time: stamp(5, 6), kind: 0x16, code: 0xffff, value: -1 };
    assert_eq!(decode(&bytes), Ok(Event::Other { raw }));
}

#[test]
fn a_short_buffer_is_undersized() {
    let bytes = wire(10, 20, EV_ABS, ABS_X, 1);
    for len in 0..RECORD_SIZE {
        assert_eq!(decode(&bytes[..len]), Err(DecodeError::Undersized));
    }
}

#[test]
fn a_long_buffer_is_oversized() {
    let mut bytes = wire(10, 20, EV_ABS, ABS_X, 1);
    bytes.push(0);
    assert_eq!(decode(&bytes), Err(DecodeError::Oversized));
    bytes.extend_from_slice(&wire(10, 20, EV_SYN, SYN_REPORT, 0));
    assert_eq!(decode(&bytes), Err(DecodeError::Oversized));
}

#[test]
fn a_code_that_the_kind_does_not_admit_is_out_of_range() {
    assert_eq!(decode(&wire(0, 0, EV_ABS, 0x40, 0)), Err(DecodeError::OutOfRange));
    assert_eq!(decode(&wire(0, 0, EV_SYN, 0x10, 0)), Err(DecodeError::OutOfRange));
    assert_eq!(decode(&wire(0, 0, 0x01, 0x300, 0)), Err(DecodeError::OutOfRange));
    assert_eq!(decode(&wire(0, 0, 0x14, 2, 0)), Err(DecodeError::OutOfRange));
    assert_eq!(decode(&wire(0, 0, 0x0101, 3, 0)), Err(DecodeError::OutOfRange));
}

#[test]
fn a_kind_that_is_not_known_is_out_of_range() {
    assert_eq!(decode(&wire(0, 0, 0x20, 0, 0)), Err(DecodeError::OutOfRange));
    assert_eq!(decode(&wire(0, 0, 0x0100, 0, 0)), Err(DecodeError::OutOfRange));
    assert_eq!(decode(&wire(0, 0, 0x0102, 0, 0)), Err(DecodeError::OutOfRange));
    assert_eq!(decode(&wire(0, 0, 0xffff, 0, 0)), Err(DecodeError::OutOfRange));
}

/// The number of codes of each kind whose events are typed.
fn code_count(kind: u16) -> Option<u16> {
    match kind {
        0x00 => Some(0x10),
        0x01 => Some(0x300),
        0x02 => Some(0x10),
        0x03 => Some(0x40),
        0x04 => Some(0x08),
        0x05 => Some(0x11),
        0x11 => Some(0x10),
        0x12 => Some(0x08),
        0x14 => Some(0x02),
        0x15 => Some(0x80),
        0x17 => Some(0x02),
        0x0101 => Some(0x03),
        _ => None,
    }
}

#[test]
fn decoding_accepts_what_is_in_range_and_nothing_else() {
    for kind in 0..0x0110_u16 {
        for code in 0..0x0310_u16 {
            let known = kind <= 0x1f || kind == 0x0101;
            let admitted = match code_count(kind) {
                Some(count) => code < count,
                None => true,
            };
            let decoded = decode(&wire(1, 2, kind, code, 3));
            if known && admitted {
                let time = stamp(1, 2);
                let expected = if kind == EV_ABS {
                    Event::Absolute { time, axis: code, value: 3 }
                } else if kind == EV_SYN {
                    Event::Synchronize { time, kind: code, value: 3 }
                } else {
                    Event::Other { raw: Record { time, kind, code, value: 3 } }
                };
                assert_eq!(decoded, Ok(expected), "kind {}, code {}", kind, code);
            } else {
                assert_eq!(decoded, Err(DecodeError::OutOfRange), "kind {}, code {}", kind, code);
            }
        }
    }
}

#[test]
fn an_event_encodes_to_the_bytes_it_came_from() {
    let buffers = [
        wire(10, 20, EV_ABS, ABS_X, -32_768),
        wire(10, 20, EV_ABS, 0x3f, 7),
        wire(-1, -1, EV_SYN, SYN_REPORT, 0),
        wire(1, 2, EV_SYN, 3, 9),
        wire(5, 6, 0x01, 30, 1),
        wire(i64::MIN, i64::MAX, 0x16, 0xffff, i32::MIN),
    ];
    for bytes in buffers {
        let event = decode(&bytes).unwrap();
        assert_eq!(event.encode(), bytes);
        assert_eq!(encode_record(&event.record()), bytes);
        assert_eq!(parse_record(&bytes), event.record());
    }
}

#[test]
fn a_wheel_report_is_two_records() {
    let bytes = encode_absolute_and_sync(40_000, stamp(1_700_000_000, 123_456));
    assert_eq!(bytes.len(), 2 * RECORD_SIZE);
    let mut expected = wire(1_700_000_000, 123_456, EV_ABS, ABS_X, 40_000);
    expected.extend_from_slice(&wire(1_700_000_000, 123_456, EV_SYN, SYN_REPORT, 0));
    assert_eq!(bytes, expected);
    assert_eq!(
        decode(&bytes[..RECORD_SIZE]),
        Ok(Event::Absolute { time: stamp(1_700_000_000, 123_456), axis: ABS_X, value: 40_000 })
    );
    assert_eq!(
        decode(&bytes[RECORD_SIZE..]),
        Ok(
            Event::Synchronize {
                time: stamp(1_700_000_000, 123_456),
                kind: SYN_REPORT,
                value: 0,
            }
        )
    );
}

#[test]
fn a_wheel_report_is_what_the_kernel_would_write() {
    let time = input_linux::EventTime::new(-5, 999_999);
    let position = input_linux::AbsoluteEvent::new(time, input_linux::AbsoluteAxis::X, -7);
    let mark = input_linux::SynchronizeEvent::new(time, input_linux::SynchronizeKind::Report, 0);
    let mut expected = position.into_event().into_bytes().to_vec();
    expected.extend_from_slice(&mark.into_event().into_bytes());
    assert_eq!(encode_absolute_and_sync(-7, stamp(-5, 999_999)), expected);
}
