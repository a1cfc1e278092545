use stick_wheel::frame::{Frame, ProcessedFrame, State, GRIP_THRESHOLD, MAX_MAGNITUDE};

fn frame(x: i32, y: i32) -> Frame {
    Frame { x, y, state: State::Freewheel }
}

#[test]
fn the_constants_are_those_of_a_16_bit_stick() {
    assert_eq!(MAX_MAGNITUDE, 32_767);
    assert_eq!(GRIP_THRESHOLD, 920_000);
}

#[test]
fn full_deflection_along_one_axis_has_magnitude_one() {
    assert_eq!(frame(32_767, 0).analyze(0), (0, 1_000_000, State::Gripped));
    assert_eq!(frame(0, 32_767).analyze(1_570_796), (1_570_796, 1_000_000, State::Gripped));
    assert_eq!(frame(-32_767, 0).analyze(3_141_593), (3_141_593, 1_000_000, State::Gripped));
    assert_eq!(frame(0, -32_767).analyze(-1_570_796), (-1_570_796, 1_000_000, State::Gripped));
}

#[test]
fn full_deflection_along_the_diagonal_exceeds_one() {
    assert_eq!(frame(32_767, 32_767).analyze(785_398), (785_398, 1_414_213, State::Gripped));
}

#[test]
fn the_origin_is_free_and_has_angle_zero() {
    assert_eq!(frame(0, 0).analyze(0), (0, 0, State::Freewheel));
    assert_eq!(frame(0, 0).analyze(1_234_567), (0, 0, State::Freewheel));
    assert_eq!(frame(0, 1).analyze(1_234_567).0, 1_234_567);
    assert_eq!(frame(1, 0).analyze(-5).0, -5);
}

#[test]
fn the_grip_threshold_is_exclusive_and_exact() {
    // 0.92 * 32767 = 30145.64: the first gripped sample along an axis is 30146.
    assert_eq!(frame(30_145, 0).analyze(0), (0, 919_980, State::Freewheel));
    assert_eq!(frame(30_146, 0).analyze(0), (0, 920_010, State::Gripped));
    assert_eq!(frame(0, -30_145).analyze(0).2, State::Freewheel);
    assert_eq!(frame(0, -30_146).analyze(0).2, State::Gripped);
    // 21316^2 + 21316^2 = 908743712 is below (0.92 * 32767)^2 = 908759611.0096,
    // 21317^2 + 21316^2 = 908786345 is above it.
    assert_eq!(frame(21_316, 21_316).analyze(0).2, State::Freewheel);
    assert_eq!(frame(21_317, 21_316).analyze(0).2, State::Gripped);
}

#[test]
fn the_state_stored_in_the_frame_is_not_read() {
    let gripped = Frame { x: 0, y: 0, state: State::Gripped };
    assert_eq!(gripped.analyze(0).2, State::Freewheel);
    let free = Frame { x: 32_767, y: 0, state: State::Freewheel };
    assert_eq!(free.analyze(0).2, State::Gripped);
}

#[test]
fn magnitude_and_state_follow_the_formula() {
    let mut x: i32 = -33_000;
    while x <= 33_000 {
        let mut y: i32 = -33_000;
        while y <= 33_000 {
            let (_, magnitude, state) = frame(x, y).analyze(0);
            let squared = (x as i128 * x as i128 + y as i128 * y as i128) as u128
                * 1_000_000_000_000;
            let low = magnitude as u128 * 32_767;
            let high = (magnitude as u128 + 1) * 32_767;
            assert!(low * low <= squared && squared < high * high, "x = {}, y = {}", x, y);
            let real = ((x as f64).powi(2) + (y as f64).powi(2)).sqrt() / 32_767.0;
            assert!((magnitude as f64 / 1e6 - real).abs() < 1.1e-6);
            let expected = if real > 0.92 { State::Gripped } else { State::Freewheel };
            assert_eq!(state, expected, "x = {}, y = {}", x, y);
            y += 1_499;
        }
        x += 1_501;
    }
}

#[test]
fn analyze_takes_the_ends_of_the_range() {
    assert_eq!(frame(i32::MIN, i32::MIN).analyze(7), (7, 92_684_728_537, State::Gripped));
    assert_eq!(frame(i32::MAX, i32::MIN).analyze(7).2, State::Gripped);
    assert_eq!(frame(i32::MAX, 0).analyze(7).1, 65_538_000_030);
}

#[test]
fn resolve_stores_the_state() {
    let mut f = frame(32_767, 0);
    assert_eq!(f.resolve(12), (12, 1_000_000));
    assert_eq!(f, Frame { x: 32_767, y: 0, state: State::Gripped });
    let mut g = Frame { x: 5, y: -5, state: State::Gripped };
    assert_eq!(g.resolve(-785_398), (-785_398, 215));
    assert_eq!(g, Frame { x: 5, y: -5, state: State::Freewheel });
}

#[test]
fn the_default_frame_is_at_rest() {
    assert_eq!(Frame::default(), Frame { x: 0, y: 0, state: State::Freewheel });
}

#[test]
fn the_default_processed_frame_has_no_angle() {
    let p = ProcessedFrame::default();
    assert_eq!(p.inner, Frame::default());
    assert_eq!(p.analog_angle, None);
    assert_eq!(p.analog_magnitude, 0);
    assert_eq!(p.state(), State::Freewheel);
}

#[test]
fn a_processed_frame_holds_the_analysis() {
    let p = ProcessedFrame::from_frame(frame(32_269, 5_690), 174_536);
    assert_eq!(p.inner, Frame { x: 32_269, y: 5_690, state: State::Gripped });
    assert_eq!(p.analog_angle, Some(174_536));
    assert_eq!(p.analog_magnitude, 999_994);
    assert_eq!(p.state(), State::Gripped);
    let q = ProcessedFrame::from_frame(Frame { x: 0, y: 0, state: State::Gripped }, 99);
    assert_eq!(q.inner, Frame::default());
    assert_eq!(q.analog_angle, Some(0));
    assert_eq!(q.analog_magnitude, 0);
}

#[test]
fn a_processed_frame_prints_on_one_line() {
    let p = ProcessedFrame::from_frame(frame(32_269, 5_690), 174_536);
    assert_eq!(
        p.dbg_string(),
        "x:    32269, y:     5690, analog_angle: 10.000175, analog_magnitude: 0.999994, \
         state: Gripped"
    );
    let q = ProcessedFrame::from_frame(frame(-5, 0), -3_141_593);
    assert_eq!(
        q.dbg_string(),
        "x:       -5, y:        0, analog_angle: -180.000000, analog_magnitude: 0.000152, \
         state: Freewheel"
    );
}

#[test]
fn a_frame_without_an_angle_prints_it_as_undefined() {
    assert_eq!(
        ProcessedFrame::default().dbg_string(),
        "x:        0, y:        0, analog_angle:  Undef. , analog_magnitude: 0.000000, \
         state: Freewheel"
    );
}

#[test]
fn long_numbers_are_printed_in_full() {
    let p = ProcessedFrame::from_frame(frame(i32::MIN, i32::MIN), i64::MIN);
    assert_eq!(
        p.dbg_string(),
        "x: -2147483648, y: -2147483648, analog_angle: -528460232319673.377627, \
         analog_magnitude: 92684.728537, state: Gripped"
    );
    let q = ProcessedFrame::from_frame(frame(1, 1), 1);
    assert_eq!(
        q.dbg_string(),
        "x:        1, y:        1, analog_angle: 0.000057, analog_magnitude: 0.000043, \
         state: Freewheel"
    );
}

#[test]
fn the_print_has_the_shape_of_a_formatted_line() {
    let p = ProcessedFrame::from_frame(frame(0, 32_767), 1_570_796);
    let expected = format!(
        "x: {: >8}, y: {: >8}, analog_angle: {: >8.6}, analog_magnitude: {: >8.6}, state: {:?}",
        0, 32_767, 89.999971_f64, 1.0_f64, State::Gripped
    );
    assert_eq!(p.dbg_string(), expected);
}
