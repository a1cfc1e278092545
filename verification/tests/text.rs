use stick_wheel::text::{
    millionths_string, push_decimal, push_digit, push_digits, push_padded, signed_decimal_string,
};

#[test]
fn digits_are_appended_one_by_one() {
    let mut out = String::from("n");
    for d in 0..10 {
        push_digit(&mut out, d);
    }
    assert_eq!(out, "n0123456789");
}

#[test]
fn whole_numbers_have_no_leading_zeros() {
    for n in [0_u128, 1, 9, 10, 11, 99, 100, 1_000_000, 18_446_744_073_709_551_615, u128::MAX] {
        let mut out = String::from("=");
        push_decimal(&mut out, n);
        assert_eq!(out, format!("={}", n));
    }
}

#[test]
fn fixed_digits_keep_their_leading_zeros() {
    let cases: [(u128, usize, &str); 7] = [
        (0, 0, ""),
        (7, 0, ""),
        (0, 3, "000"),
        (7, 3, "007"),
        (123, 3, "123"),
        (1_234, 3, "234"),
        (999_994, 6, "999994"),
    ];
    for (n, width, expected) in cases {
        let mut out = String::new();
        push_digits(&mut out, n, width);
        assert_eq!(out, expected);
    }
}

#[test]
fn short_text_is_padded_on_the_left() {
    let cases =
        [("", 3, "   "), ("ab", 3, " ab"), ("abc", 3, "abc"), ("abcd", 3, "abcd"), ("x", 0, "x")];
    for (text, width, expected) in cases {
        let mut out = String::from(">");
        push_padded(&mut out, text, width);
        assert_eq!(out, format!(">{}", expected));
    }
}

#[test]
fn signed_numbers_carry_a_minus() {
    for v in [0_i64, 1, -1, 32_767, -32_768, i64::MAX, i64::MIN] {
        assert_eq!(signed_decimal_string(v), format!("{}", v));
    }
}

#[test]
fn millionths_have_six_digits_after_the_point() {
    let cases: [(i128, &str); 10] = [
        (0, "0.000000"),
        (1, "0.000001"),
        (-1, "-0.000001"),
        (999_994, "0.999994"),
        (1_000_000, "1.000000"),
        (-1_000_000, "-1.000000"),
        (1_414_213, "1.414213"),
        (-10_000_175, "-10.000175"),
        (92_684_728_537, "92684.728537"),
        (i128::MIN, "-170141183460469231731687303715884.105728"),
    ];
    for (v, expected) in cases {
        assert_eq!(millionths_string(v), expected);
    }
}
