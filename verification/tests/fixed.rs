use stick_wheel::fixed::{isqrt, lerp, ONE};

#[test]
fn lerp_reaches_both_ends() {
    assert_eq!(lerp(10, 20, 0), 10);
    assert_eq!(lerp(10, 20, ONE), 20);
    assert_eq!(lerp(-7, 9, 0), -7);
    assert_eq!(lerp(-7, 9, ONE), 9);
}

#[test]
fn lerp_blends_in_parts_per_million() {
    assert_eq!(lerp(1_000, 0, 200_000), 800);
    assert_eq!(lerp(0, 1_000, 250_000), 250);
    assert_eq!(lerp(100, 200, 500_000), 150);
    assert_eq!(lerp(-100, 100, 750_000), 50);
}

#[test]
fn lerp_rounds_toward_zero() {
    assert_eq!(lerp(1_001, 0, 200_000), 800);
    assert_eq!(lerp(-1_001, 0, 200_000), -800);
    assert_eq!(lerp(3, 0, 500_000), 1);
    assert_eq!(lerp(-3, 0, 500_000), -1);
    assert_eq!(lerp(1, 0, 1), 0);
    assert_eq!(lerp(-1, 0, 1), 0);
}

#[test]
fn lerp_limits_the_factor_to_one() {
    assert_eq!(lerp(10, 20, ONE + 1), 20);
    assert_eq!(lerp(10, 20, u64::MAX), 20);
}

#[test]
fn lerp_takes_the_ends_of_the_range() {
    assert_eq!(lerp(i64::MIN, i64::MAX, 0), i64::MIN);
    assert_eq!(lerp(i64::MIN, i64::MAX, ONE), i64::MAX);
    assert_eq!(lerp(i64::MAX, i64::MAX, 500_000), i64::MAX);
    assert_eq!(lerp(i64::MIN, i64::MIN, 500_000), i64::MIN);
    assert_eq!(lerp(i64::MIN, i64::MAX, 500_000), 0);
}

#[test]
fn isqrt_rounds_down() {
    let expected: [(u128, u64); 12] = [
        (0, 0),
        (1, 1),
        (2, 1),
        (3, 1),
        (4, 2),
        (8, 2),
        (9, 3),
        (15, 3),
        (16, 4),
        (999_999, 999),
        (1_000_000, 1_000),
        (1_073_676_289, 32_767),
    ];
    for (n, r) in expected {
        assert_eq!(isqrt(n), r, "n = {}", n);
    }
}

#[test]
fn isqrt_takes_the_largest_numbers() {
    assert_eq!(isqrt(u128::MAX), u64::MAX);
    let r = u64::MAX as u128;
    assert_eq!(isqrt(r * r), u64::MAX);
    assert_eq!(isqrt(r * r - 1), u64::MAX - 1);
}

#[test]
fn isqrt_brackets_its_argument() {
    let mut n: u128 = 0;
    while n < 5_000 {
        let r = isqrt(n) as u128;
        assert!(r * r <= n && n < (r + 1) * (r + 1));
        n += 1;
    }
    let mut n: u128 = 1;
    while n < u128::MAX / 7 {
        let r = isqrt(n) as u128;
        assert!(r * r <= n && n < (r + 1) * (r + 1));
        n = n * 7 + 3;
    }
}
