use amm_sim::fixed_point::{find_reserve_target, Wide, SCALE};

#[test]
fn scale_is_a_billion() {
    assert_eq!(SCALE, 1_000_000_000);
}

#[test]
fn wide_product_is_exact() {
    let p = Wide::product(0, 0);
    assert_eq!((p.hi, p.lo), (0, 0));
    let p = Wide::product(u128::MAX, 0);
    assert_eq!((p.hi, p.lo), (0, 0));
    let p = Wide::product(7, 6);
    assert_eq!((p.hi, p.lo), (0, 42));
    let p = Wide::product(1 << 64, 3);
    assert_eq!((p.hi, p.lo), (3, 0));
    let p = Wide::product(u64::MAX as u128, u64::MAX);
    assert_eq!((p.hi, p.lo), (u64::MAX as u128 - 1, 1));
    let p = Wide::product(12_345_678_901_234_567_890_123_456_789, 9_876_543_210);
    assert_eq!((p.hi, p.lo), (6_609_981_178_120_636_535, 4_819_264_659_768_462_130));
    let p = Wide::product(u128::MAX, u64::MAX);
    assert_eq!((p.hi, p.lo), (340_282_366_920_938_463_444_927_863_358_058_659_839, 1));
}

#[test]
fn wide_values_compare_as_integers() {
    let small = Wide { hi: 1, lo: u64::MAX };
    let large = Wide { hi: 2, lo: 0 };
    assert!(small.at_most(&large));
    assert!(!large.at_most(&small));
    assert!(small.at_most(&small));
    let a = Wide { hi: 5, lo: 7 };
    let b = Wide { hi: 5, lo: 8 };
    assert!(a.at_most(&b));
    assert!(!b.at_most(&a));
    assert!(Wide::product(3, 4).at_most(&Wide::product(2, 6)));
    assert!(!Wide::product(u128::MAX, 2).at_most(&Wide::product(u128::MAX, 1)));
}

#[test]
fn reserve_target_is_the_integer_square_root() {
    // sqrt(3 * 5) = 3.87..
    assert_eq!(find_reserve_target(3, 5, SCALE, SCALE), 3);
    assert_eq!(find_reserve_target(10, 10, SCALE, SCALE), 10);
    assert_eq!(find_reserve_target(1 << 40, 1 << 40, SCALE, SCALE), 1 << 40);
    // One unit below a perfect square.
    assert_eq!(find_reserve_target(4, 4, 1, 1), 4);
    assert_eq!(find_reserve_target(3, 5, 1, 1), 3);
    assert_eq!(find_reserve_target(5, 5, 1, 1), 5);
    assert_eq!(find_reserve_target(4, 6, 1, 1), 4);
    assert_eq!(find_reserve_target(123_456_789, 987_654_321, SCALE + 3_000_000, 1_234_567_890), 314_740_732);
    assert_eq!(
        find_reserve_target(1000 * SCALE, 1000 * SCALE, SCALE + 2_500_000, 1_100_000_000),
        954_653_673_519
    );
    assert_eq!(
        find_reserve_target(1000 * SCALE, 1000 * SCALE, SCALE - 2_500_000, 900_000_000),
        1_052_774_113_156
    );
}

#[test]
fn reserve_target_is_zero_for_empty_reserves_or_no_multiplier() {
    assert_eq!(find_reserve_target(0, 0, SCALE, SCALE), 0);
    assert_eq!(find_reserve_target(7, 0, SCALE, SCALE), 0);
    assert_eq!(find_reserve_target(0, 7, SCALE, SCALE), 0);
    assert_eq!(find_reserve_target(7, 7, 0, SCALE), 0);
    assert_eq!(find_reserve_target(1, 1, 1, 2), 0);
}

#[test]
fn reserve_target_is_capped_at_the_largest_amount() {
    assert_eq!(find_reserve_target(1, 1, 1, 0), u64::MAX);
    assert_eq!(find_reserve_target(0, 0, 0, 0), u64::MAX);
    assert_eq!(find_reserve_target(u64::MAX, u64::MAX, u64::MAX, 1), u64::MAX);
    assert_eq!(find_reserve_target(u64::MAX, u64::MAX, u64::MAX, u64::MAX), u64::MAX);
    assert_eq!(find_reserve_target(u64::MAX, u64::MAX, 1, u64::MAX), 4_294_967_295);
}

fn next_random(state: &mut u64) -> u64 {
    *state = state.wrapping_mul(6_364_136_223_846_793_005).wrapping_add(1_442_695_040_888_963_407);
    *state ^ (*state >> 29)
}

fn plain_square_root(n: u128) -> u128 {
    let mut low: u128 = 0;
    let mut high: u128 = 1 << 64;
    while high - low > 1 {
        let mid = low + (high - low) / 2;
        if mid * mid <= n {
            low = mid;
        } else {
            high = mid;
        }
    }
    low
}

#[test]
fn wide_product_agrees_with_plain_multiplication() {
    let mut state = 17;
    for _ in 0..2000 {
        let a = next_random(&mut state) as u128;
        let b = next_random(&mut state);
        let p = Wide::product(a, b);
        let plain = a * b as u128;
        assert_eq!((p.hi, p.lo), (plain >> 64, plain as u64));
    }
}

#[test]
fn reserve_target_agrees_with_a_plain_square_root() {
    let mut state = 29;
    for _ in 0..2000 {
        let rx = next_random(&mut state) >> 24;
        let ry = next_random(&mut state) >> 24;
        let multiplier = SCALE + next_random(&mut state) % SCALE;
        let price = 1 + next_random(&mut state) % (4 * SCALE);
        // rx * ry * multiplier < 2^40 * 2^40 * 2^31 fits in 128 bits.
        let quotient = rx as u128 * ry as u128 * multiplier as u128 / price as u128;
        let expected = plain_square_root(quotient).min(u64::MAX as u128) as u64;
        assert_eq!(find_reserve_target(rx, ry, multiplier, price), expected);
    }
}
