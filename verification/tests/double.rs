use demo_processor::double::Double;

fn expected(n: i64) -> u64 {
    (n as f64).to_bits()
}

#[test]
fn small_integers_convert_exactly() {
    assert_eq!(Double::from_i64(0).bits(), 0);
    assert_eq!(Double::from_i64(1).bits(), 0x3ff0_0000_0000_0000);
    assert_eq!(Double::from_i64(-1).bits(), 0xbff0_0000_0000_0000);
    assert_eq!(Double::from_i64(2).bits(), 0x4000_0000_0000_0000);
    assert_eq!(Double::from_i64(3).bits(), 0x4008_0000_0000_0000);
    assert_eq!(Double::from_i64(100).bits(), 0x4059_0000_0000_0000);
    for n in -5000i64..=5000 {
        assert_eq!(Double::from_i64(n).bits(), expected(n), "{}", n);
        assert_eq!(f64::from_bits(Double::from_i64(n).bits()), n as f64);
    }
}

#[test]
fn integers_of_fifty_three_bits_are_exact() {
    let limit: i64 = 1 << 53;
    for n in [limit - 2, limit - 1, limit, -limit, -(limit - 1), (1 << 52) + 1, (1 << 52) - 1] {
        let d = f64::from_bits(Double::from_i64(n).bits());
        assert_eq!(d as i64, n);
        assert_eq!(Double::from_i64(n).bits(), expected(n));
    }
}

#[test]
fn longer_integers_round_to_nearest_with_ties_to_even() {
    let base: i64 = 1 << 53;
    // Between two doubles that are 2 apart: a tie goes to the even significand.
    assert_eq!(f64::from_bits(Double::from_i64(base + 1).bits()), 9007199254740992.0);
    assert_eq!(f64::from_bits(Double::from_i64(base + 2).bits()), 9007199254740994.0);
    assert_eq!(f64::from_bits(Double::from_i64(base + 3).bits()), 9007199254740996.0);
    assert_eq!(f64::from_bits(Double::from_i64(-(base + 3)).bits()), -9007199254740996.0);
    // Doubles that are 4 apart: below, at and above the half.
    let wide: i64 = 1 << 54;
    assert_eq!(Double::from_i64(wide + 1).bits(), expected(wide));
    assert_eq!(Double::from_i64(wide + 2).bits(), expected(wide));
    assert_eq!(Double::from_i64(wide + 3).bits(), expected(wide + 4));
    assert_eq!(Double::from_i64(wide + 6).bits(), expected(wide + 8));
    for n in (base - 64)..(base + 64) {
        assert_eq!(Double::from_i64(n).bits(), expected(n), "{}", n);
        assert_eq!(Double::from_i64(-n).bits(), expected(-n), "{}", -n);
    }
    for n in (wide - 64)..(wide + 64) {
        assert_eq!(Double::from_i64(n).bits(), expected(n), "{}", n);
    }
}

#[test]
fn rounding_can_carry_into_the_exponent() {
    // All ones: rounds up to the next power of two.
    assert_eq!(Double::from_i64(i64::MAX).bits(), 0x43e0_0000_0000_0000);
    assert_eq!(f64::from_bits(Double::from_i64(i64::MAX).bits()), 9223372036854775808.0);
    let ones: i64 = (1 << 54) - 1;
    assert_eq!(Double::from_i64(ones).bits(), expected(1 << 54));
    assert_eq!(Double::from_i64(i64::MAX - 511).bits(), expected(i64::MAX - 511));
    assert_eq!(Double::from_i64(i64::MAX - 512).bits(), expected(i64::MAX - 512));
    assert_eq!(Double::from_i64(i64::MAX - 1023).bits(), expected(i64::MAX - 1023));
}

#[test]
fn extremes_convert_like_the_machine() {
    assert_eq!(Double::from_i64(i64::MIN).bits(), 0xc3e0_0000_0000_0000);
    assert_eq!(Double::from_i64(i64::MIN).bits(), expected(i64::MIN));
    assert_eq!(Double::from_i64(i64::MIN + 1).bits(), expected(i64::MIN + 1));
    assert_eq!(Double::from_i64(i64::MAX).bits(), expected(i64::MAX));
}

#[test]
fn every_power_of_two_and_its_neighbours() {
    for p in 0..63 {
        let n: i64 = 1 << p;
        for k in [n - 1, n, n + 1, n + (n >> 1), -(n - 1), -n, -(n + 1)] {
            assert_eq!(Double::from_i64(k).bits(), expected(k), "{}", k);
        }
    }
}

#[test]
fn scattered_integers_convert_like_the_machine() {
    let mut state: u64 = 0x9e37_79b9_7f4a_7c15;
    for _ in 0..20_000 {
        state ^= state << 13;
        state ^= state >> 7;
        state ^= state << 17;
        let n = state as i64;
        assert_eq!(Double::from_i64(n).bits(), expected(n), "{}", n);
        let shifted = n >> (state % 64);
        assert_eq!(Double::from_i64(shifted).bits(), expected(shifted), "{}", shifted);
    }
}

#[test]
fn bit_patterns_round_trip() {
    for bits in [0u64, 1, 0x7ff0_0000_0000_0000, 0xfff8_0000_0000_0001, u64::MAX] {
        assert_eq!(Double::from_bits(bits).bits(), bits);
    }
    assert_eq!(Double::from_bits(7), Double::from_bits(7));
    assert_ne!(Double::from_bits(0), Double::from_bits(0x8000_0000_0000_0000));
}
