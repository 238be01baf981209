use atoma_node::binary64::{truncate_to_u64, ZERO};

fn truncated(value: f64) -> u64 {
    truncate_to_u64(value.to_bits())
}

#[test]
fn zero_pattern_is_positive_zero() {
    assert_eq!(ZERO, 0.0f64.to_bits());
}

#[test]
fn truncation_drops_the_fraction() {
    assert_eq!(truncated(0.0), 0);
    assert_eq!(truncated(0.999), 0);
    assert_eq!(truncated(1.0), 1);
    assert_eq!(truncated(1.5), 1);
    assert_eq!(truncated(2.999_999), 2);
    assert_eq!(truncated(41.7), 41);
    assert_eq!(truncated(1234567.89), 1234567);
}

#[test]
fn truncation_of_negative_values_is_zero() {
    assert_eq!(truncated(-0.0), 0);
    assert_eq!(truncated(-0.5), 0);
    assert_eq!(truncated(-1.0), 0);
    assert_eq!(truncated(-1e300), 0);
    assert_eq!(truncated(f64::NEG_INFINITY), 0);
}

#[test]
fn truncation_of_nan_is_zero() {
    assert_eq!(truncated(f64::NAN), 0);
    assert_eq!(truncate_to_u64(0x7ff0_0000_0000_0001), 0);
    assert_eq!(truncate_to_u64(0xfff8_0000_0000_0000), 0);
}

#[test]
fn truncation_saturates_above_the_range() {
    assert_eq!(truncated(f64::INFINITY), u64::MAX);
    assert_eq!(truncated(1e300), u64::MAX);
    assert_eq!(truncated(18446744073709551616.0), u64::MAX);
    assert_eq!(truncated(f64::MAX), u64::MAX);
}

#[test]
fn truncation_is_exact_for_large_integers() {
    assert_eq!(truncated(4503599627370496.0), 1u64 << 52);
    assert_eq!(truncated(9007199254740992.0), 1u64 << 53);
    assert_eq!(truncated(9223372036854775808.0), 1u64 << 63);
    // the largest double below two to the 64
    assert_eq!(truncated(18446744073709549568.0), 18446744073709549568);
}

#[test]
fn truncation_of_subnormal_values_is_zero() {
    assert_eq!(truncated(f64::MIN_POSITIVE), 0);
    assert_eq!(truncate_to_u64(1), 0);
    assert_eq!(truncate_to_u64(0x000f_ffff_ffff_ffff), 0);
}

#[test]
fn truncation_agrees_with_the_conversion_of_the_language() {
    let mut pattern: u64 = 0x0123_4567_89ab_cdef;
    for _ in 0..200_000 {
        // a linear congruential walk over the patterns
        pattern = pattern
            .wrapping_mul(6364136223846793005)
            .wrapping_add(1442695040888963407);
        let value = f64::from_bits(pattern);
        assert_eq!(truncate_to_u64(pattern), value as u64, "pattern {pattern:#x}");
    }
    for exponent in 0..2048u64 {
        for fraction in [0u64, 1, 0x8_0000_0000_0000, 0xf_ffff_ffff_ffff, 0x5_5555_5555_5555] {
            for sign in [0u64, 1] {
                let pattern = (sign << 63) | (exponent << 52) | fraction;
                let value = f64::from_bits(pattern);
                assert_eq!(truncate_to_u64(pattern), value as u64, "pattern {pattern:#x}");
            }
        }
    }
}
