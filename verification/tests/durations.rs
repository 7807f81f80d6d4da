use download_orchestrator::duration::{format_duration, nearest_whole_second};

fn rounded(seconds: f64) -> u64 {
    nearest_whole_second(seconds.to_bits())
}

#[test]
fn minutes_and_seconds() {
    assert_eq!(format_duration(0), "00:00");
    assert_eq!(format_duration(5), "00:05");
    assert_eq!(format_duration(59), "00:59");
    assert_eq!(format_duration(60), "01:00");
    assert_eq!(format_duration(125), "02:05");
    assert_eq!(format_duration(3599), "59:59");
}

#[test]
fn hours_from_one_hour_on() {
    assert_eq!(format_duration(3600), "01:00:00");
    assert_eq!(format_duration(3661), "01:01:01");
    assert_eq!(format_duration(36_000), "10:00:00");
    assert_eq!(format_duration(86_399), "23:59:59");
}

#[test]
fn hours_take_as_many_digits_as_they_need() {
    assert_eq!(format_duration(360_000), "100:00:00");
    assert_eq!(format_duration(u64::MAX), "5124095576030431:00:15");
}

#[test]
fn powers_of_two_stay() {
    for exponent in 0..64 {
        let power = 1u64 << exponent;
        assert_eq!(rounded(power as f64), power, "2^{}", exponent);
    }
    assert_eq!(rounded(0.25), 0);
    assert_eq!(rounded(0.5f64.powi(60)), 0);
}

#[test]
fn whole_numbers_stay() {
    assert_eq!(rounded(0.0), 0);
    assert_eq!(rounded(1.0), 1);
    assert_eq!(rounded(125.0), 125);
    assert_eq!(rounded(3600.0), 3600);
    assert_eq!(rounded(9_007_199_254_740_992.0), 9_007_199_254_740_992);
}

#[test]
fn fractions_round_to_the_nearest_second() {
    assert_eq!(rounded(0.4), 0);
    assert_eq!(rounded(0.49999999999999994), 0);
    assert_eq!(rounded(0.6), 1);
    assert_eq!(rounded(125.4), 125);
    assert_eq!(rounded(125.6), 126);
    assert_eq!(rounded(213.999), 214);
}

#[test]
fn halves_round_upwards() {
    assert_eq!(rounded(0.5), 1);
    assert_eq!(rounded(1.5), 2);
    assert_eq!(rounded(2.5), 3);
    assert_eq!(rounded(125.5), 126);
}

#[test]
fn negative_numbers_and_non_numbers_give_zero() {
    assert_eq!(rounded(-0.0), 0);
    assert_eq!(rounded(-0.6), 0);
    assert_eq!(rounded(-125.0), 0);
    assert_eq!(rounded(f64::NEG_INFINITY), 0);
    assert_eq!(rounded(f64::NAN), 0);
    assert_eq!(rounded(-f64::NAN), 0);
}

#[test]
fn numbers_beyond_the_range_give_the_largest() {
    assert_eq!(rounded(f64::INFINITY), u64::MAX);
    assert_eq!(rounded(1e300), u64::MAX);
    assert_eq!(rounded(18_446_744_073_709_551_616.0), u64::MAX);
    assert_eq!(rounded(18_446_744_073_709_549_568.0), 18_446_744_073_709_549_568);
}

#[test]
fn tiny_numbers_give_zero() {
    assert_eq!(rounded(f64::MIN_POSITIVE), 0);
    assert_eq!(rounded(5e-324), 0);
    assert_eq!(rounded(1e-10), 0);
}

#[test]
fn rounding_agrees_with_the_standard_library() {
    let mut bits: u64 = 0x9E37_79B9_7F4A_7C15;
    for _ in 0..200_000 {
        bits ^= bits << 13;
        bits ^= bits >> 7;
        bits ^= bits << 17;
        let number = f64::from_bits(bits);
        assert_eq!(nearest_whole_second(bits), number.round() as u64, "{:e}", number);
    }
    for whole in 0u64..5_000 {
        for quarter in 0u64..4 {
            let number = whole as f64 + quarter as f64 * 0.25;
            assert_eq!(rounded(number), number.round() as u64, "{}", number);
        }
    }
}

#[test]
fn rounding_of_fractions_agrees_with_the_standard_library() {
    let mut state: u64 = 0x2545_F491_4F6C_DD1D;
    for _ in 0..200_000 {
        state ^= state << 13;
        state ^= state >> 7;
        state ^= state << 17;
        let unit = (state >> 11) as f64 / 9_007_199_254_740_992.0;
        for scale in [1.0, 60.0, 3600.0, 1e5, 1e12, 1e16, 1e19, 3e19] {
            let number = unit * scale;
            assert_eq!(rounded(number), number.round() as u64, "{:e}", number);
        }
    }
}

#[test]
fn rounding_of_halves_agrees_with_the_standard_library() {
    for exponent in 0..53 {
        let base = (1u64 << exponent) as f64;
        for offset in [-1.5, -1.0, -0.5, 0.0, 0.5, 1.0, 1.5] {
            let number = base + offset;
            assert_eq!(rounded(number), number.round() as u64, "{:e}", number);
        }
    }
}
