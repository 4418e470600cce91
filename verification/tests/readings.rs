use serde_json::Value;
use show_weather_card::decimal::decimal_text;
use show_weather_card::reading::{
    first_number, matrix_safe_number, one_decimal_text, round_to_integer, Reading,
};

fn reading(value: f64) -> Reading {
    Reading { bits: value.to_bits() }
}

fn check(bits: u64) {
    let value = f64::from_bits(bits);
    assert_eq!(round_to_integer(Reading { bits }), value.round() as i64, "{:e}", value);
    assert_eq!(one_decimal_text(Reading { bits }), format!("{:.1}", value), "{:e}", value);
}

/// The next of a fixed sequence of numbers that look random.
fn next(seed: &mut u64) -> u64 {
    *seed = seed.wrapping_mul(6364136223846793005).wrapping_add(1442695040888963407);
    let mixed = *seed ^ (*seed >> 29);
    mixed.wrapping_mul(0xbf58476d1ce4e5b9) ^ (mixed >> 32)
}

#[test]
fn halves_go_away_from_zero() {
    assert_eq!(round_to_integer(reading(0.5)), 1);
    assert_eq!(round_to_integer(reading(-0.5)), -1);
    assert_eq!(round_to_integer(reading(2.5)), 3);
    assert_eq!(round_to_integer(reading(-2.5)), -3);
    assert_eq!(round_to_integer(reading(0.49999999999999994)), 0);
    assert_eq!(round_to_integer(reading(-0.49999999999999994)), 0);
    assert_eq!(round_to_integer(reading(4503599627370495.5)), 4503599627370496);
}

#[test]
fn integers_keep_their_value() {
    for value in [0.0, -0.0, 1.0, -1.0, 22.0, 4503599627370497.0, 9007199254740993.0] {
        assert_eq!(round_to_integer(reading(value)), value as i64);
    }
}

#[test]
fn what_does_not_fit_is_cut_off() {
    assert_eq!(round_to_integer(reading(f64::INFINITY)), i64::MAX);
    assert_eq!(round_to_integer(reading(f64::NEG_INFINITY)), i64::MIN);
    assert_eq!(round_to_integer(reading(1e300)), i64::MAX);
    assert_eq!(round_to_integer(reading(-1e300)), i64::MIN);
    assert_eq!(round_to_integer(reading(9223372036854775807.0)), i64::MAX);
    assert_eq!(round_to_integer(reading(-9223372036854775808.0)), i64::MIN);
    assert_eq!(round_to_integer(reading(9223372036854774784.0)), 9223372036854774784);
    assert_eq!(round_to_integer(reading(f64::NAN)), 0);
    assert_eq!(round_to_integer(reading(-f64::NAN)), 0);
}

#[test]
fn rounding_is_symmetric_around_zero() {
    for value in [0.0, 0.3, 0.5, 1.5, 17.25, 1e17, 1e300] {
        let up = round_to_integer(reading(value));
        let down = round_to_integer(reading(-value));
        assert!(down == -up || (down == i64::MIN && up == i64::MAX));
    }
}

#[test]
fn one_decimal_is_the_nearest_tenth() {
    assert_eq!(one_decimal_text(reading(22.0)), "22.0");
    assert_eq!(one_decimal_text(reading(16.34)), "16.3");
    assert_eq!(one_decimal_text(reading(16.36)), "16.4");
    assert_eq!(one_decimal_text(reading(-3.25)), "-3.2");
    assert_eq!(one_decimal_text(reading(-3.75)), "-3.8");
    assert_eq!(one_decimal_text(reading(0.25)), "0.2");
    assert_eq!(one_decimal_text(reading(0.35)), "0.3");
    assert_eq!(one_decimal_text(reading(9.97)), "10.0");
    assert_eq!(one_decimal_text(reading(-0.0)), "-0.0");
    assert_eq!(one_decimal_text(reading(-0.04)), "-0.0");
    assert_eq!(one_decimal_text(reading(f64::NAN)), "NaN");
    assert_eq!(one_decimal_text(reading(f64::INFINITY)), "inf");
    assert_eq!(one_decimal_text(reading(f64::NEG_INFINITY)), "-inf");
}

#[test]
fn readings_agree_with_floating_point_on_weather_values() {
    for hundredths in -12000i64..12000 {
        check((hundredths as f64 / 100.0).to_bits());
        check((hundredths as f64 / 64.0).to_bits());
    }
}

#[test]
fn readings_agree_with_floating_point_around_every_exponent() {
    for exponent in 0u64..2048 {
        for fraction in [0u64, 1, 0x8_0000_0000_0000, 0x8_0000_0000_0001, 0xf_ffff_ffff_ffff] {
            let bits = exponent << 52 | fraction;
            check(bits);
            check(bits | 1 << 63);
        }
    }
}

#[test]
fn readings_agree_with_floating_point_on_mixed_bits() {
    let mut seed: u64 = 7;
    for _ in 0..2000 {
        check(next(&mut seed));
    }
    for _ in 0..20000 {
        // Exponents around zero, where rounding has the most to do.
        let bits = next(&mut seed);
        let exponent = 1000 + (bits >> 52) % 100;
        check((bits & 0x800f_ffff_ffff_ffff) | exponent << 52);
    }
}

#[test]
fn decimal_notation_of_scaled_numbers() {
    assert_eq!(decimal_text(0, 0), "0");
    assert_eq!(decimal_text(0, 100), "0");
    assert_eq!(decimal_text(7, 0), "7");
    assert_eq!(decimal_text(10, 0), "10");
    assert_eq!(decimal_text(u64::MAX, 0), "18446744073709551615");
    assert_eq!(decimal_text(1, 64), "18446744073709551616");
    assert_eq!(decimal_text(5, 1), "10");
    assert_eq!(decimal_text(1, 127), (1u128 << 127).to_string());
    assert_eq!(decimal_text(1, 128), "340282366920938463463374607431768211456");
}

#[test]
fn the_first_number_of_a_list() {
    assert_eq!(first_number(&[]), None);
    assert_eq!(first_number(&[reading(23.5)]), Some(Value::from(24)));
    assert_eq!(first_number(&[reading(-0.4), reading(9.0)]), Some(Value::from(0)));
    assert_eq!(matrix_safe_number(reading(-0.4)), Value::from(0));
}

#[test]
fn greater_readings_have_greater_integers() {
    let values = [
        f64::NEG_INFINITY,
        -1e300,
        -2.5,
        -2.4999,
        -0.5,
        -0.0,
        0.0,
        5e-324,
        0.49999999999999994,
        0.5,
        1.4999,
        1.5,
        4503599627370495.5,
        9007199254740993.0,
        1e19,
        f64::INFINITY,
    ];
    for pair in values.windows(2) {
        assert!(round_to_integer(reading(pair[0])) <= round_to_integer(reading(pair[1])));
    }
}
