use std::str::FromStr;

use moneta::constants::RoundingMode;
use moneta::money::types::BigDecimal;

#[test]
fn test_from_str() {
    assert_eq!(BigDecimal::from_str("123").unwrap().to_string(), "123");
    assert_eq!(BigDecimal::from_str("123.45").unwrap().to_string(), "123.45");
    assert_eq!(BigDecimal::from_str("-123.45").unwrap().to_string(), "-123.45");
    assert_eq!(BigDecimal::from_str("0.001").unwrap().to_string(), "0.001");
    assert_eq!(BigDecimal::from_str("-0.001").unwrap().to_string(), "-0.001");
    assert_eq!(BigDecimal::from_str("0.0").unwrap().to_string(), "0.0");
    assert_eq!(BigDecimal::from_str("-0.0").unwrap().to_string(), "0.0");
    assert_eq!(BigDecimal::from_str("0").unwrap().to_string(), "0");
    assert_eq!(BigDecimal::from_str("-0").unwrap().to_string(), "0");

    let neg_small = BigDecimal::from_str("-0.001").unwrap();
    assert!(neg_small.is_negative());
    assert_eq!(neg_small.unscaled_value(), -1);
    assert_eq!(neg_small.scale(), 3);

    let pos_small = BigDecimal::from_str("0.001").unwrap();
    assert!(pos_small.is_positive());
    assert_eq!(pos_small.unscaled_value(), 1);
    assert_eq!(pos_small.scale(), 3);

    assert!(BigDecimal::from_str("").is_err());
    assert!(BigDecimal::from_str("abc").is_err());
    assert!(BigDecimal::from_str("1.2.3").is_err());
}

#[test]
fn test_negative_zero_parsing() {
    let test_cases = vec![
        ("0.001", 1, 3, false),
        ("-0.001", -1, 3, true),
        ("0.123", 123, 3, false),
        ("-0.123", -123, 3, true),
        ("12.34", 1234, 2, false),
        ("-12.34", -1234, 2, true),
    ];

    for (input, expected_unscaled, expected_scale, should_be_negative) in test_cases {
        let bd = BigDecimal::from_str(input).unwrap();
        assert_eq!(bd.unscaled_value(), expected_unscaled, "Failed for input: {}", input);
        assert_eq!(bd.scale(), expected_scale, "Failed scale for input: {}", input);
        assert_eq!(bd.is_negative(), should_be_negative, "Failed sign for input: {}", input);
        assert_eq!(bd.to_string(), input, "Failed string representation for input: {}", input);
    }
}

#[test]
fn types_test_display() {
    assert_eq!(BigDecimal::new(12345, 2).to_string(), "123.45");
    assert_eq!(BigDecimal::new(-12345, 2).to_string(), "-123.45");
    assert_eq!(BigDecimal::new(123, 0).to_string(), "123");
    assert_eq!(BigDecimal::new(123, -1).to_string(), "1230");
    assert_eq!(BigDecimal::new(5, 3).to_string(), "0.005");
}

#[test]
fn test_with_scale() {
    let bd = BigDecimal::new(12345, 2); // 123.45

    let bd_scaled = bd.with_scale(4, &RoundingMode::HalfEven);
    assert_eq!(bd_scaled.to_string(), "123.4500");

    let bd_rounded = bd.with_scale(1, &RoundingMode::HalfEven);
    assert_eq!(bd_rounded.to_string(), "123.4");

    let bd_test = BigDecimal::new(12356, 2); // 123.56
    assert_eq!(bd_test.with_scale(1, &RoundingMode::HalfEven).to_string(), "123.6");
    assert_eq!(bd_test.with_scale(1, &RoundingMode::Floor).to_string(), "123.5");
    assert_eq!(bd_test.with_scale(1, &RoundingMode::Ceiling).to_string(), "123.6");
}

#[test]
fn test_arithmetic_operations() {
    let bd1 = BigDecimal::from_str("123.45").unwrap();
    let bd2 = BigDecimal::from_str("67.89").unwrap();

    let sum = bd1.add(&bd2, &RoundingMode::HalfEven);
    assert_eq!(sum.to_string(), "191.34");

    let diff = bd1.subtract(&bd2, &RoundingMode::HalfEven);
    assert_eq!(diff.to_string(), "55.56");

    // 123.45 * 67.89 = 8381.0205, rounded to 2 decimals
    let product = bd1.multiply(&bd2, &RoundingMode::HalfEven, 2);
    assert_eq!(product.to_string(), "8381.02");

    // 123.45 / 67.89 = 1.8183..., rounded to 2 decimals
    let quotient = bd1.divide(&bd2, &RoundingMode::HalfEven, 2).unwrap();
    assert_eq!(quotient.to_string(), "1.82");
}

#[test]
fn test_comparison() {
    let bd1 = BigDecimal::from_str("123.45").unwrap();
    let bd2 = BigDecimal::from_str("123.450").unwrap();
    let bd3 = BigDecimal::from_str("123.46").unwrap();

    assert_eq!(bd1, bd2);
    assert!(bd1 < bd3);
    assert!(bd3 > bd1);
}

#[test]
fn test_sign_operations() {
    let bd_pos = BigDecimal::from_str("123.45").unwrap();
    let bd_neg = BigDecimal::from_str("-123.45").unwrap();
    let bd_zero = BigDecimal::zero();

    assert_eq!(bd_pos.signum(), 1);
    assert_eq!(bd_neg.signum(), -1);
    assert_eq!(bd_zero.signum(), 0);

    assert!(bd_pos.is_positive());
    assert!(bd_neg.is_negative());
    assert!(bd_zero.is_zero());

    assert_eq!(bd_pos.negate(), bd_neg);
    assert_eq!(bd_neg.abs(), bd_pos);
}

#[test]
fn test_rounding_modes() {
    let bd = BigDecimal::new(12355, 3); // 12.355

    assert_eq!(bd.with_scale(2, &RoundingMode::HalfEven).to_string(), "12.36");
    assert_eq!(bd.with_scale(2, &RoundingMode::HalfUp).to_string(), "12.36");
    assert_eq!(bd.with_scale(2, &RoundingMode::HalfDown).to_string(), "12.35");
    assert_eq!(bd.with_scale(2, &RoundingMode::Up).to_string(), "12.36");
    assert_eq!(bd.with_scale(2, &RoundingMode::Down).to_string(), "12.35");
    assert_eq!(bd.with_scale(2, &RoundingMode::Ceiling).to_string(), "12.36");
    assert_eq!(bd.with_scale(2, &RoundingMode::Floor).to_string(), "12.35");
}

#[test]
fn test_negative_rounding() {
    let bd = BigDecimal::new(-12355, 3); // -12.355

    assert_eq!(bd.with_scale(2, &RoundingMode::HalfEven).to_string(), "-12.36");
    assert_eq!(bd.with_scale(2, &RoundingMode::Ceiling).to_string(), "-12.35");
    assert_eq!(bd.with_scale(2, &RoundingMode::Floor).to_string(), "-12.36");
    assert_eq!(bd.with_scale(2, &RoundingMode::Up).to_string(), "-12.36");
    assert_eq!(bd.with_scale(2, &RoundingMode::Down).to_string(), "-12.35");
}

#[test]
fn test_division_by_zero() {
    let bd1 = BigDecimal::from_str("123.45").unwrap();
    let bd_zero = BigDecimal::zero();

    assert!(bd1.divide(&bd_zero, &RoundingMode::HalfEven, 2).is_err());
}

#[test]
fn test_unnecessary_rounding_no_panic() {
    let bd = BigDecimal::new(12350, 3); // 12.350
    let result = bd.with_scale(2, &RoundingMode::Unnecessary);
    assert_eq!(result.to_string(), "12.35");
}

#[test]
fn test_edge_cases() {
    let zero = BigDecimal::zero();
    assert_eq!(zero.to_string(), "0");
    assert!(zero.is_zero());

    let one = BigDecimal::one();
    assert_eq!(one.to_string(), "1");

    let small = BigDecimal::new(1, 10);
    assert_eq!(small.to_string(), "0.0000000001");

    let bd1 = BigDecimal::new(123, 1); // 12.3
    let bd2 = BigDecimal::new(4567, 3); // 4.567
    let sum = bd1.add(&bd2, &RoundingMode::HalfEven);
    assert_eq!(sum.to_string(), "16.867");
}

#[test]
fn test_precision_arithmetic() {
    let bd1 = BigDecimal::from_str("1.23456789").unwrap();
    let bd2 = BigDecimal::from_str("9.87654321").unwrap();

    let sum = bd1.add(&bd2, &RoundingMode::HalfEven);
    assert_eq!(sum.to_string(), "11.11111110");

    let product = bd1.multiply(&bd2, &RoundingMode::HalfEven, 8);
    assert_eq!(product.to_string(), "12.19326311");
}

#[test]
fn test_scale_preservation() {
    let bd1 = BigDecimal::new(12345, 2); // 123.45
    let bd2 = BigDecimal::new(6789, 3); // 6.789

    let sum = bd1.add(&bd2, &RoundingMode::HalfEven);
    assert_eq!(sum.scale(), 3);
    assert_eq!(sum.to_string(), "130.239");

    // 123.45 * 6.789 = 838.10205; the tie at four places rounds to the
    // even quotient under banker's rounding.
    let product = bd1.multiply(&bd2, &RoundingMode::HalfEven, 4);
    assert_eq!(product.scale(), 4);
    assert_eq!(product.to_string(), "838.1020");
}

#[test]
fn test_try_with_scale_reports_limits() {
    let bd = BigDecimal::new(12355, 3);
    // An inexact rescale under Unnecessary is reported, not performed.
    assert!(bd.try_with_scale(2, &RoundingMode::Unnecessary).is_none());
    let ok = bd.try_with_scale(2, &RoundingMode::HalfEven).unwrap();
    assert_eq!(ok.to_string(), "12.36");
    // A factor beyond the 128-bit range is reported.
    assert!(bd.try_with_scale(100, &RoundingMode::HalfEven).is_none());
}

#[test]
fn test_parse_rejects_bad_shapes() {
    assert!(BigDecimal::from_str("1.").is_err());
    assert!(BigDecimal::from_str(".5").is_err());
    assert!(BigDecimal::from_str("-").is_err());
    assert!(BigDecimal::from_str("+5").is_err());
    assert!(BigDecimal::from_str("1.2a").is_err());
    assert!(BigDecimal::from_str("170141183460469231731687303715884105728").is_err());
    assert_eq!(
        BigDecimal::from_str("170141183460469231731687303715884105727").unwrap().unscaled_value(),
        i128::MAX
    );
    assert_eq!(
        BigDecimal::from_str("-170141183460469231731687303715884105728").unwrap().unscaled_value(),
        i128::MIN
    );
}

#[test]
fn test_format_parse_round_trip_cases() {
    // parse(format(d)) == d for nonnegative scales, exactly.
    for (u, s) in [(12355i128, 3i32), (-7i128, 5i32), (0i128, 4i32), (987i128, 0i32)] {
        let d = BigDecimal::new(u, s);
        let back = BigDecimal::from_str(&d.to_string()).unwrap();
        assert_eq!(back.unscaled_value(), u);
        assert_eq!(back.scale(), s);
    }
}

#[test]
fn test_rescale_up_then_down_is_exact() {
    // Rescaling up and then back down with Unnecessary agrees with a
    // direct rescale.
    let d = BigDecimal::new(12355, 3);
    let up = d.with_scale(6, &RoundingMode::HalfEven);
    let back = up.with_scale(4, &RoundingMode::Unnecessary);
    assert_eq!(back, d.with_scale(4, &RoundingMode::HalfEven));
    assert_eq!(back.scale(), 4);
}
