use basset_converter::math::{
    convert_to_basset_decimals, convert_to_denom_decimals, rescale, ConverterError,
};

#[test]
fn test_convert_to_denom_decimals() {
    let a: u128 = 100000000;
    let b: u8 = 4;
    let c: u8 = 6;
    let d = convert_to_denom_decimals(a, b, c).unwrap();
    assert_eq!(d, 10000000000);
}

#[test]
fn test_convert_to_basset_decimals() {
    let a: u128 = 100000000;
    let b: u8 = 4;
    let c: u8 = 6;
    let d = convert_to_basset_decimals(a, b, c).unwrap();
    assert_eq!(d, 1000000);
}

#[test]
fn rescale_equal_precisions_is_identity() {
    assert_eq!(rescale(0, 7, 7).unwrap(), 0);
    assert_eq!(rescale(12345, 3, 3).unwrap(), 12345);
    assert_eq!(rescale(u128::MAX, 8, 8).unwrap(), u128::MAX);
}

#[test]
fn rescale_round_trip_never_gains() {
    let a: u128 = 12345;
    let down = rescale(a, 6, 4).unwrap();
    assert_eq!(down, 123);
    let back = rescale(down, 4, 6).unwrap();
    assert_eq!(back, 12300);
    assert!(back <= a);

    // no truncation: the round trip restores the amount exactly
    let b: u128 = 12300;
    let down = rescale(b, 6, 4).unwrap();
    let back = rescale(down, 4, 6).unwrap();
    assert_eq!(back, b);

    // scaling up first loses nothing either
    let c: u128 = 987;
    let up = rescale(c, 4, 9).unwrap();
    assert_eq!(up, 98700000);
    assert_eq!(rescale(up, 9, 4).unwrap(), c);
}

#[test]
fn rescale_rejects_zero_quotient() {
    assert_eq!(
        rescale(99, 10, 8).unwrap_err(),
        ConverterError::AmountTooSmall { factor: 100 }
    );
    assert_eq!(
        rescale(0, 8, 2).unwrap_err(),
        ConverterError::AmountTooSmall { factor: 1000000 }
    );
    // the smallest representable amount goes through
    assert_eq!(rescale(100, 10, 8).unwrap(), 1);
}

#[test]
fn rescale_rejects_overflowing_product() {
    assert_eq!(
        rescale(u128::MAX, 0, 1).unwrap_err(),
        ConverterError::ArithmeticOverflow
    );
    assert_eq!(
        rescale(u128::MAX / 10 + 1, 3, 4).unwrap_err(),
        ConverterError::ArithmeticOverflow
    );
    assert_eq!(rescale(u128::MAX / 10, 3, 4).unwrap(), u128::MAX / 10 * 10);
}

#[test]
fn rescale_factor_saturates() {
    // a factor beyond 128 bits saturates instead of wrapping; the multiply
    // then overflows for any amount above one
    assert_eq!(
        rescale(2, 0, 40).unwrap_err(),
        ConverterError::ArithmeticOverflow
    );
    assert_eq!(rescale(1, 0, 40).unwrap(), u128::MAX);
}

#[test]
fn directional_conversions_differ_at_equal_precisions() {
    // converting toward the basset with equal precisions still runs the
    // truncating branch, so a zero amount is rejected there
    assert_eq!(
        convert_to_basset_decimals(0, 6, 6).unwrap_err(),
        ConverterError::AmountTooSmall { factor: 1 }
    );
    assert_eq!(convert_to_basset_decimals(42, 6, 6).unwrap(), 42);
    // while the basset-to-native direction multiplies
    assert_eq!(convert_to_denom_decimals(0, 6, 6).unwrap(), 0);
}
