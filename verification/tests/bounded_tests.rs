use catalyser::bounded::{
    BoundedI128, BoundedI16, BoundedI32, BoundedI64, BoundedI8, BoundedIsize, BoundedU128,
    BoundedU16, BoundedU32, BoundedU64, BoundedU8, BoundedUsize,
};
use catalyser::errors::OutOfBoundsError;

#[test]
fn test_bounded_num() {
    let boundedi8_ok = BoundedI8::new(1, 100, 50);
    assert!(boundedi8_ok.is_ok());
    assert_eq!(boundedi8_ok.unwrap().into_inner(), 50);
    let boundedi8_too_low = BoundedI8::new(1, 100, 0);
    assert!(boundedi8_too_low.is_err());
    let boundedi8_too_high = BoundedI8::new(1, 100, 101);
    assert!(boundedi8_too_high.is_err());

    let boundedi16_ok = BoundedI16::new(1, 100, 50);
    assert!(boundedi16_ok.is_ok());
    assert_eq!(boundedi16_ok.unwrap().into_inner(), 50);
    let boundedi16_too_low = BoundedI16::new(1, 100, 0);
    assert!(boundedi16_too_low.is_err());
    let boundedi16_too_high = BoundedI16::new(1, 100, 101);
    assert!(boundedi16_too_high.is_err());

    let boundedi32_ok = BoundedI32::new(1, 100, 50);
    assert!(boundedi32_ok.is_ok());
    assert_eq!(boundedi32_ok.unwrap().into_inner(), 50);
    let boundedi32_too_low = BoundedI32::new(1, 100, 0);
    assert!(boundedi32_too_low.is_err());
    let boundedi32_too_high = BoundedI32::new(1, 100, 101);
    assert!(boundedi32_too_high.is_err());

    let boundedi64_ok = BoundedI64::new(1, 100, 50);
    assert!(boundedi64_ok.is_ok());
    assert_eq!(boundedi64_ok.unwrap().into_inner(), 50);
    let boundedi64_too_low = BoundedI64::new(1, 100, 0);
    assert!(boundedi64_too_low.is_err());
    let boundedi64_too_high = BoundedI64::new(1, 100, 101);
    assert!(boundedi64_too_high.is_err());

    let boundedi128_ok = BoundedI128::new(1, 100, 50);
    assert!(boundedi128_ok.is_ok());
    assert_eq!(boundedi128_ok.unwrap().into_inner(), 50);
    let boundedi128_too_low = BoundedI128::new(1, 100, 0);
    assert!(boundedi128_too_low.is_err());
    let boundedi128_too_high = BoundedI128::new(1, 100, 101);
    assert!(boundedi128_too_high.is_err());

    let boundedisize_ok = BoundedIsize::new(1, 100, 50);
    assert!(boundedisize_ok.is_ok());
    assert_eq!(boundedisize_ok.unwrap().into_inner(), 50);
    let boundedisize_too_low = BoundedIsize::new(1, 100, 0);
    assert!(boundedisize_too_low.is_err());
    let boundedisize_too_high = BoundedIsize::new(1, 100, 101);
    assert!(boundedisize_too_high.is_err());

    let boundedu8_ok = BoundedU8::new(1, 100, 50);
    assert!(boundedu8_ok.is_ok());
    assert_eq!(boundedu8_ok.unwrap().into_inner(), 50);
    let boundedu8_too_low = BoundedU8::new(1, 100, 0);
    assert!(boundedu8_too_low.is_err());
    let boundedu8_too_high = BoundedU8::new(1, 100, 101);
    assert!(boundedu8_too_high.is_err());

    let boundedu16_ok = BoundedU16::new(1, 100, 50);
    assert!(boundedu16_ok.is_ok());
    assert_eq!(boundedu16_ok.unwrap().into_inner(), 50);
    let boundedu16_too_low = BoundedU16::new(1, 100, 0);
    assert!(boundedu16_too_low.is_err());
    let boundedu16_too_high = BoundedU16::new(1, 100, 101);
    assert!(boundedu16_too_high.is_err());

    let boundedu32_ok = BoundedU32::new(1, 100, 50);
    assert!(boundedu32_ok.is_ok());
    assert_eq!(boundedu32_ok.unwrap().into_inner(), 50);
    let boundedu32_too_low = BoundedU32::new(1, 100, 0);
    assert!(boundedu32_too_low.is_err());
    let boundedu32_too_high = BoundedU32::new(1, 100, 101);
    assert!(boundedu32_too_high.is_err());

    let boundedu64_ok = BoundedU64::new(1, 100, 50);
    assert!(boundedu64_ok.is_ok());
    assert_eq!(boundedu64_ok.unwrap().into_inner(), 50);
    let boundedu64_too_low = BoundedU64::new(1, 100, 0);
    assert!(boundedu64_too_low.is_err());
    let boundedu64_too_high = BoundedU64::new(1, 100, 101);
    assert!(boundedu64_too_high.is_err());

    let boundedu128_ok = BoundedU128::new(1, 100, 50);
    assert!(boundedu128_ok.is_ok());
    assert_eq!(boundedu128_ok.unwrap().into_inner(), 50);
    let boundedu128_too_low = BoundedU128::new(1, 100, 0);
    assert!(boundedu128_too_low.is_err());
    let boundedu128_too_high = BoundedU128::new(1, 100, 101);
    assert!(boundedu128_too_high.is_err());

    let boundedusize_ok = BoundedUsize::new(1, 100, 50);
    assert!(boundedusize_ok.is_ok());
    assert_eq!(boundedusize_ok.unwrap().into_inner(), 50);
    let boundedusize_too_low = BoundedUsize::new(1, 100, 0);
    assert!(boundedusize_too_low.is_err());
    let boundedusize_too_high = BoundedUsize::new(1, 100, 101);
    assert!(boundedusize_too_high.is_err());
}

#[test]
fn test_bounded_num_unchecked() {
    let boundedi8_value = BoundedI8::new_unchecked(0, 100, 50);
    assert_eq!(boundedi8_value.into_inner(), 50);

    let boundedi16_value = BoundedI16::new_unchecked(0, 100, 50);
    assert_eq!(boundedi16_value.into_inner(), 50);

    let boundedi32_value = BoundedI32::new_unchecked(0, 100, 50);
    assert_eq!(boundedi32_value.into_inner(), 50);

    let boundedi64_value = BoundedI64::new_unchecked(0, 100, 50);
    assert_eq!(boundedi64_value.into_inner(), 50);

    let boundedi128_value = BoundedI128::new_unchecked(0, 100, 50);
    assert_eq!(boundedi128_value.into_inner(), 50);

    let boundedisize_value = BoundedIsize::new_unchecked(0, 100, 50);
    assert_eq!(boundedisize_value.into_inner(), 50);

    let boundedu8_value = BoundedU8::new_unchecked(0, 100, 50);
    assert_eq!(boundedu8_value.into_inner(), 50);

    let boundedu16_value = BoundedU16::new_unchecked(0, 100, 50);
    assert_eq!(boundedu16_value.into_inner(), 50);

    let boundedu32_value = BoundedU32::new_unchecked(0, 100, 50);
    assert_eq!(boundedu32_value.into_inner(), 50);

    let boundedu64_value = BoundedU64::new_unchecked(0, 100, 50);
    assert_eq!(boundedu64_value.into_inner(), 50);

    let boundedu128_value = BoundedU128::new_unchecked(0, 100, 50);
    assert_eq!(boundedu128_value.into_inner(), 50);

    let boundedusize_value = BoundedUsize::new_unchecked(0, 100, 50);
    assert_eq!(boundedusize_value.into_inner(), 50);
}

#[test]
fn test_bounded_num_display() {
    let boundedi8_value = BoundedI8::new(0, 100, 50).unwrap();
    assert_eq!(boundedi8_value.to_text(), "50");

    let boundedi16_value = BoundedI16::new(0, 100, 50).unwrap();
    assert_eq!(boundedi16_value.to_text(), "50");

    let boundedi32_value = BoundedI32::new(0, 100, 50).unwrap();
    assert_eq!(boundedi32_value.to_text(), "50");

    let boundedi64_value = BoundedI64::new(0, 100, 50).unwrap();
    assert_eq!(boundedi64_value.to_text(), "50");

    let boundedi128_value = BoundedI128::new(0, 100, 50).unwrap();
    assert_eq!(boundedi128_value.to_text(), "50");

    let boundedisize_value = BoundedIsize::new(0, 100, 50).unwrap();
    assert_eq!(boundedisize_value.to_text(), "50");

    let boundedu8_value = BoundedU8::new(0, 100, 50).unwrap();
    assert_eq!(boundedu8_value.to_text(), "50");

    let boundedu16_value = BoundedU16::new(0, 100, 50).unwrap();
    assert_eq!(boundedu16_value.to_text(), "50");

    let boundedu32_value = BoundedU32::new(0, 100, 50).unwrap();
    assert_eq!(boundedu32_value.to_text(), "50");

    let boundedu64_value = BoundedU64::new(0, 100, 50).unwrap();
    assert_eq!(boundedu64_value.to_text(), "50");

    let boundedu128_value = BoundedU128::new(0, 100, 50).unwrap();
    assert_eq!(boundedu128_value.to_text(), "50");

    let boundedusize_value = BoundedUsize::new(0, 100, 50).unwrap();
    assert_eq!(boundedusize_value.to_text(), "50");
}

#[test]
fn test_bounded_num_exact_errors() {
    let too_high = BoundedI32::new(-10, 10, 11);
    assert_eq!(too_high, Err(OutOfBoundsError::High(-10, 10, 11)));

    let too_low = BoundedI32::new(-10, 10, -11);
    assert_eq!(too_low, Err(OutOfBoundsError::Low(-10, 10, -11)));

    let lowest_valid = BoundedI32::new(-10, 10, -10).unwrap();
    assert_eq!(lowest_valid.into_inner(), -10);
}

#[test]
fn test_bounded_num_unchecked_invalid_value() {
    // The escape hatch never fails, even for a value outside the range.
    let invalid = BoundedU8::new_unchecked(0, 10, 99);
    assert_eq!(invalid.into_inner(), 99);

    let invalid_signed = BoundedI64::new_unchecked(5, 10, -3);
    assert_eq!(invalid_signed.into_inner(), -3);
}

#[test]
fn test_bounded_num_error_messages() {
    let too_high = BoundedI32::new(-10, 10, 11).unwrap_err();
    assert_eq!(too_high.message(), "11 is too high (range: -10..10)");

    let too_low = BoundedI32::new(-10, 10, -11).unwrap_err();
    assert_eq!(too_low.message(), "-11 is too low (range: -10..10)");
}

#[test]
fn test_bounded_num_display_extremes() {
    let zero = BoundedU128::new(0, 1, 0).unwrap();
    assert_eq!(zero.to_text(), "0");

    let largest = BoundedU128::new(0, u128::MAX, u128::MAX).unwrap();
    assert_eq!(largest.to_text(), "340282366920938463463374607431768211455");

    let smallest = BoundedI128::new(i128::MIN, 0, i128::MIN).unwrap();
    assert_eq!(smallest.to_text(), "-170141183460469231731687303715884105728");
}

#[test]
fn test_bounded_num_text_round_trip() {
    // The external representation of a bounded number is its bare
    // decimal text; a value the range rejects cannot be wrapped again.
    let value = BoundedU16::new(1, 100, 50).unwrap();
    assert_eq!(value.to_text(), "50");

    let reconstructed = BoundedU16::new(1, 100, 50);
    assert!(reconstructed.is_ok());
    assert_eq!(reconstructed.unwrap().into_inner(), 50);

    let rejected = BoundedU16::new(1, 100, 0);
    assert!(rejected.is_err());
}
