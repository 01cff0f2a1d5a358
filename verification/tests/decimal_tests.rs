use catalyser::decimal::{i128_from_decimal, i128_to_decimal, u128_from_decimal, u128_to_decimal};

#[test]
fn test_decimal_rendering() {
    assert_eq!(u128_to_decimal(0), "0");
    assert_eq!(u128_to_decimal(7), "7");
    assert_eq!(u128_to_decimal(1234567890), "1234567890");
    assert_eq!(u128_to_decimal(u128::MAX), "340282366920938463463374607431768211455");

    assert_eq!(i128_to_decimal(0), "0");
    assert_eq!(i128_to_decimal(-1), "-1");
    assert_eq!(i128_to_decimal(42), "42");
    assert_eq!(i128_to_decimal(i128::MIN), "-170141183460469231731687303715884105728");
    assert_eq!(i128_to_decimal(i128::MAX), "170141183460469231731687303715884105727");
}

#[test]
fn test_decimal_parsing() {
    assert_eq!(u128_from_decimal("50"), Some(50));
    assert_eq!(u128_from_decimal("0"), Some(0));
    assert_eq!(u128_from_decimal("007"), Some(7));
    assert_eq!(u128_from_decimal(""), None);
    assert_eq!(u128_from_decimal("12a"), None);
    assert_eq!(u128_from_decimal("-5"), None);
    assert_eq!(u128_from_decimal("340282366920938463463374607431768211455"), Some(u128::MAX));
    assert_eq!(u128_from_decimal("340282366920938463463374607431768211456"), None);

    assert_eq!(i128_from_decimal("5"), Some(5));
    assert_eq!(i128_from_decimal("-5"), Some(-5));
    assert_eq!(i128_from_decimal("-0"), Some(0));
    assert_eq!(i128_from_decimal("-"), None);
    assert_eq!(i128_from_decimal("- 5"), None);
    assert_eq!(i128_from_decimal("-170141183460469231731687303715884105728"), Some(i128::MIN));
    assert_eq!(i128_from_decimal("-170141183460469231731687303715884105729"), None);
    assert_eq!(i128_from_decimal("170141183460469231731687303715884105727"), Some(i128::MAX));
    assert_eq!(i128_from_decimal("170141183460469231731687303715884105728"), None);
}

#[test]
fn test_decimal_round_trip() {
    let unsigned_samples: [u128; 6] = [0, 1, 9, 10, 65535, u128::MAX];
    for value in unsigned_samples {
        assert_eq!(u128_from_decimal(&u128_to_decimal(value)), Some(value));
    }

    let signed_samples: [i128; 8] = [0, 1, -1, 10, -10, 12345, i128::MIN, i128::MAX];
    for value in signed_samples {
        assert_eq!(i128_from_decimal(&i128_to_decimal(value)), Some(value));
    }
}
