use quantified_core::error::Error;
use quantified_core::timestamp::{
    apple_nano_to_unix, apple_nano_to_unix_opt, apple_to_unix, apple_to_unix_opt, chrome_to_unix,
    chrome_to_unix_opt, now_unix, unix_seconds, Number,
};

fn double(x: f64) -> Number {
    Number::Binary64(x.to_bits())
}

#[test]
fn test_apple_to_unix() {
    let apple_ts = 694224000.0;
    let unix_ts = apple_to_unix(double(apple_ts)).unwrap();
    assert_eq!(unix_ts, 1672531200);
}

#[test]
fn test_apple_to_unix_opt() {
    assert_eq!(apple_to_unix_opt(Some(double(694224000.0))), Some(1672531200));
    assert_eq!(apple_to_unix_opt(Some(double(0.0))), None);
    assert_eq!(apple_to_unix_opt(Some(double(-1.0))), None);
    assert_eq!(apple_to_unix_opt(None), None);
}

#[test]
fn test_apple_nano_to_unix() {
    let apple_nano = 694224000_000_000_000i64;
    let unix_ts = apple_nano_to_unix(apple_nano).unwrap();
    assert_eq!(unix_ts, 1672531200);
}

#[test]
fn test_chrome_to_unix() {
    let chrome_ts = 13317004800000000i64;
    let unix_ts = chrome_to_unix(chrome_ts).unwrap();
    assert_eq!(unix_ts, 1672531200);
}

#[test]
fn test_invalid_timestamps() {
    assert!(apple_to_unix(double(0.0)).is_err());
    assert!(apple_to_unix(double(-1.0)).is_err());
    assert!(apple_nano_to_unix(0).is_err());
    assert!(chrome_to_unix(0).is_err());
}

#[test]
fn whole_numbers_convert_like_reals() {
    assert_eq!(apple_to_unix(Number::Whole(694224000)), Ok(1672531200));
    assert_eq!(apple_to_unix_opt(Some(Number::Whole(0))), None);
    assert_eq!(apple_to_unix_opt(Some(Number::Whole(-5))), None);
    assert_eq!(apple_to_unix_opt(Some(Number::Whole(1))), Some(978307201));
}

#[test]
fn truncation_agrees_with_the_machine() {
    let samples: Vec<f64> = vec![
        0.0,
        -0.0,
        0.25,
        0.999999,
        1.0,
        1.5,
        -1.5,
        2.0,
        3.999,
        1023.75,
        694224000.123456,
        4503599627370496.0,
        4503599627370497.0,
        9007199254740991.0,
        9007199254740992.0,
        1.0e18,
        9.2e18,
        9223372036854775807.0,
        1.0e19,
        -9.3e18,
        1.0e300,
        -1.0e300,
        5e-324,
        2.2250738585072014e-308,
        f64::INFINITY,
        f64::NEG_INFINITY,
        f64::NAN,
        f64::MAX,
        f64::MIN,
    ];
    for x in samples {
        assert_eq!(double(x).truncate(), x as i64, "truncation of {}", x);
        assert_eq!(double(x).zero_or_negative(), x <= 0.0, "sign of {}", x);
    }
    let mut bits: u64 = 0x3ff0_0000_0000_0000;
    for _ in 0..2000 {
        let x = f64::from_bits(bits);
        assert_eq!(Number::Binary64(bits).truncate(), x as i64, "truncation of {}", x);
        bits = bits.wrapping_mul(6364136223846793005).wrapping_add(1442695040888963407);
    }
}

#[test]
fn fractions_below_one_are_timestamps() {
    assert_eq!(apple_to_unix_opt(Some(double(0.5))), Some(978307200));
    assert_eq!(apple_to_unix(double(0.5)), Ok(978307200));
}

#[test]
fn reals_too_large_are_rejected() {
    assert_eq!(apple_to_unix_opt(Some(double(1.0e300))), None);
    assert_eq!(
        apple_to_unix(double(1.0e300)),
        Err(Error::InvalidTimestamp(
            "Apple timestamp out of range: 9223372036854775807".to_string()
        ))
    );
    assert_eq!(apple_to_unix_opt(Some(Number::Whole(i64::MAX))), None);
}

#[test]
fn rejections_name_the_value() {
    assert_eq!(
        apple_to_unix(double(-1.0)),
        Err(Error::InvalidTimestamp("Apple timestamp must be positive: -1".to_string()))
    );
    assert_eq!(
        apple_nano_to_unix(-42),
        Err(Error::InvalidTimestamp("Apple nano timestamp must be positive: -42".to_string()))
    );
    assert_eq!(
        chrome_to_unix(0),
        Err(Error::InvalidTimestamp("Chrome timestamp must be positive: 0".to_string()))
    );
    assert_eq!(
        chrome_to_unix(i64::MIN),
        Err(Error::InvalidTimestamp(
            "Chrome timestamp must be positive: -9223372036854775808".to_string()
        ))
    );
}

#[test]
fn optional_conversions() {
    assert_eq!(apple_nano_to_unix_opt(Some(694224000_000_000_000)), Some(1672531200));
    assert_eq!(apple_nano_to_unix_opt(Some(0)), None);
    assert_eq!(apple_nano_to_unix_opt(Some(-1)), None);
    assert_eq!(apple_nano_to_unix_opt(None), None);
    assert_eq!(apple_nano_to_unix_opt(Some(999_999_999)), Some(978307200));
    assert_eq!(chrome_to_unix_opt(Some(13317004800000000)), Some(1672531200));
    assert_eq!(chrome_to_unix_opt(Some(0)), None);
    assert_eq!(chrome_to_unix_opt(Some(-7)), None);
    assert_eq!(chrome_to_unix_opt(None), None);
    assert_eq!(chrome_to_unix_opt(Some(1)), Some(-11644473600));
    assert_eq!(chrome_to_unix(i64::MAX), Ok(9223372036854 - 11644473600));
}

#[test]
fn the_clock_reads_after_2020() {
    assert!(now_unix() > 1577836800);
}

#[test]
fn seconds_of_the_clock_become_unix_seconds() {
    assert_eq!(unix_seconds(None), 0);
    assert_eq!(unix_seconds(Some(0)), 0);
    assert_eq!(unix_seconds(Some(1672531200)), 1672531200);
    assert_eq!(unix_seconds(Some(i64::MAX as u64)), i64::MAX);
    assert_eq!(unix_seconds(Some(i64::MAX as u64 + 1)), i64::MAX);
    assert_eq!(unix_seconds(Some(u64::MAX)), i64::MAX);
}
