//! Conversion of vendor epochs to Unix-epoch seconds.
//!
//! Three conventions are read: seconds since 2001-01-01, nanoseconds since
//! 2001-01-01, and microseconds since 1601-01-01. A value that is zero or
//! negative is no timestamp. The `_opt` functions answer it with no value;
//! the others with [`Error::InvalidTimestamp`].

use vstd::prelude::*;
use vstd::arithmetic::power2::{lemma2_to64, lemma_pow2_pos, lemma_pow2_strictly_increases, pow2};
use vstd::bits::{lemma_u64_shl_is_mul, lemma_u64_shr_is_div};
use crate::clock::{system_time_now, time_between, unix_epoch, whole_seconds};
use crate::error::Error;
use crate::text::{append_decimal, decimal};

verus! {

/// Seconds from 1970-01-01 to 2001-01-01.
pub const APPLE_EPOCH_OFFSET: i64 = 978307200;

/// Seconds from 1601-01-01 to 1970-01-01.
pub const CHROME_EPOCH_OFFSET: i64 = 11644473600;

/// A number as a source holds it: a whole number, or a double-precision
/// binary number given by its 64 bits (sign, 11 bits of exponent, 52 bits of
/// fraction).
#[derive(Debug, Clone, Copy, PartialEq, Eq, Structural)]
pub enum Number {
    Whole(i64),
    Binary64(u64),
}

/// Whether the sign bit of a double is set.
pub open spec fn b64_negative(bits: u64) -> bool {
    bits >= 0x8000_0000_0000_0000u64
}

/// The biased exponent of a double.
pub open spec fn b64_exponent(bits: u64) -> int {
    (bits as int / 0x10_0000_0000_0000) % 0x800
}

/// The fraction bits of a double.
pub open spec fn b64_fraction(bits: u64) -> int {
    bits as int % 0x10_0000_0000_0000
}

/// Whether a double is not a number.
pub open spec fn b64_is_nan(bits: u64) -> bool {
    b64_exponent(bits) == 0x7ff && b64_fraction(bits) != 0
}

/// Whether a double is zero, of either sign.
pub open spec fn b64_is_zero(bits: u64) -> bool {
    b64_exponent(bits) == 0 && b64_fraction(bits) == 0
}

/// The whole part of the magnitude of a double, capped at 2^63.
///
/// A double with biased exponent `e` and fraction `f` has the magnitude
/// `(2^52 + f) * 2^(e - 1075)` where `e` is not zero; below `e = 1023` the
/// magnitude is less than one, and from `e = 1086` on it is at least 2^63.
pub open spec fn b64_magnitude(bits: u64) -> int {
    let e = b64_exponent(bits);
    let m = 0x10_0000_0000_0000 + b64_fraction(bits);
    if e < 1023 {
        0
    } else if e >= 1086 {
        0x8000_0000_0000_0000
    } else if e >= 1075 {
        m * pow2((e - 1075) as nat)
    } else {
        m / (pow2((1075 - e) as nat) as int)
    }
}

impl Number {
    /// Whether the number is zero or negative. No number that is not a
    /// number is.
    pub open spec fn is_zero_or_negative(self) -> bool {
        match self {
            Number::Whole(i) => i <= 0,
            Number::Binary64(bits) => !b64_is_nan(bits) && (b64_negative(bits) || b64_is_zero(
                bits,
            )),
        }
    }

    /// The number without its fractional part, brought into the range of
    /// `i64`; zero for what is not a number.
    pub open spec fn truncated(self) -> int {
        match self {
            Number::Whole(i) => i as int,
            Number::Binary64(bits) => {
                let magnitude = b64_magnitude(bits);
                if b64_is_nan(bits) {
                    0
                } else if b64_negative(bits) {
                    if magnitude >= 0x8000_0000_0000_0000 {
                        i64::MIN as int
                    } else {
                        -magnitude
                    }
                } else {
                    if magnitude >= 0x8000_0000_0000_0000 {
                        i64::MAX as int
                    } else {
                        magnitude
                    }
                }
            },
        }
    }

    /// Whether the number is zero or negative.
    pub fn zero_or_negative(&self) -> (r: bool)
        ensures
            r == self.is_zero_or_negative(),
    {
        match self {
            Number::Whole(i) => *i <= 0,
            Number::Binary64(bits) => {
                let exponent: u64 = (*bits / 0x10_0000_0000_0000u64) % 0x800u64;
                let fraction: u64 = *bits % 0x10_0000_0000_0000u64;
                let nan = exponent == 0x7ff && fraction != 0;
                let negative = *bits >= 0x8000_0000_0000_0000u64;
                let zero = exponent == 0 && fraction == 0;
                !nan && (negative || zero)
            },
        }
    }

    /// The number without its fractional part, brought into the range of
    /// `i64`.
    pub fn truncate(&self) -> (r: i64)
        ensures
            r == self.truncated(),
            !self.is_zero_or_negative() ==> r >= 0,
    {
        match self {
            Number::Whole(i) => *i,
            Number::Binary64(bits) => {
                let negative = *bits >= 0x8000_0000_0000_0000u64;
                let exponent: u64 = (*bits / 0x10_0000_0000_0000u64) % 0x800u64;
                let fraction: u64 = *bits % 0x10_0000_0000_0000u64;
                if exponent == 0x7ff && fraction != 0 {
                    return 0;
                }
                if exponent < 1023 {
                    return 0;
                }
                if exponent >= 1086 {
                    return if negative {
                        i64::MIN
                    } else {
                        i64::MAX
                    };
                }
                let mantissa: u64 = 0x10_0000_0000_0000u64 + fraction;
                let magnitude: u64 = if exponent >= 1075 {
                    let shift: u64 = exponent - 1075;
                    proof {
                        lemma2_to64();
                        if shift < 10 {
                            lemma_pow2_strictly_increases(shift as nat, 10);
                        }
                        let p = pow2(shift as nat);
                        assert(mantissa * p <= 0x1f_ffff_ffff_ffff * 0x400) by (nonlinear_arith)
                            requires
                                mantissa <= 0x1f_ffff_ffff_ffff,
                                p <= 0x400,
                        ;
                        lemma_u64_shl_is_mul(mantissa, shift);
                    }
                    mantissa << shift
                } else {
                    let shift: u64 = 1075 - exponent;
                    proof {
                        lemma_pow2_pos(shift as nat);
                        lemma_u64_shr_is_div(mantissa, shift);
                        let p = pow2(shift as nat) as int;
                        assert(mantissa as int / p <= mantissa as int) by (nonlinear_arith)
                            requires
                                p >= 1,
                                mantissa >= 0,
                        ;
                    }
                    mantissa >> shift
                };
                assert(magnitude == b64_magnitude(*bits));
                if negative {
                    -(magnitude as i64)
                } else {
                    magnitude as i64
                }
            },
        }
    }
}

/// Unix seconds of a number of seconds since 2001-01-01, where it is a
/// timestamp and the result fits `i64`.
pub open spec fn apple_unix(seconds: Number) -> Option<int> {
    if seconds.is_zero_or_negative() || seconds.truncated() + APPLE_EPOCH_OFFSET > i64::MAX {
        None
    } else {
        Some(seconds.truncated() + APPLE_EPOCH_OFFSET)
    }
}

/// Unix seconds of a number of nanoseconds since 2001-01-01, where it is a
/// timestamp.
pub open spec fn apple_nano_unix(nanos: int) -> Option<int> {
    if nanos <= 0 {
        None
    } else {
        Some(nanos / 1_000_000_000 + APPLE_EPOCH_OFFSET)
    }
}

/// Unix seconds of a number of microseconds since 1601-01-01, where it is a
/// timestamp.
pub open spec fn chrome_unix(micros: int) -> Option<int> {
    if micros <= 0 {
        None
    } else {
        Some(micros / 1_000_000 - CHROME_EPOCH_OFFSET)
    }
}

/// The reason given for a rejected value: the words, then the value.
pub open spec fn rejection(words: Seq<char>, value: int) -> Seq<char> {
    words + decimal(value)
}

fn reject(words: &str, value: i64) -> (r: Error)
    ensures
        r matches Error::InvalidTimestamp(reason) && reason@ == rejection(words@, value as int),
{
    let mut reason = String::from_str(words);
    append_decimal(&mut reason, value);
    Error::InvalidTimestamp(reason)
}

/// Converts seconds since 2001-01-01 to Unix seconds.
///
/// Fails on a number that is zero or negative, and on one whose Unix seconds
/// do not fit `i64`; the reason names the number without its fractional part.
pub fn apple_to_unix(apple_timestamp: Number) -> (r: Result<i64, Error>)
    ensures
        match r {
            Ok(unix) => apple_unix(apple_timestamp) == Some(unix as int),
            Err(Error::InvalidTimestamp(reason)) => {
                &&& apple_unix(apple_timestamp) is None
                &&& reason@ == rejection(
                    if apple_timestamp.is_zero_or_negative() {
                        "Apple timestamp must be positive: "@
                    } else {
                        "Apple timestamp out of range: "@
                    },
                    apple_timestamp.truncated(),
                )
            },
            Err(_) => false,
        },
{
    let whole = apple_timestamp.truncate();
    if apple_timestamp.zero_or_negative() {
        return Err(reject("Apple timestamp must be positive: ", whole));
    }
    if whole > i64::MAX - APPLE_EPOCH_OFFSET {
        return Err(reject("Apple timestamp out of range: ", whole));
    }
    Ok(whole + APPLE_EPOCH_OFFSET)
}

/// Unix seconds of a number of seconds since 2001-01-01 that may be absent.
pub open spec fn apple_unix_opt(seconds: Option<Number>) -> Option<i64> {
    match seconds {
        Some(n) => match apple_unix(n) {
            Some(unix) => Some(unix as i64),
            None => None,
        },
        None => None,
    }
}

/// Converts seconds since 2001-01-01 to Unix seconds, with no value for what
/// is absent or no timestamp.
pub fn apple_to_unix_opt(apple_timestamp: Option<Number>) -> (r: Option<i64>)
    ensures
        r == apple_unix_opt(apple_timestamp),
        r matches Some(unix) ==> unix >= APPLE_EPOCH_OFFSET,
        match r {
            Some(unix) => apple_timestamp is Some && apple_unix(apple_timestamp.unwrap()) == Some(
                unix as int,
            ),
            None => apple_timestamp is None || apple_unix(apple_timestamp.unwrap()) is None,
        },
{
    match apple_timestamp {
        Some(seconds) => {
            let whole = seconds.truncate();
            if seconds.zero_or_negative() || whole > i64::MAX - APPLE_EPOCH_OFFSET {
                None
            } else {
                Some(whole + APPLE_EPOCH_OFFSET)
            }
        },
        None => None,
    }
}

/// Converts nanoseconds since 2001-01-01 to Unix seconds.
pub fn apple_nano_to_unix(apple_nano: i64) -> (r: Result<i64, Error>)
    ensures
        match r {
            Ok(unix) => apple_nano_unix(apple_nano as int) == Some(unix as int),
            Err(Error::InvalidTimestamp(reason)) => {
                &&& apple_nano <= 0
                &&& reason@ == rejection(
                    "Apple nano timestamp must be positive: "@,
                    apple_nano as int,
                )
            },
            Err(_) => false,
        },
{
    if apple_nano <= 0 {
        return Err(reject("Apple nano timestamp must be positive: ", apple_nano));
    }
    Ok(apple_nano / 1_000_000_000 + APPLE_EPOCH_OFFSET)
}

/// Converts nanoseconds since 2001-01-01 to Unix seconds, with no value for
/// what is absent or no timestamp.
pub fn apple_nano_to_unix_opt(apple_nano: Option<i64>) -> (r: Option<i64>)
    ensures
        match r {
            Some(unix) => apple_nano is Some && apple_nano_unix(apple_nano.unwrap() as int)
                == Some(unix as int),
            None => apple_nano is None || apple_nano.unwrap() <= 0,
        },
{
    match apple_nano {
        Some(ts) => {
            if ts <= 0 {
                None
            } else {
                Some(ts / 1_000_000_000 + APPLE_EPOCH_OFFSET)
            }
        },
        None => None,
    }
}

/// Converts microseconds since 1601-01-01 to Unix seconds.
pub fn chrome_to_unix(chrome_timestamp: i64) -> (r: Result<i64, Error>)
    ensures
        match r {
            Ok(unix) => chrome_unix(chrome_timestamp as int) == Some(unix as int),
            Err(Error::InvalidTimestamp(reason)) => {
                &&& chrome_timestamp <= 0
                &&& reason@ == rejection(
                    "Chrome timestamp must be positive: "@,
                    chrome_timestamp as int,
                )
            },
            Err(_) => false,
        },
{
    if chrome_timestamp <= 0 {
        return Err(reject("Chrome timestamp must be positive: ", chrome_timestamp));
    }
    Ok(chrome_timestamp / 1_000_000 - CHROME_EPOCH_OFFSET)
}

/// Converts microseconds since 1601-01-01 to Unix seconds, with no value for
/// what is absent or no timestamp.
pub fn chrome_to_unix_opt(chrome_timestamp: Option<i64>) -> (r: Option<i64>)
    ensures
        match r {
            Some(unix) => chrome_timestamp is Some && chrome_unix(
                chrome_timestamp.unwrap() as int,
            ) == Some(unix as int),
            None => chrome_timestamp is None || chrome_timestamp.unwrap() <= 0,
        },
{
    match chrome_timestamp {
        Some(ts) => {
            if ts <= 0 {
                None
            } else {
                Some(ts / 1_000_000 - CHROME_EPOCH_OFFSET)
            }
        },
        None => None,
    }
}

/// The Unix seconds of a clock that shows `since_epoch` whole seconds since
/// 1970: zero where it stands before 1970 and shows none, and the largest
/// `i64` where the seconds do not fit.
pub open spec fn unix_seconds_of(since_epoch: Option<u64>) -> i64 {
    match since_epoch {
        Some(seconds) => if seconds > i64::MAX {
            i64::MAX
        } else {
            seconds as i64
        },
        None => 0,
    }
}

/// The Unix seconds of a clock that shows `since_epoch` whole seconds since
/// 1970.
pub fn unix_seconds(since_epoch: Option<u64>) -> (r: i64)
    ensures
        r == unix_seconds_of(since_epoch),
{
    match since_epoch {
        Some(seconds) => {
            if seconds > 0x7fff_ffff_ffff_ffffu64 {
                i64::MAX
            } else {
                seconds as i64
            }
        },
        None => 0,
    }
}

/// The Unix seconds that the system clock shows: zero where the clock stands
/// before 1970, and the largest `i64` where its seconds do not fit.
pub fn now_unix() -> (r: i64)
    ensures
        r >= 0,
{
    let now = system_time_now();
    let epoch = unix_epoch();
    let since_epoch = match time_between(&epoch, &now) {
        Some(elapsed) => Some(whole_seconds(&elapsed)),
        None => None,
    };
    unix_seconds(since_epoch)
}

} // verus!
