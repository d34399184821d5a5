//! Calendar dates and times of day, and how they are read from text.
//!
//! Dates are those of the proleptic Gregorian calendar in the years 0 to
//! 9999. Text is read byte by byte: `YYYY-MM-DD` for a date, followed by a
//! blank or a `T` and `HH:MM:SS` for a time of day, followed, in a
//! timestamp, by an optional fraction of up to nine digits and an optional
//! zone, which is `Z` or `+HH:MM` or `-HH:MM`. A timestamp without a zone is
//! taken to be in UTC.

use vstd::prelude::*;
use vstd::string::StringSliceAdditionalSpecFns;

verus! {

/// Whether `b` is an ASCII digit.
pub open spec fn is_digit(b: u8) -> bool {
    48 <= b <= 57
}

/// The number that the two digits at `at` spell, if they are digits.
pub open spec fn two_digits(bytes: Seq<u8>, at: int) -> Option<int> {
    if 0 <= at && at + 2 <= bytes.len() && is_digit(bytes[at]) && is_digit(bytes[at + 1]) {
        Some((bytes[at] - 48) * 10 + (bytes[at + 1] - 48))
    } else {
        None
    }
}

/// The number that the four digits at `at` spell, if they are digits.
pub open spec fn four_digits(bytes: Seq<u8>, at: int) -> Option<int> {
    match (two_digits(bytes, at), two_digits(bytes, at + 2)) {
        (Some(high), Some(low)) => Some(high * 100 + low),
        _ => None,
    }
}

/// Whether `year` is a leap year.
pub open spec fn is_leap_year(year: int) -> bool {
    year % 4 == 0 && (year % 100 != 0 || year % 400 == 0)
}

/// The number of days of the month `month` of `year`.
pub open spec fn days_in_month(year: int, month: int) -> int {
    if month == 2 {
        if is_leap_year(year) {
            29
        } else {
            28
        }
    } else if month == 4 || month == 6 || month == 9 || month == 11 {
        30
    } else {
        31
    }
}

/// The number of days of `year` before its month `month`.
pub open spec fn days_before_month(year: int, month: int) -> int
    decreases month,
{
    if month <= 1 {
        0
    } else {
        days_before_month(year, month - 1) + days_in_month(year, month - 1)
    }
}

/// The number of days of `year`.
pub open spec fn days_in_year(year: int) -> int {
    if is_leap_year(year) {
        366
    } else {
        365
    }
}

/// The number of days from the first day of the year 0 to the first day of
/// `year`.
pub open spec fn days_before_year(year: int) -> int
    decreases year,
{
    if year <= 0 {
        0
    } else {
        days_before_year(year - 1) + days_in_year(year - 1)
    }
}

/// The number of days from the first day of the year 0 to 1970-01-01.
pub const EPOCH_DAYS: i64 = 719_528;

/// Whether year, month and day name a day of the calendar.
pub open spec fn is_date(year: int, month: int, day: int) -> bool {
    0 <= year <= 9999 && 1 <= month <= 12 && 1 <= day <= days_in_month(year, month)
}

/// The number of days from 1970-01-01 to the given day; negative before.
pub open spec fn days_since_epoch(year: int, month: int, day: int) -> int {
    days_before_year(year) + days_before_month(year, month) + (day - 1) - EPOCH_DAYS
}

/// The number of leap years among the years 0 to `year - 1`, for a year of
/// at least 1.
pub open spec fn leap_years_before(year: int) -> int {
    (year - 1) / 4 - (year - 1) / 100 + (year - 1) / 400 + 1
}

/// Counting the days year by year agrees with counting leap years.
pub proof fn lemma_days_before_year(year: int)
    requires
        0 <= year,
    ensures
        days_before_year(year) == if year == 0 {
            0
        } else {
            365 * year + leap_years_before(year)
        },
    decreases year,
{
    if year > 0 {
        lemma_days_before_year(year - 1);
        if year > 1 {
            let y = year - 1;
            assert((y - 1) / 4 + (if y % 4 == 0 {
                1int
            } else {
                0int
            }) == y / 4);
            assert((y - 1) / 100 + (if y % 100 == 0 {
                1int
            } else {
                0int
            }) == y / 100);
            assert((y - 1) / 400 + (if y % 400 == 0 {
                1int
            } else {
                0int
            }) == y / 400);
            if y % 400 == 0 {
                assert(y % 100 == 0 && y % 4 == 0);
            }
            if y % 100 == 0 {
                assert(y % 4 == 0);
            }
        }
    }
}

/// The number of days of `year` before its month `month`.
fn exec_days_before_month(year: u32, month: u32) -> (days: i64)
    requires
        year <= 9999,
        1 <= month <= 12,
    ensures
        days == days_before_month(year as int, month as int),
        0 <= days <= 335,
{
    let leap = year % 4 == 0 && (year % 100 != 0 || year % 400 == 0);
    let mut days: i64 = 0;
    let mut m: u32 = 1;
    while m < month
        invariant
            1 <= m <= month <= 12,
            leap == is_leap_year(year as int),
            days == days_before_month(year as int, m as int),
            0 <= days <= 31 * (m - 1),
        decreases month - m,
    {
        let length: i64 = if m == 2 {
            if leap {
                29
            } else {
                28
            }
        } else if m == 4 || m == 6 || m == 9 || m == 11 {
            30
        } else {
            31
        };
        days = days + length;
        m = m + 1;
    }
    proof {
        reveal_with_fuel(days_before_month, 13);
    }
    days
}

/// The number of days from 1970-01-01 to the given day.
pub fn date_to_days(year: u32, month: u32, day: u32) -> (days: i64)
    requires
        is_date(year as int, month as int, day as int),
    ensures
        days == days_since_epoch(year as int, month as int, day as int),
        -EPOCH_DAYS <= days <= 3_000_000,
{
    proof {
        lemma_days_before_year(year as int);
    }
    let before_year: i64 = if year == 0 {
        0
    } else {
        let y = (year - 1) as i64;
        365 * (year as i64) + y / 4 - y / 100 + y / 400 + 1
    };
    before_year + exec_days_before_month(year, month) + (day as i64 - 1) - EPOCH_DAYS
}

/// A day of the calendar.
#[derive(Clone, Copy, Debug, PartialEq, Eq)]
pub struct CivilDate {
    pub year: u32,
    pub month: u32,
    pub day: u32,
}

/// A time of day, to the second.
#[derive(Clone, Copy, Debug, PartialEq, Eq)]
pub struct TimeOfDay {
    pub hour: u32,
    pub minute: u32,
    pub second: u32,
}

/// The day that the ten bytes at `at` spell as `YYYY-MM-DD`, if they spell
/// one.
pub open spec fn date_at(bytes: Seq<u8>, at: int) -> Option<CivilDate> {
    match (four_digits(bytes, at), two_digits(bytes, at + 5), two_digits(bytes, at + 8)) {
        (Some(year), Some(month), Some(day)) => if bytes[at + 4] == 45 && bytes[at + 7] == 45
            && is_date(year, month, day) {
            Some(CivilDate { year: year as u32, month: month as u32, day: day as u32 })
        } else {
            None
        },
        _ => None,
    }
}

/// The time of day that the eight bytes at `at` spell as `HH:MM:SS`, if they
/// spell one.
pub open spec fn time_at(bytes: Seq<u8>, at: int) -> Option<TimeOfDay> {
    match (two_digits(bytes, at), two_digits(bytes, at + 3), two_digits(bytes, at + 6)) {
        (Some(hour), Some(minute), Some(second)) => if bytes[at + 2] == 58 && bytes[at + 5] == 58
            && hour < 24 && minute < 60 && second < 60 {
            Some(TimeOfDay { hour: hour as u32, minute: minute as u32, second: second as u32 })
        } else {
            None
        },
        _ => None,
    }
}

fn read_two(bytes: &[u8], at: usize) -> (r: Option<u32>)
    requires
        at + 2 <= usize::MAX,
    ensures
        match r {
            Some(n) => two_digits(bytes@, at as int) == Some(n as int) && n <= 99,
            None => two_digits(bytes@, at as int) is None,
        },
{
    if at + 2 > bytes.len() {
        return None;
    }
    let a = bytes[at];
    let b = bytes[at + 1];
    if a >= 48 && a <= 57 && b >= 48 && b <= 57 {
        Some(((a - 48) as u32) * 10 + ((b - 48) as u32))
    } else {
        None
    }
}

fn read_date(bytes: &[u8], at: usize) -> (r: Option<CivilDate>)
    requires
        at + 10 <= bytes@.len(),
    ensures
        r == date_at(bytes@, at as int),
        r matches Some(d) ==> is_date(d.year as int, d.month as int, d.day as int),
{
    let _ = bytes.len();
    let high = read_two(bytes, at);
    let low = read_two(bytes, at + 2);
    let month = read_two(bytes, at + 5);
    let day = read_two(bytes, at + 8);
    match (high, low, month, day) {
        (Some(high), Some(low), Some(month), Some(day)) => {
            let year = high * 100 + low;
            if bytes[at + 4] != 45 || bytes[at + 7] != 45 {
                return None;
            }
            if month < 1 || month > 12 || day < 1 {
                return None;
            }
            let leap = year % 4 == 0 && (year % 100 != 0 || year % 400 == 0);
            let length: u32 = if month == 2 {
                if leap {
                    29
                } else {
                    28
                }
            } else if month == 4 || month == 6 || month == 9 || month == 11 {
                30
            } else {
                31
            };
            if day > length {
                return None;
            }
            Some(CivilDate { year, month, day })
        },
        _ => None,
    }
}

fn read_time(bytes: &[u8], at: usize) -> (r: Option<TimeOfDay>)
    requires
        at + 8 <= bytes@.len(),
    ensures
        r == time_at(bytes@, at as int),
        r matches Some(t) ==> t.hour < 24 && t.minute < 60 && t.second < 60,
{
    let _ = bytes.len();
    let hour = read_two(bytes, at);
    let minute = read_two(bytes, at + 3);
    let second = read_two(bytes, at + 6);
    match (hour, minute, second) {
        (Some(hour), Some(minute), Some(second)) => {
            if bytes[at + 2] != 58 || bytes[at + 5] != 58 {
                return None;
            }
            if hour >= 24 || minute >= 60 || second >= 60 {
                return None;
            }
            Some(TimeOfDay { hour, minute, second })
        },
        _ => None,
    }
}

/// The days since the epoch that `bytes` spell as a date, if they spell one
/// and nothing else.
pub open spec fn date_value(bytes: Seq<u8>) -> Option<int> {
    if bytes.len() != 10 {
        None
    } else {
        match date_at(bytes, 0) {
            Some(d) => Some(days_since_epoch(d.year as int, d.month as int, d.day as int)),
            None => None,
        }
    }
}

/// Reads a date `YYYY-MM-DD` as days since the epoch.
pub fn parse_date(text: &str) -> (r: Option<i32>)
    ensures
        match r {
            Some(days) => date_value(text.spec_bytes()) == Some(days as int),
            None => date_value(text.spec_bytes()) is None,
        },
{
    let bytes = text.as_bytes();
    if bytes.len() != 10 {
        return None;
    }
    match read_date(bytes, 0) {
        Some(d) => Some(date_to_days(d.year, d.month, d.day) as i32),
        None => None,
    }
}

/// The seconds since the epoch of a day and a time of day.
pub open spec fn seconds_since_epoch(d: CivilDate, t: TimeOfDay) -> int {
    days_since_epoch(d.year as int, d.month as int, d.day as int) * 86_400 + t.hour * 3_600
        + t.minute * 60 + t.second
}

fn to_seconds(d: CivilDate, t: TimeOfDay) -> (seconds: i64)
    requires
        is_date(d.year as int, d.month as int, d.day as int),
        t.hour < 24 && t.minute < 60 && t.second < 60,
    ensures
        seconds == seconds_since_epoch(d, t),
        -63_000_000_000 <= seconds <= 260_000_000_000,
{
    let days = date_to_days(d.year, d.month, d.day);
    days * 86_400 + (t.hour as i64) * 3_600 + (t.minute as i64) * 60 + (t.second as i64)
}

/// Whether `b` may stand between a date and a time of day: a blank or `T`.
pub open spec fn is_separator(b: u8) -> bool {
    b == 32 || b == 84
}

/// The seconds since the epoch that `bytes` spell as a date and a time of
/// day, separated by a blank, if they spell that and nothing else.
pub open spec fn datetime_value(bytes: Seq<u8>) -> Option<int> {
    if bytes.len() != 19 || bytes[10] != 32 {
        None
    } else {
        match (date_at(bytes, 0), time_at(bytes, 11)) {
            (Some(d), Some(t)) => Some(seconds_since_epoch(d, t)),
            _ => None,
        }
    }
}

/// Reads a date-time `YYYY-MM-DD HH:MM:SS` as seconds since the epoch.
pub fn parse_datetime(text: &str) -> (r: Option<i64>)
    ensures
        match r {
            Some(seconds) => datetime_value(text.spec_bytes()) == Some(seconds as int),
            None => datetime_value(text.spec_bytes()) is None,
        },
{
    let bytes = text.as_bytes();
    if bytes.len() != 19 || bytes[10] != 32 {
        return None;
    }
    match (read_date(bytes, 0), read_time(bytes, 11)) {
        (Some(d), Some(t)) => Some(to_seconds(d, t)),
        _ => None,
    }
}

/// How many digits stand at `at` one after the other.
pub open spec fn digit_run(bytes: Seq<u8>, at: int) -> int
    decreases bytes.len() - at,
{
    if 0 <= at < bytes.len() && is_digit(bytes[at]) {
        1 + digit_run(bytes, at + 1)
    } else {
        0
    }
}

/// The number that the `count` digits at `at` spell.
pub open spec fn digits_number(bytes: Seq<u8>, at: int, count: int) -> int
    decreases count,
{
    if count <= 0 {
        0
    } else {
        digits_number(bytes, at, count - 1) * 10 + (bytes[at + count - 1] - 48)
    }
}

/// Ten to the power of `n`.
pub open spec fn pow10(n: int) -> int
    decreases n,
{
    if n <= 0 {
        1
    } else {
        10 * pow10(n - 1)
    }
}

/// The nanoseconds that a fraction of `count` digits at `at` stands for.
pub open spec fn fraction_nanos(bytes: Seq<u8>, at: int, count: int) -> int {
    digits_number(bytes, at, count) * pow10(9 - count)
}

/// The seconds east of UTC that `zone` spells: nothing and `Z` are UTC;
/// otherwise a sign, hours below 24, a colon, and minutes below 60.
pub open spec fn zone_offset(zone: Seq<u8>) -> Option<int> {
    if zone.len() == 0 {
        Some(0)
    } else if zone.len() == 1 {
        if zone[0] == 90 {
            Some(0)
        } else {
            None
        }
    } else if zone.len() == 6 && (zone[0] == 43 || zone[0] == 45) && zone[3] == 58 {
        match (two_digits(zone, 1), two_digits(zone, 4)) {
            (Some(hours), Some(minutes)) => if hours < 24 && minutes < 60 {
                if zone[0] == 43 {
                    Some(hours * 3_600 + minutes * 60)
                } else {
                    Some(-(hours * 3_600 + minutes * 60))
                }
            } else {
                None
            },
            _ => None,
        }
    } else {
        None
    }
}

/// The nanoseconds since the epoch that `bytes` spell as a timestamp, if
/// they spell one and nothing else, and the count fits 64 bits: a date, a
/// blank or `T`, a time of day, then optionally a point with one to nine
/// digits, then optionally a zone.
pub open spec fn timestamp_value(bytes: Seq<u8>) -> Option<int> {
    if bytes.len() < 19 || !is_separator(bytes[10]) {
        None
    } else {
        match (date_at(bytes, 0), time_at(bytes, 11)) {
            (Some(d), Some(t)) => {
                let pointed = bytes.len() > 19 && bytes[19] == 46;
                let count = if pointed {
                    digit_run(bytes, 20)
                } else {
                    0
                };
                let nanos = if pointed {
                    fraction_nanos(bytes, 20, count)
                } else {
                    0
                };
                let zone_at = if pointed {
                    20 + count
                } else {
                    19
                };
                if pointed && !(1 <= count <= 9) {
                    None
                } else {
                    match zone_offset(bytes.skip(zone_at)) {
                        Some(offset) => {
                            let value = (seconds_since_epoch(d, t) - offset) * 1_000_000_000
                                + nanos;
                            if i64::MIN <= value <= i64::MAX {
                                Some(value)
                            } else {
                                None
                            }
                        },
                        None => None,
                    }
                }
            },
            _ => None,
        }
    }
}

/// Reads the digits of a fraction at `at`: how many there are, and the
/// nanoseconds they stand for. More than nine digits are reported as ten.
fn read_fraction(bytes: &[u8], at: usize) -> (r: (usize, u32))
    requires
        at <= bytes@.len(),
    ensures
        r.0 <= 10,
        r.0 <= 9 ==> r.0 == digit_run(bytes@, at as int) && r.1 == fraction_nanos(
            bytes@,
            at as int,
            r.0 as int,
        ) && r.1 < 1_000_000_000,
        r.0 == 10 ==> digit_run(bytes@, at as int) > 9,
{
    let n = bytes.len();
    let mut count: usize = 0;
    let mut value: u32 = 0;
    while count < 10 && count < n - at && bytes[at + count] >= 48 && bytes[at + count] <= 57
        invariant
            count <= 10,
            n == bytes@.len(),
            at + count <= n,
            digit_run(bytes@, at as int) == count + digit_run(bytes@, at + count),
            count <= 9 ==> value == digits_number(bytes@, at as int, count as int) && value < pow10(
                count as int,
            ),
            pow10(count as int) <= 1_000_000_000 || count == 10,
        decreases 10 - count,
    {
        proof {
            reveal_with_fuel(pow10, 11);
        }
        if count < 9 {
            value = value * 10 + (bytes[at + count] - 48) as u32;
        }
        count = count + 1;
    }
    if count == 10 {
        proof {
            lemma_digit_run_in_range(bytes@, at + 10);
        }
        return (10, 0);
    }
    let mut nanos = value;
    let mut k: usize = count;
    proof {
        reveal_with_fuel(pow10, 11);
        assert(pow10(0) == 1);
        assert(value * pow10(0) == value);
    }
    while k < 9
        invariant
            count <= k <= 9,
            value < pow10(count as int),
            nanos == value * pow10(k - count),
            nanos < pow10(k as int),
        decreases 9 - k,
    {
        proof {
            reveal_with_fuel(pow10, 11);
            assert(value * pow10(k + 1 - count) == 10 * (value * pow10(k - count))) by (nonlinear_arith)
                requires
                    pow10(k + 1 - count) == 10 * pow10(k - count),
            ;
        }
        nanos = nanos * 10;
        k = k + 1;
    }
    proof {
        reveal_with_fuel(pow10, 11);
    }
    (count, nanos)
}

/// Reads the zone in the bytes from `at` to the end.
fn read_zone(bytes: &[u8], at: usize) -> (r: Option<i64>)
    requires
        at <= bytes@.len(),
    ensures
        match r {
            Some(offset) => zone_offset(bytes@.skip(at as int)) == Some(offset as int) && -86_400
                < offset < 86_400,
            None => zone_offset(bytes@.skip(at as int)) is None,
        },
{
    let n = bytes.len();
    let ghost zone = bytes@.skip(at as int);
    if n == at {
        return Some(0);
    }
    if n - at == 1 {
        proof {
            assert(zone[0] == bytes@[at as int]);
        }
        return if bytes[at] == 90 {
            Some(0)
        } else {
            None
        };
    }
    if n - at != 6 {
        return None;
    }
    proof {
        assert(forall|i: int| 0 <= i < 6 ==> zone[i] == bytes@[at + i]);
    }
    let sign = bytes[at];
    if (sign != 43 && sign != 45) || bytes[at + 3] != 58 {
        return None;
    }
    match (read_two(bytes, at + 1), read_two(bytes, at + 4)) {
        (Some(hours), Some(minutes)) => {
            if hours >= 24 || minutes >= 60 {
                return None;
            }
            let seconds = (hours as i64) * 3_600 + (minutes as i64) * 60;
            if sign == 43 {
                Some(seconds)
            } else {
                Some(-seconds)
            }
        },
        _ => None,
    }
}

/// Reads a timestamp as nanoseconds since the epoch.
pub fn parse_timestamp(text: &str) -> (r: Option<i64>)
    ensures
        match r {
            Some(nanos) => timestamp_value(text.spec_bytes()) == Some(nanos as int),
            None => timestamp_value(text.spec_bytes()) is None,
        },
{
    let bytes = text.as_bytes();
    let n = bytes.len();
    if n < 19 || !(bytes[10] == 32 || bytes[10] == 84) {
        return None;
    }
    let (d, t) = match (read_date(bytes, 0), read_time(bytes, 11)) {
        (Some(d), Some(t)) => (d, t),
        _ => {
            return None;
        },
    };
    let pointed = n > 19 && bytes[19] == 46;
    let mut nanos: i64 = 0;
    let mut zone_at: usize = 19;
    if pointed {
        let (count, fraction) = read_fraction(bytes, 20);
        if count < 1 || count > 9 {
            return None;
        }
        nanos = fraction as i64;
        zone_at = 20 + count;
        proof {
            lemma_digit_run_in_range(bytes@, 20);
        }
    }
    let offset = match read_zone(bytes, zone_at) {
        Some(offset) => offset,
        None => {
            return None;
        },
    };
    let seconds = to_seconds(d, t) - offset;
    if seconds > 9_223_372_036 || seconds < -9_223_372_037 {
        proof {
            assert((seconds as int) * 1_000_000_000 + nanos > i64::MAX || (seconds as int)
                * 1_000_000_000 + nanos < i64::MIN);
        }
        return None;
    }
    let scaled: i128 = (seconds as i128) * 1_000_000_000 + (nanos as i128);
    if scaled > i64::MAX as i128 || scaled < i64::MIN as i128 {
        return None;
    }
    Some(scaled as i64)
}

/// A run of digits ends within the bytes.
proof fn lemma_digit_run_in_range(bytes: Seq<u8>, at: int)
    requires
        0 <= at <= bytes.len(),
    ensures
        0 <= digit_run(bytes, at) <= bytes.len() - at,
    decreases bytes.len() - at,
{
    if at < bytes.len() && is_digit(bytes[at]) {
        lemma_digit_run_in_range(bytes, at + 1);
    }
}

} // verus!
