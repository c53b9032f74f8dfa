//! Naming of archive files: the directory by date and the file name by
//! time, entry count and length.

use vstd::prelude::*;
use vstd::string::StringExecFns;
use chrono::NaiveDate;

verus! {

/// Earliest year a calendar date can have.
pub const MIN_YEAR: i32 = -262143;

/// Latest year a calendar date can have.
pub const MAX_YEAR: i32 = 262142;

/// The decimal digit for a value below ten.
pub open spec fn digit_char(d: int) -> char {
    if d == 0 {
        '0'
    } else if d == 1 {
        '1'
    } else if d == 2 {
        '2'
    } else if d == 3 {
        '3'
    } else if d == 4 {
        '4'
    } else if d == 5 {
        '5'
    } else if d == 6 {
        '6'
    } else if d == 7 {
        '7'
    } else if d == 8 {
        '8'
    } else {
        '9'
    }
}

/// The decimal digits of a number, without padding.
pub open spec fn decimal(n: nat) -> Seq<char>
    decreases n,
{
    if n < 10 {
        seq![digit_char(n as int)]
    } else {
        decimal(n / 10).push(digit_char((n % 10) as int))
    }
}

/// The decimal digits of an integer, with a minus sign where it is negative.
pub open spec fn signed_decimal(n: int) -> Seq<char> {
    if n < 0 {
        seq!['-'] + decimal((-n) as nat)
    } else {
        decimal(n as nat)
    }
}

/// A number below a hundred as two digits.
pub open spec fn two_digits(n: int) -> Seq<char> {
    seq![digit_char(n / 10), digit_char(n % 10)]
}

/// A number as at least four digits, padded with zeros.
pub open spec fn four_digits(n: nat) -> Seq<char> {
    if n < 10000 {
        two_digits(n as int / 100) + two_digits(n as int % 100)
    } else {
        decimal(n)
    }
}

/// A year as a timestamp shows it: four digits from 0 to 9999, and a sign
/// before at least four digits outside that range.
pub open spec fn year_text(year: int) -> Seq<char> {
    if 0 <= year < 10000 {
        four_digits(year as nat)
    } else if year < 0 {
        seq!['-'] + four_digits((-year) as nat)
    } else {
        seq!['+'] + four_digits(year as nat)
    }
}

pub open spec fn is_leap_year(year: int) -> bool {
    year % 4 == 0 && (year % 100 != 0 || year % 400 == 0)
}

/// Days of a month of the proleptic Gregorian calendar.
pub open spec fn days_in_month(year: int, month: int) -> int {
    if month == 2 {
        if is_leap_year(year) {
            29
        } else {
            28
        }
    } else if month == 4 || month == 6 || month == 9 || month == 11 {
        30
    } else {
        31
    }
}

/// Whether the fields name a day of the calendar and a time of day.
pub open spec fn is_calendar_time(
    year: int,
    month: int,
    day: int,
    hour: int,
    minute: int,
    second: int,
) -> bool {
    &&& MIN_YEAR <= year <= MAX_YEAR
    &&& 1 <= month <= 12
    &&& 1 <= day <= days_in_month(year, month)
    &&& 0 <= hour < 24
    &&& 0 <= minute < 60
    &&& 0 <= second < 60
}

/// A local date and time to the second.
#[derive(Clone, Copy, Debug, PartialEq, Eq, Structural)]
pub struct LocalDateTime {
    pub year: i32,
    pub month: u32,
    pub day: u32,
    pub hour: u32,
    pub minute: u32,
    pub second: u32,
}

/// The text `YYYY-MM-DD_HH:MM:SS` of a date and time.
pub open spec fn timestamp_text(moment: LocalDateTime) -> Seq<char> {
    year_text(moment.year as int) + seq!['-'] + two_digits(moment.month as int) + seq!['-']
        + two_digits(moment.day as int) + seq!['_'] + two_digits(moment.hour as int) + seq![':']
        + two_digits(moment.minute as int) + seq![':'] + two_digits(moment.second as int)
}

/// The name of the file a recording is saved as:
/// `<timestamp>-<entries>e-<seconds>s.mid`.
pub open spec fn archive_file_name(moment: LocalDateTime, entries: nat, seconds: nat) -> Seq<char> {
    timestamp_text(moment) + seq!['-'] + decimal(entries) + seq!['e', '-'] + decimal(seconds)
        + seq!['s', '.', 'm', 'i', 'd']
}

/// The directory of a recording, below the archive's base directory: year,
/// month and day, each as an unpadded decimal number.
#[derive(Debug, PartialEq, Eq)]
pub struct DateDirectory {
    pub year: String,
    pub month: String,
    pub day: String,
}

impl LocalDateTime {
    /// The date exists and the time is a time of day.
    pub open spec fn wf(self) -> bool {
        is_calendar_time(
            self.year as int,
            self.month as int,
            self.day as int,
            self.hour as int,
            self.minute as int,
            self.second as int,
        )
    }

    /// Builds a date and time, refusing what is no calendar time.
    pub fn new(year: i32, month: u32, day: u32, hour: u32, minute: u32, second: u32) -> (r: Option<
        LocalDateTime,
    >)
        ensures
            r == (if is_calendar_time(
                year as int,
                month as int,
                day as int,
                hour as int,
                minute as int,
                second as int,
            ) {
                Some(LocalDateTime { year, month, day, hour, minute, second })
            } else {
                None
            }),
    {
        if year < MIN_YEAR || year > MAX_YEAR || month < 1 || month > 12 {
            return None;
        }
        if day < 1 || day > month_length(year, month) {
            return None;
        }
        if hour >= 24 || minute >= 60 || second >= 60 {
            return None;
        }
        Some(LocalDateTime { year, month, day, hour, minute, second })
    }
}

/// Number of days of a month.
pub fn month_length(year: i32, month: u32) -> (r: u32)
    requires
        MIN_YEAR <= year <= MAX_YEAR,
    ensures
        r == days_in_month(year as int, month as int),
{
    if month == 2 {
        // Shifting by a multiple of 400 keeps the remainders and leaves no
        // negative year.
        let shifted: u32 = (year + 400_000) as u32;
        if shifted % 4 == 0 && (shifted % 100 != 0 || shifted % 400 == 0) {
            29
        } else {
            28
        }
    } else if month == 4 || month == 6 || month == 9 || month == 11 {
        30
    } else {
        31
    }
}

/// The text of one decimal digit.
fn digit_str(d: u8) -> (r: &'static str)
    requires
        d < 10,
    ensures
        r@ == seq![digit_char(d as int)],
{
    proof {
        reveal_strlit("0");
        reveal_strlit("1");
        reveal_strlit("2");
        reveal_strlit("3");
        reveal_strlit("4");
        reveal_strlit("5");
        reveal_strlit("6");
        reveal_strlit("7");
        reveal_strlit("8");
        reveal_strlit("9");
    }
    if d == 0 {
        "0"
    } else if d == 1 {
        "1"
    } else if d == 2 {
        "2"
    } else if d == 3 {
        "3"
    } else if d == 4 {
        "4"
    } else if d == 5 {
        "5"
    } else if d == 6 {
        "6"
    } else if d == 7 {
        "7"
    } else if d == 8 {
        "8"
    } else {
        "9"
    }
}

/// Writes a number in decimal, without padding.
pub fn decimal_string(n: u128) -> (r: String)
    ensures
        r@ == decimal(n as nat),
    decreases n,
{
    if n < 10 {
        String::from_str(digit_str(n as u8))
    } else {
        let mut s = decimal_string(n / 10);
        s.append(digit_str((n % 10) as u8));
        s
    }
}

/// Writes an integer in decimal, with a minus sign where it is negative.
pub fn signed_decimal_string(n: i32) -> (r: String)
    ensures
        r@ == signed_decimal(n as int),
{
    if n < 0 {
        let magnitude: u128 = (-(n as i64)) as u128;
        let mut s = String::from_str("-");
        proof {
            reveal_strlit("-");
        }
        let digits = decimal_string(magnitude);
        s.append(digits.as_str());
        s
    } else {
        decimal_string(n as u128)
    }
}

/// Formats a date and time with `chrono::NaiveDateTime::format`, after
/// building the value with `chrono::NaiveDate::from_ymd_opt` and
/// `chrono::NaiveDate::and_hms_opt`.
///
/// Trusted: chrono accepts exactly the calendar times, and for the pattern
/// `%Y-%m-%d_%H:%M:%S` it writes the year as [`year_text`] and each other
/// field as two digits, with the separators of the pattern.
#[verifier::external_body]
fn chrono_format(moment: &LocalDateTime, pattern: &str) -> (r: Option<String>)
    requires
        pattern@ == "%Y-%m-%d_%H:%M:%S"@,
    ensures
        r is Some <==> moment.wf(),
        r matches Some(s) ==> s@ == timestamp_text(*moment),
{
    let date = NaiveDate::from_ymd_opt(moment.year, moment.month, moment.day)?;
    let time = date.and_hms_opt(moment.hour, moment.minute, moment.second)?;
    Some(time.format(pattern).to_string())
}

/// The timestamp of a file name: `YYYY-MM-DD_HH:MM:SS`.
pub fn timestamp(moment: &LocalDateTime) -> (r: String)
    requires
        moment.wf(),
    ensures
        r@ == timestamp_text(*moment),
{
    chrono_format(moment, "%Y-%m-%d_%H:%M:%S").unwrap()
}

/// The directory a recording flushed at `moment` goes to, below the base
/// directory: `<year>/<month>/<day>`, unpadded.
pub fn target_directory(moment: &LocalDateTime) -> (r: DateDirectory)
    ensures
        r.year@ == signed_decimal(moment.year as int),
        r.month@ == decimal(moment.month as nat),
        r.day@ == decimal(moment.day as nat),
{
    DateDirectory {
        year: signed_decimal_string(moment.year),
        month: decimal_string(moment.month as u128),
        day: decimal_string(moment.day as u128),
    }
}

/// The name of the file for a recording flushed at `moment`, with `entries`
/// entries (the end-of-track marker counted) and a length of `seconds`.
pub fn file_name(moment: &LocalDateTime, entries: u128, seconds: u64) -> (r: String)
    requires
        moment.wf(),
    ensures
        r@ == archive_file_name(*moment, entries as nat, seconds as nat),
{
    let mut name = timestamp(moment);
    proof {
        reveal_strlit("-");
        reveal_strlit("e-");
        reveal_strlit("s.mid");
    }
    name.append("-");
    let count = decimal_string(entries);
    name.append(count.as_str());
    name.append("e-");
    let length = decimal_string(seconds as u128);
    name.append(length.as_str());
    name.append("s.mid");
    name
}

} // verus!
