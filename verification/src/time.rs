//! The clock text drawn on the lock screen: a Unix timestamp turned
//! into "HH:MM" or "HH:MM:SS".

use vstd::prelude::*;

verus! {

/// The digit character of a value below ten, and '?' for anything
/// larger.
pub open spec fn spec_to_char(digit: u32) -> char {
    if digit == 0 {
        '0'
    } else if digit == 1 {
        '1'
    } else if digit == 2 {
        '2'
    } else if digit == 3 {
        '3'
    } else if digit == 4 {
        '4'
    } else if digit == 5 {
        '5'
    } else if digit == 6 {
        '6'
    } else if digit == 7 {
        '7'
    } else if digit == 8 {
        '8'
    } else if digit == 9 {
        '9'
    } else {
        '?'
    }
}

/// The digit character of a value below ten; see [`spec_to_char`].
pub fn to_char(digit: u32) -> (c: char)
    ensures
        c == spec_to_char(digit),
{
    if digit == 0 {
        '0'
    } else if digit == 1 {
        '1'
    } else if digit == 2 {
        '2'
    } else if digit == 3 {
        '3'
    } else if digit == 4 {
        '4'
    } else if digit == 5 {
        '5'
    } else if digit == 6 {
        '6'
    } else if digit == 7 {
        '7'
    } else if digit == 8 {
        '8'
    } else if digit == 9 {
        '9'
    } else {
        '?'
    }
}

/// The clock reading of a non-negative Unix timestamp: the seconds of
/// the day, split into hours, minutes and seconds.
pub open spec fn spec_hours(ts: int) -> int {
    (ts % 86400) / 3600
}

pub open spec fn spec_minutes(ts: int) -> int {
    ((ts % 86400) % 3600) / 60
}

pub open spec fn spec_seconds(ts: int) -> int {
    (ts % 86400) % 60
}

/// The latest timestamp the clock accepts: the last second of year
/// 9999, comfortably inside the range chrono's calendar covers.
pub const MAX_TIMESTAMP: i64 = 253402300799;

/// Relies on chrono: `DateTime::from_timestamp` builds the UTC date
/// and time of a Unix timestamp (`Some` for every timestamp its
/// calendar covers, which contains `[0, MAX_TIMESTAMP]`), and the
/// `Timelike` accessors `hour`, `minute` and `second` of that time
/// are the timestamp modulo one day, split into hours, minutes and
/// seconds — UTC has no leap seconds.
#[verifier::external_body]
fn clock_time_of(timestamp: i64) -> (r: (u32, u32, u32))
    requires
        0 <= timestamp <= MAX_TIMESTAMP,
    ensures
        r.0 == spec_hours(timestamp as int),
        r.1 == spec_minutes(timestamp as int),
        r.2 == spec_seconds(timestamp as int),
{
    let t = chrono::DateTime::from_timestamp(timestamp, 0).unwrap();
    (chrono::Timelike::hour(&t), chrono::Timelike::minute(&t), chrono::Timelike::second(&t))
}

/// The clock text of a timestamp: hours and minutes, two digits each,
/// colon-separated, with the seconds appended when asked for.
pub open spec fn spec_time_text(ts: int, seconds: bool) -> Seq<char> {
    let h = spec_hours(ts);
    let m = spec_minutes(ts);
    let s = spec_seconds(ts);
    let hm = seq![
        spec_to_char((h / 10) as u32),
        spec_to_char((h % 10) as u32),
        ':',
        spec_to_char((m / 10) as u32),
        spec_to_char((m % 10) as u32),
    ];
    if seconds {
        hm + seq![':', spec_to_char((s / 10) as u32), spec_to_char((s % 10) as u32)]
    } else {
        hm
    }
}

/// Renders the clock text of a timestamp; see [`spec_time_text`].
pub fn write_time(timestamp: i64, seconds: bool) -> (r: Vec<char>)
    requires
        0 <= timestamp <= MAX_TIMESTAMP,
    ensures
        r@ == spec_time_text(timestamp as int, seconds),
{
    let (h, m, s) = clock_time_of(timestamp);
    let mut text: Vec<char> = Vec::new();
    text.push(to_char(h / 10));
    text.push(to_char(h % 10));
    text.push(':');
    text.push(to_char(m / 10));
    text.push(to_char(m % 10));
    if seconds {
        text.push(':');
        text.push(to_char(s / 10));
        text.push(to_char(s % 10));
    }
    proof {
        assert(text@ =~= spec_time_text(timestamp as int, seconds));
    }
    text
}

} // verus!
