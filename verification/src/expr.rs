//! Generation of the six-field cron expression (`"0 MM HH * * DAYS"`) that
//! installs a weekly update schedule. Out-of-range hours and minutes are
//! clamped to their maxima before the expression is built.

use vstd::prelude::*;
use crate::config::{Interval, ScheduleSpec};

verus! {

/// Hours above 23 are clamped to 23.
pub open spec fn spec_clamp_hour(h: u8) -> u8 {
    if h > 23 { 23 } else { h }
}

/// Minutes above 59 are clamped to 59.
pub open spec fn spec_clamp_minute(m: u8) -> u8 {
    if m > 59 { 59 } else { m }
}

/// The cron day-of-week token for each schedule interval.
pub open spec fn day_token(i: Interval) -> Seq<char> {
    match i {
        Interval::Sunday => "SUN"@,
        Interval::Monday => "MON"@,
        Interval::Tuesday => "TUE"@,
        Interval::Wednesday => "WED"@,
        Interval::Thursday => "THU"@,
        Interval::Friday => "FRI"@,
        Interval::Saturday => "SAT"@,
        Interval::Weekdays => "1-5"@,
    }
}

/// The decimal digit character for `d` (only meaningful for `d <= 9`).
pub open spec fn digit_char(d: u8) -> char {
    if d == 0 { '0' }
    else if d == 1 { '1' }
    else if d == 2 { '2' }
    else if d == 3 { '3' }
    else if d == 4 { '4' }
    else if d == 5 { '5' }
    else if d == 6 { '6' }
    else if d == 7 { '7' }
    else if d == 8 { '8' }
    else { '9' }
}

/// The decimal rendering of `n` (only meaningful for `n <= 99`): one digit
/// below ten, two digits otherwise.
pub open spec fn spec_decimal(n: u8) -> Seq<char> {
    if n < 10 {
        seq![digit_char(n)]
    } else {
        seq![digit_char((n / 10) as u8), digit_char((n % 10) as u8)]
    }
}

/// The cron expression generated for a schedule, with hour and minute
/// clamped: `"0 "` + minute + `" "` + hour + `" * * "` + day token.
pub open spec fn spec_cron_expression(s: ScheduleSpec) -> Seq<char> {
    "0 "@ + spec_decimal(spec_clamp_minute(s.minute)) + " "@
        + spec_decimal(spec_clamp_hour(s.hour)) + " * * "@ + day_token(s.interval)
}

/// Clamp an hour value into `0..=23`.
pub fn clamp_hour(h: u8) -> (r: u8)
    ensures
        r == spec_clamp_hour(h),
{
    if h > 23 { 23 } else { h }
}

/// Clamp a minute value into `0..=59`.
pub fn clamp_minute(m: u8) -> (r: u8)
    ensures
        r == spec_clamp_minute(m),
{
    if m > 59 { 59 } else { m }
}

/// The one-character string for a single decimal digit.
pub(crate) fn digit_str(d: u8) -> (r: &'static str)
    requires
        d <= 9,
    ensures
        r@ == seq![digit_char(d)],
{
    proof {
        reveal_strlit("0");
        reveal_strlit("1");
        reveal_strlit("2");
        reveal_strlit("3");
        reveal_strlit("4");
        reveal_strlit("5");
        reveal_strlit("6");
        reveal_strlit("7");
        reveal_strlit("8");
        reveal_strlit("9");
    }
    match d {
        0 => "0",
        1 => "1",
        2 => "2",
        3 => "3",
        4 => "4",
        5 => "5",
        6 => "6",
        7 => "7",
        8 => "8",
        _ => "9",
    }
}

/// The cron day-of-week token for an interval: the weekday's three-letter
/// name, or the range `1-5` for the Monday-through-Friday set.
fn day_token_str(i: Interval) -> (r: &'static str)
    ensures
        r@ == day_token(i),
{
    match i {
        Interval::Sunday => "SUN",
        Interval::Monday => "MON",
        Interval::Tuesday => "TUE",
        Interval::Wednesday => "WED",
        Interval::Thursday => "THU",
        Interval::Friday => "FRI",
        Interval::Saturday => "SAT",
        Interval::Weekdays => "1-5",
    }
}

/// Append the decimal rendering of `n` (at most two digits) to `out`.
fn append_decimal(out: &mut String, n: u8)
    requires
        n <= 99,
    ensures
        final(out)@ == old(out)@ + spec_decimal(n),
{
    if n < 10 {
        out.append(digit_str(n));
    } else {
        out.append(digit_str(n / 10));
        out.append(digit_str(n % 10));
        assert(old(out)@ + seq![digit_char((n / 10) as u8)] + seq![digit_char((n % 10) as u8)]
            =~= old(out)@ + spec_decimal(n));
    }
}

/// Build the cron expression that realizes a schedule: second field `0`,
/// the clamped minute and hour, every day of month and month, and the
/// schedule's day-of-week token.
pub fn cron_expression(schedule: &ScheduleSpec) -> (r: String)
    ensures
        r@ == spec_cron_expression(*schedule),
{
    let minute = clamp_minute(schedule.minute);
    let hour = clamp_hour(schedule.hour);

    let mut out = String::new();
    out.append("0 ");
    append_decimal(&mut out, minute);
    out.append(" ");
    append_decimal(&mut out, hour);
    out.append(" * * ");
    out.append(day_token_str(schedule.interval));

    proof {
        assert(out@ =~= spec_cron_expression(*schedule));
    }
    out
}

} // verus!
