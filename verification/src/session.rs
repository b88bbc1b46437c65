//! Stored login sessions and their time stamps.
use vstd::prelude::*;
use crate::strings::{append_str, decimal_padded, push_decimal_padded};

verus! {

/// A login session as stored on disk.
#[derive(Debug, Clone)]
pub struct Session {
    pub session_token: String,
    pub url: String,
    pub username: String,
    /// When the session was made, as ISO 8601 text.
    pub created_at: String,
}

/// Whether `y` is a leap year of the proleptic Gregorian calendar.
pub open spec fn is_leap_year(y: nat) -> bool {
    y % 4 == 0 && (y % 100 != 0 || y % 400 == 0)
}

/// The number of days in year `y`.
pub open spec fn days_in_year(y: nat) -> nat {
    if is_leap_year(y) { 366 } else { 365 }
}

/// The number of days in month `m` (1 to 12) of year `y`.
pub open spec fn days_in_month(y: nat, m: nat) -> nat {
    if m == 2 {
        if is_leap_year(y) { 29 } else { 28 }
    } else if m == 4 || m == 6 || m == 9 || m == 11 {
        30
    } else {
        31
    }
}

/// The date `rem` days after the first day of month `m` of year `y`, where
/// `rem` falls in that year: whole months are counted off up to December.
pub open spec fn month_and_day(y: nat, m: nat, rem: nat) -> (nat, nat, nat)
    decreases 12 - m,
{
    if 1 <= m < 12 && rem >= days_in_month(y, m) {
        month_and_day(y, m + 1, (rem - days_in_month(y, m)) as nat)
    } else {
        (y, m, rem + 1)
    }
}

/// The date `rem` days after January 1st of year `y`: whole years are
/// counted off, then months.
pub open spec fn date_after(y: nat, rem: nat) -> (nat, nat, nat)
    decreases rem,
{
    if rem >= days_in_year(y) {
        date_after(y + 1, (rem - days_in_year(y)) as nat)
    } else {
        month_and_day(y, 1, rem)
    }
}

/// Year, month and day of a day count since 1970-01-01 in the proleptic
/// Gregorian calendar.
pub open spec fn civil_from_days(days: nat) -> (nat, nat, nat) {
    date_after(1970, days)
}

/// The days of the `n` years from `y` on.
spec fn years_span(y: nat, n: nat) -> nat
    decreases n,
{
    if n == 0 { 0 } else { days_in_year(y) + years_span(y + 1, (n - 1) as nat) }
}

/// The number of leap years among the years `0 .. y`.
spec fn leap_years_before(y: nat) -> int {
    (y + 3) / 4 - (y + 99) / 100 + (y + 399) / 400
}

proof fn lemma_leap_step(y: nat)
    ensures
        leap_years_before(y + 1) == leap_years_before(y) + (if is_leap_year(y) { 1int } else { 0 }),
{
}

proof fn lemma_span_closed(y: nat, n: nat)
    ensures
        years_span(y, n) == 365 * n + leap_years_before(y + n) - leap_years_before(y),
    decreases n,
{
    if n > 0 {
        lemma_span_closed(y + 1, (n - 1) as nat);
        lemma_leap_step(y);
    }
}

/// Any 400 consecutive years hold 146097 days.
proof fn lemma_cycle_days(y: nat)
    ensures
        years_span(y, 400) == 146097,
{
    lemma_span_closed(y, 400);
    assert((y + 403) / 4 == (y + 3) / 4 + 100) by (nonlinear_arith);
    assert((y + 499) / 100 == (y + 99) / 100 + 4) by (nonlinear_arith);
    assert((y + 799) / 400 == (y + 399) / 400 + 1) by (nonlinear_arith);
    assert(leap_years_before(y + 400) == leap_years_before(y) + 97);
}

proof fn lemma_skip_years(y: nat, n: nat, rem: nat)
    ensures
        date_after(y, rem + years_span(y, n)) == date_after(y + n, rem),
    decreases n,
{
    if n > 0 {
        lemma_skip_years(y + 1, (n - 1) as nat, rem);
        assert(rem + years_span(y, n) >= days_in_year(y));
    }
}

proof fn lemma_skip_cycles(y: nat, k: nat, rem: nat)
    ensures
        date_after(y, rem + 146097 * k) == date_after(y + 400 * k, rem),
    decreases k,
{
    if k > 0 {
        let k1 = (k - 1) as nat;
        lemma_skip_cycles(y, k1, rem + 146097);
        lemma_cycle_days(y + 400 * k1);
        lemma_skip_years(y + 400 * k1, 400, rem);
        assert(rem + 146097 + 146097 * k1 == rem + 146097 * k);
    }
}

/// The days of a year from month `m` to December.
spec fn rest_of_year(y: nat, m: nat) -> nat
    decreases 12 - m,
{
    if 1 <= m < 12 { days_in_month(y, m) + rest_of_year(y, m + 1) } else { days_in_month(y, m) }
}

fn leap_year(y: u64) -> (r: bool)
    ensures
        r == is_leap_year(y as nat),
{
    y % 4 == 0 && (y % 100 != 0 || y % 400 == 0)
}

fn year_length(y: u64) -> (r: u64)
    ensures
        r == days_in_year(y as nat),
{
    if leap_year(y) { 366 } else { 365 }
}

fn month_length(y: u64, m: u64) -> (r: u64)
    ensures
        r == days_in_month(y as nat, m as nat),
{
    if m == 2 {
        if leap_year(y) { 29 } else { 28 }
    } else if m == 4 || m == 6 || m == 9 || m == 11 {
        30
    } else {
        31
    }
}

/// The time stamp of a count of seconds since 1970-01-01 UTC, as
/// `YYYY-MM-DDTHH:MM:SSZ`.
pub open spec fn iso8601_text(secs: nat) -> Seq<char> {
    let days = secs / 86400;
    let tod = secs % 86400;
    let (y, m, d) = civil_from_days(days);
    decimal_padded(y, 4) + "-"@ + decimal_padded(m, 2) + "-"@ + decimal_padded(d, 2) + "T"@
        + decimal_padded(tod / 3600, 2) + ":"@ + decimal_padded((tod % 3600) / 60, 2) + ":"@
        + decimal_padded(tod % 60, 2) + "Z"@
}

/// Year, month and day of a day count since 1970-01-01; the month is
/// 1 to 12 and the day 1 to 31.
pub fn epoch_days_to_date(days: u64) -> (r: (u64, u64, u64))
    requires
        days <= 0x1_0000_0000_0000,
    ensures
        (r.0 as nat, r.1 as nat, r.2 as nat) == civil_from_days(days as nat),
        1 <= r.1 <= 12,
        1 <= r.2 <= 31,
{
    let cycles = days / 146097;
    let mut rem = days % 146097;
    let mut y: u64 = 1970 + 400 * cycles;
    proof {
        lemma_skip_cycles(1970, cycles as nat, rem as nat);
    }
    let ghost y0 = y;
    let ghost rem0 = rem;
    while rem >= year_length(y)
        invariant
            date_after(y as nat, rem as nat) == civil_from_days(days as nat),
            y0 == 1970 + 400 * (days / 146097),
            rem0 < 146097,
            y0 <= y,
            y + rem <= y0 + rem0,
            days <= 0x1_0000_0000_0000,
        decreases rem,
    {
        rem = rem - year_length(y);
        y = y + 1;
    }
    assert(rem < days_in_year(y as nat));
    proof {
        reveal_with_fuel(rest_of_year, 12);
    }
    assert(rest_of_year(y as nat, 1) == days_in_year(y as nat));
    let mut m: u64 = 1;
    while m < 12 && rem >= month_length(y, m)
        invariant
            1 <= m <= 12,
            month_and_day(y as nat, m as nat, rem as nat) == civil_from_days(days as nat),
            rem < rest_of_year(y as nat, m as nat),
        decreases 12 - m,
    {
        rem = rem - month_length(y, m);
        m = m + 1;
    }
    (y, m, rem + 1)
}

/// The time stamp text of a count of seconds since the epoch.
pub fn iso8601_from_secs(secs: u64) -> (r: String)
    ensures
        r@ == iso8601_text(secs as nat),
{
    let days = secs / 86400;
    let time_of_day = secs % 86400;
    let hours = time_of_day / 3600;
    let minutes = (time_of_day % 3600) / 60;
    let seconds = time_of_day % 60;
    let (year, month, day) = epoch_days_to_date(days);
    let mut out = String::new();
    push_decimal_padded(&mut out, year, 4);
    append_str(&mut out, "-");
    push_decimal_padded(&mut out, month, 2);
    append_str(&mut out, "-");
    push_decimal_padded(&mut out, day, 2);
    append_str(&mut out, "T");
    push_decimal_padded(&mut out, hours, 2);
    append_str(&mut out, ":");
    push_decimal_padded(&mut out, minutes, 2);
    append_str(&mut out, ":");
    push_decimal_padded(&mut out, seconds, 2);
    append_str(&mut out, "Z");
    out
}

/// Seconds since 1970-01-01 UTC by the system clock
/// (`SystemTime::now().duration_since(UNIX_EPOCH)`, zero for a clock set
/// before the epoch). The result depends on the clock; nothing is stated
/// of it.
#[verifier::external_body]
fn unix_time_seconds() -> (r: u64) {
    std::time::SystemTime::now()
        .duration_since(std::time::SystemTime::UNIX_EPOCH)
        .unwrap_or_default()
        .as_secs()
}

/// The current time as ISO 8601 text, e.g. `2026-03-30T12:00:00Z`.
pub fn now_iso8601() -> (r: String)
    ensures
        exists|secs: u64| r@ == iso8601_text(secs as nat),
{
    let secs = unix_time_seconds();
    iso8601_from_secs(secs)
}

} // verus!
