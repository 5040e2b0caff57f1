//! Reading the clock and turning seconds since the Unix epoch into a calendar stamp.
use vstd::prelude::*;

use crate::text::{decimal, decimal2, decimal4, push_char, push_decimal2, push_decimal4};

verus! {

#[verifier::external_type_specification]
#[verifier::external_body]
pub struct ExSystemTime(std::time::SystemTime);

/// `std::time::SystemTime::now`: the clock's current reading. Nothing is promised of it.
#[verifier::external_body]
fn system_now() -> (r: std::time::SystemTime) {
    std::time::SystemTime::now()
}

/// `SystemTime::duration_since(UNIX_EPOCH)`: the time since the epoch, none for a time before
/// it. What it gives depends on the clock reading, so no clause states it.
#[verifier::external_body]
fn since_epoch(t: &std::time::SystemTime) -> (r: Option<std::time::Duration>) {
    t.duration_since(std::time::UNIX_EPOCH).ok()
}

/// `Duration::as_secs`: the whole seconds of `d`. A duration's contents are not visible here,
/// so no clause states it.
#[verifier::external_body]
fn whole_secs(d: &std::time::Duration) -> (r: u64) {
    d.as_secs()
}

/// Whole seconds since the Unix epoch now, or 0 when the clock reads earlier than the epoch.
pub fn unix_secs() -> (r: u64) {
    let now = system_now();
    match since_epoch(&now) {
        Some(d) => whole_secs(&d),
        None => 0,
    }
}

/// A leap year of the Gregorian calendar.
pub open spec fn is_leap(y: nat) -> bool {
    (y % 4 == 0 && y % 100 != 0) || y % 400 == 0
}

/// Days in year `y`.
pub open spec fn year_days(y: nat) -> nat {
    if is_leap(y) {
        366
    } else {
        365
    }
}

/// Days in month `m` (1 to 12) of year `y`.
pub open spec fn month_days(y: nat, m: nat) -> nat {
    if m == 2 {
        if is_leap(y) {
            29
        } else {
            28
        }
    } else if m == 4 || m == 6 || m == 9 || m == 11 {
        30
    } else {
        31
    }
}

/// The year that day `days` counted from 1 January of `y` falls in, and the day's index in
/// that year.
pub open spec fn year_of(y: nat, days: nat) -> (nat, nat)
    decreases days,
{
    if days < year_days(y) {
        (y, days)
    } else {
        year_of(y + 1, (days - year_days(y)) as nat)
    }
}

/// The month that day `days` counted from the first of month `m` of year `y` falls in (no
/// later than December), and the day's index in that month.
pub open spec fn month_of(y: nat, m: nat, days: nat) -> (nat, nat)
    decreases 12 - m,
{
    if m >= 12 || days < month_days(y, m) {
        (m, days)
    } else {
        month_of(y, m + 1, (days - month_days(y, m)) as nat)
    }
}

/// The UTC calendar time `secs` seconds after 1970-01-01 00:00:00: year, month, day, hour,
/// minute and second.
pub open spec fn civil(secs: nat) -> (nat, nat, nat, nat, nat, nat) {
    let (y, day_of_year) = year_of(1970, secs / 86400);
    let (m, day_of_month) = month_of(y, 1, day_of_year);
    (y, m, day_of_month + 1, (secs % 86400) / 3600, (secs % 3600) / 60, secs % 60)
}

/// `YYYYMMDD-HHMMSS` of the calendar time `secs` seconds after the epoch.
pub open spec fn stamp_spec(secs: nat) -> Seq<char> {
    let c = civil(secs);
    decimal4(c.0) + decimal2(c.1) + decimal2(c.2) + seq!['-'] + decimal2(c.3) + decimal2(c.4)
        + decimal2(c.5)
}

/// Days in the months of year `y` before month `m`.
pub open spec fn days_before_month(y: nat, m: nat) -> nat
    decreases m,
{
    if m <= 1 {
        0
    } else {
        days_before_month(y, (m - 1) as nat) + month_days(y, (m - 1) as nat)
    }
}

/// Days in the years from `a` up to, not including, `b`.
pub open spec fn days_in_years(a: nat, b: nat) -> nat
    decreases b - a,
{
    if b <= a {
        0
    } else {
        year_days(a) + days_in_years(a + 1, b)
    }
}

/// The months of a year add up to the year: February has 29 days exactly in leap years, and
/// every month has 28 to 31 days.
pub proof fn lemma_months_fill_the_year(y: nat)
    ensures
        days_before_month(y, 13) == year_days(y),
        month_days(y, 2) == 29 <==> is_leap(y),
        forall|m: nat| 1 <= m <= 12 ==> 28 <= #[trigger] month_days(y, m) <= 31,
{
    reveal_with_fuel(days_before_month, 13);
}

proof fn lemma_year_of(y0: nat, days: nat)
    ensures
        year_of(y0, days).0 >= y0,
        days_in_years(y0, year_of(y0, days).0) + year_of(y0, days).1 == days,
        year_of(y0, days).1 < year_days(year_of(y0, days).0),
    decreases days,
{
    if days >= year_days(y0) {
        lemma_year_of(y0 + 1, (days - year_days(y0)) as nat);
    }
}

proof fn lemma_month_of(y: nat, m0: nat, days: nat)
    requires
        1 <= m0 <= 12,
        days_before_month(y, m0) + days < year_days(y),
    ensures
        m0 <= month_of(y, m0, days).0 <= 12,
        days_before_month(y, month_of(y, m0, days).0) + month_of(y, m0, days).1 == days_before_month(
            y,
            m0,
        ) + days,
        month_of(y, m0, days).1 < month_days(y, month_of(y, m0, days).0),
    decreases 12 - m0,
{
    if m0 < 12 && days >= month_days(y, m0) {
        lemma_month_of(y, m0 + 1, (days - month_days(y, m0)) as nat);
    } else if m0 == 12 {
        lemma_months_fill_the_year(y);
        assert(days_before_month(y, 13) == days_before_month(y, 12) + month_days(y, 12));
    }
}

/// A stamp's calendar time is a valid date and time, and counting its years, months, days,
/// hours, minutes and seconds from 1970-01-01 00:00:00 gives back exactly `secs`.
pub proof fn lemma_civil_counts_back_to_secs(secs: nat)
    ensures
        ({
            let c = civil(secs);
            &&& c.0 >= 1970
            &&& 1 <= c.1 <= 12
            &&& 1 <= c.2 <= month_days(c.0, c.1)
            &&& c.3 < 24 && c.4 < 60 && c.5 < 60
            &&& (days_in_years(1970, c.0) + days_before_month(c.0, c.1) + (c.2 - 1)) * 86400 + c.3
                * 3600 + c.4 * 60 + c.5 == secs
        }),
{
    let days = secs / 86400;
    lemma_year_of(1970, days);
    let (y, doy) = year_of(1970, days);
    assert(days_before_month(y, 1) == 0);
    lemma_month_of(y, 1, doy);
    let (m, dom) = month_of(y, 1, doy);
    let rest = secs % 86400;
    assert(secs == days * 86400 + rest && rest < 86400) by (nonlinear_arith)
        requires
            days == secs / 86400,
            rest == secs % 86400,
    ;
    assert(rest == (rest / 3600) * 3600 + ((secs % 3600) / 60) * 60 + secs % 60 && rest / 3600
        < 24 && (secs % 3600) / 60 < 60) by (nonlinear_arith)
        requires
            rest == secs % 86400,
            secs >= 0,
    ;
}

fn year_days_of(y: u64) -> (r: u64)
    ensures
        r == year_days(y as nat),
{
    if (y % 4 == 0 && y % 100 != 0) || y % 400 == 0 {
        366
    } else {
        365
    }
}

fn month_days_of(y: u64, m: u64) -> (r: u64)
    ensures
        r == month_days(y as nat, m as nat),
{
    if m == 2 {
        if (y % 4 == 0 && y % 100 != 0) || y % 400 == 0 {
            29
        } else {
            28
        }
    } else if m == 4 || m == 6 || m == 9 || m == 11 {
        30
    } else {
        31
    }
}

/// The calendar stamp `YYYYMMDD-HHMMSS` (UTC) of `secs` seconds after the Unix epoch.
pub fn stamp_of(secs: u64) -> (r: String)
    ensures
        r@ == stamp_spec(secs as nat),
{
    let total_days = secs / 86400;
    let mut days = total_days;
    let mut y: u64 = 1970;
    while days >= year_days_of(y)
        invariant
            days <= total_days,
            total_days == secs / 86400,
            (y - 1970) * 365 <= total_days - days,
            y >= 1970,
            year_of(y as nat, days as nat) == year_of(1970, total_days as nat),
        decreases days,
    {
        days = days - year_days_of(y);
        y = y + 1;
    }
    let mut m: u64 = 1;
    while m < 12 && days >= month_days_of(y, m)
        invariant
            1 <= m <= 12,
            days < 367,
            month_of(y as nat, m as nat, days as nat) == month_of(
                y as nat,
                1,
                year_of(1970, total_days as nat).1,
            ),
            year_of(1970, total_days as nat) == (y as nat, year_of(1970, total_days as nat).1),
        decreases 12 - m,
    {
        days = days - month_days_of(y, m);
        m = m + 1;
    }
    let rest = secs % 86400;
    let mut out = String::new();
    push_decimal4(&mut out, y);
    push_decimal2(&mut out, m);
    push_decimal2(&mut out, days + 1);
    push_char(&mut out, '-');
    push_decimal2(&mut out, rest / 3600);
    push_decimal2(&mut out, (secs % 3600) / 60);
    push_decimal2(&mut out, secs % 60);
    assert(out@ =~= stamp_spec(secs as nat));
    out
}

} // verus!
