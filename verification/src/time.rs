//! Calendar arithmetic for report timestamps: proleptic Gregorian dates
//! counted in days from 1970-01-01.
use vstd::prelude::*;
use crate::text::{push_char, push_str, zero_padded, zero_padded_string};

verus! {

// ---------------------------------------------------------------------------
// The calendar
// ---------------------------------------------------------------------------

/// Gregorian leap year: divisible by 4, except centuries not divisible by 400.
pub open spec fn is_leap_year(y: int) -> bool {
    (y % 4 == 0 && y % 100 != 0) || y % 400 == 0
}

/// Number of days in year `y`.
pub open spec fn days_in_year(y: int) -> int {
    if is_leap_year(y) {
        366
    } else {
        365
    }
}

/// Number of days in month `m` (1 = January) of year `y`.
pub open spec fn days_in_month(y: int, m: int) -> int {
    if m == 2 {
        if is_leap_year(y) {
            29
        } else {
            28
        }
    } else if m == 4 || m == 6 || m == 9 || m == 11 {
        30
    } else {
        31
    }
}

/// `(y, m, d)` names a day of the calendar.
pub open spec fn is_valid_date(y: int, m: int, d: int) -> bool {
    1 <= m <= 12 && 1 <= d <= days_in_month(y, m)
}

/// Days from 1970-01-01 to January 1st of year `y` (negative before 1970).
pub open spec fn days_before_year(y: int) -> int
    decreases (if y >= 1970 { y - 1970 } else { 1970 - y }),
{
    if y > 1970 {
        days_before_year(y - 1) + days_in_year(y - 1)
    } else if y < 1970 {
        days_before_year(y + 1) - days_in_year(y)
    } else {
        0
    }
}

/// Days from January 1st of year `y` to the first day of month `m`.
pub open spec fn days_before_month(y: int, m: int) -> int
    decreases m,
{
    if m <= 1 {
        0
    } else {
        days_before_month(y, m - 1) + days_in_month(y, m - 1)
    }
}

/// Days from 1970-01-01 to the date `(y, m, d)`.
pub open spec fn days_from_civil(y: int, m: int, d: int) -> int {
    days_before_year(y) + days_before_month(y, m) + d - 1
}

// ---------------------------------------------------------------------------
// Closed forms
// ---------------------------------------------------------------------------

/// Leap years among the years `1 ..= y - 1` (counted negatively below year 1).
spec fn leap_years_before(y: int) -> int {
    (y - 1) / 4 - (y - 1) / 100 + (y - 1) / 400
}

proof fn lemma_leap_step(y: int)
    ensures
        leap_years_before(y + 1) == leap_years_before(y) + (if is_leap_year(y) { 1int } else { 0 }),
{
}

proof fn lemma_days_before_year_closed(y: int)
    ensures
        days_before_year(y) == 365 * (y - 1970) + leap_years_before(y) - 477,
    decreases (if y >= 1970 { y - 1970 } else { 1970 - y }),
{
    if y > 1970 {
        lemma_days_before_year_closed(y - 1);
        lemma_leap_step(y - 1);
    } else if y < 1970 {
        lemma_days_before_year_closed(y + 1);
        lemma_leap_step(y);
    }
}

/// Days from March 1st to the first day of the `mp`-th month counted from March.
spec fn march_month_start(mp: int) -> int {
    (153 * mp + 2) / 5
}

// ---------------------------------------------------------------------------
// Era arithmetic
// ---------------------------------------------------------------------------

/// Days from the start of a March-based year of a 400-year era to the start of
/// its year `k` (for `0 <= k <= 400`).
spec fn era_year_start(k: int) -> int {
    365 * k + k / 4 - k / 100 + k / 400
}

/// The year of the era that holds day `doe` of the era.
spec fn year_of_era(doe: int) -> int {
    (doe - doe / 1460 + doe / 36524 - doe / 146096) / 365
}

proof fn lemma_year_of_era(doe: int)
    requires
        0 <= doe <= 146096,
    ensures
        0 <= year_of_era(doe) <= 399,
        era_year_start(year_of_era(doe)) <= doe < era_year_start(year_of_era(doe) + 1),
{
}


proof fn lemma_era_year_length(era: int, k: int)
    requires
        0 <= k <= 399,
    ensures
        era_year_start(k + 1) - era_year_start(k) == days_in_year(400 * era + k + 1),
{
}

proof fn lemma_month_of_year(doy: int)
    requires
        0 <= doy <= 365,
    ensures
        0 <= (5 * doy + 2) / 153 <= 11,
        march_month_start((5 * doy + 2) / 153) <= doy < march_month_start((5 * doy + 2) / 153 + 1),
{
}

/// `days_before_month` in closed form: January and February from January 1st,
/// the other months from March 1st.
proof fn lemma_days_before_month_closed(y: int, m: int)
    requires
        1 <= m <= 12,
    ensures
        days_before_month(y, m) == (if m <= 2 {
            31 * (m - 1)
        } else {
            59 + (if is_leap_year(y) { 1int } else { 0 }) + march_month_start(m - 3)
        }),
{
    reveal_with_fuel(days_before_month, 12);
}

/// The date that day `doe` of era `era` (counted from March 1st of year
/// `400 * era`) falls on, as computed by `civil_from_days`.
spec fn era_date(era: int, doe: int) -> (int, int, int) {
    let yoe = year_of_era(doe);
    let doy = doe - era_year_start(yoe);
    let mp = (5 * doy + 2) / 153;
    let d = doy - march_month_start(mp) + 1;
    let m = if mp < 10 { mp + 3 } else { mp - 9 };
    let y = 400 * era + yoe;
    (if m <= 2 { y + 1 } else { y }, m, d)
}

proof fn lemma_leap_years_in_era(era: int, k: int)
    requires
        0 <= k <= 399,
    ensures
        leap_years_before(400 * era + k + 1) == 97 * era + k / 4 - k / 100,
{
}

/// March 1st of year `400 * era + k` is day `era_year_start(k)` of era `era`.
proof fn lemma_march_first(era: int, k: int)
    requires
        0 <= k <= 399,
    ensures
        days_before_year(400 * era + k) + 59 + (if is_leap_year(400 * era + k) { 1int } else { 0 })
            == 146097 * era + era_year_start(k) - 719468,
{
    let y0 = 400 * era + k;
    lemma_days_before_year_closed(y0);
    lemma_leap_step(y0);
    lemma_leap_years_in_era(era, k);
}

proof fn lemma_era_date(era: int, doe: int)
    requires
        0 <= doe <= 146096,
    ensures
        is_valid_date(era_date(era, doe).0, era_date(era, doe).1, era_date(era, doe).2),
        days_from_civil(era_date(era, doe).0, era_date(era, doe).1, era_date(era, doe).2)
            == 146097 * era + doe - 719468,
{
    let yoe = year_of_era(doe);
    lemma_year_of_era(doe);
    lemma_era_year_length(era, yoe);
    let doy = doe - era_year_start(yoe);
    lemma_month_of_year(doy);
    let mp = (5 * doy + 2) / 153;
    let y0 = 400 * era + yoe;
    let (y, m, d) = era_date(era, doe);
    lemma_days_before_month_closed(y, m);
    lemma_march_first(era, yoe);
    if m <= 2 {
        assert(y == y0 + 1);
        assert(days_before_year(y0 + 1) == days_before_year(y0) + days_in_year(y0));
    } else {
        assert(y == y0);
    }
}

// ---------------------------------------------------------------------------
// Uniqueness of dates
// ---------------------------------------------------------------------------

proof fn lemma_year_step(y: int)
    ensures
        days_before_year(y + 1) == days_before_year(y) + days_in_year(y),
{
    lemma_days_before_year_closed(y);
    lemma_days_before_year_closed(y + 1);
    lemma_leap_step(y);
}

proof fn lemma_years_increase(a: int, b: int)
    requires
        a <= b,
    ensures
        days_before_year(b) >= days_before_year(a) + 365 * (b - a),
    decreases b - a,
{
    if a < b {
        lemma_years_increase(a, b - 1);
        lemma_year_step(b - 1);
    }
}

/// A valid date lies within its year, and its month within the year.
proof fn lemma_date_in_year(y: int, m: int, d: int)
    requires
        is_valid_date(y, m, d),
    ensures
        days_before_year(y) <= days_from_civil(y, m, d) < days_before_year(y + 1),
        days_before_month(y, m) <= days_from_civil(y, m, d) - days_before_year(y) < days_before_month(y, m) + days_in_month(y, m),
{
    lemma_days_before_month_closed(y, m);
    lemma_year_step(y);
}

/// Two valid dates that are the same number of days from 1970-01-01 are the
/// same date.
pub proof fn lemma_days_from_civil_injective(y1: int, m1: int, d1: int, y2: int, m2: int, d2: int)
    requires
        is_valid_date(y1, m1, d1),
        is_valid_date(y2, m2, d2),
        days_from_civil(y1, m1, d1) == days_from_civil(y2, m2, d2),
    ensures
        y1 == y2 && m1 == m2 && d1 == d2,
{
    lemma_date_in_year(y1, m1, d1);
    lemma_date_in_year(y2, m2, d2);
    if y1 < y2 {
        lemma_years_increase(y1 + 1, y2);
    } else if y2 < y1 {
        lemma_years_increase(y2 + 1, y1);
    }
    assert(y1 == y2);
    lemma_days_before_month_closed(y1, m1);
    lemma_days_before_month_closed(y1, m2);
    if m1 < m2 {
        lemma_days_before_month_closed(y1, m1 + 1);
        lemma_months_increase(y1, m1 + 1, m2);
    } else if m2 < m1 {
        lemma_days_before_month_closed(y1, m2 + 1);
        lemma_months_increase(y1, m2 + 1, m1);
    }
}

proof fn lemma_months_increase(y: int, a: int, b: int)
    requires
        1 <= a <= b <= 12,
    ensures
        days_before_month(y, b) >= days_before_month(y, a),
    decreases b - a,
{
    if a < b {
        lemma_months_increase(y, a, b - 1);
    }
}

/// Every day has a date.
pub proof fn lemma_every_day_has_a_date(z: int)
    ensures
        exists|y: int, m: int, d: int| is_valid_date(y, m, d) && days_from_civil(y, m, d) == z,
{
    let zz = z + 719468;
    lemma_era_date(zz / 146097, zz % 146097);
    let t = era_date(zz / 146097, zz % 146097);
    assert(is_valid_date(t.0, t.1, t.2) && days_from_civil(t.0, t.1, t.2) == z);
}

/// The date of the day `z` days after 1970-01-01.
pub open spec fn date_of_day(z: int) -> (int, int, int) {
    choose|t: (int, int, int)| is_valid_date(t.0, t.1, t.2) && days_from_civil(t.0, t.1, t.2) == z
}

/// `date_of_day` names exactly the valid date that lies `z` days from 1970-01-01.
pub proof fn lemma_date_of_day(z: int, y: int, m: int, d: int)
    ensures
        (is_valid_date(y, m, d) && days_from_civil(y, m, d) == z) <==> date_of_day(z) == (y, m, d),
{
    lemma_every_day_has_a_date(z);
    let (y0, m0, d0) = choose|y: int, m: int, d: int| is_valid_date(y, m, d) && days_from_civil(y, m, d) == z;
    assert(is_valid_date((y0, m0, d0).0, (y0, m0, d0).1, (y0, m0, d0).2));
    let t = date_of_day(z);
    if is_valid_date(y, m, d) && days_from_civil(y, m, d) == z {
        lemma_days_from_civil_injective(y, m, d, t.0, t.1, t.2);
    }
}

// ---------------------------------------------------------------------------
// Executable conversions
// ---------------------------------------------------------------------------

/// Year of the era, month and day of day `doe` of a 400-year era.
fn date_in_era(doe: u64) -> (r: (u64, u32, u32))
    requires
        doe <= 146096,
    ensures
        r.0 == year_of_era(doe as int),
        r.0 <= 399,
        ({
            let t = era_date(0, doe as int);
            r.1 == t.1 && r.2 == t.2
        }),
{
    proof {
        lemma_year_of_era(doe as int);
    }
    let yoe: u64 = (doe - doe / 1460 + doe / 36524 - doe / 146096) / 365;
    assert(yoe == year_of_era(doe as int));
    let doy: u64 = doe - (365 * yoe + yoe / 4 - yoe / 100);
    assert(doy == doe - era_year_start(yoe as int));
    proof {
        lemma_era_year_length(0, yoe as int);
        lemma_month_of_year(doy as int);
    }
    let mp: u64 = (5 * doy + 2) / 153;
    assert(mp <= 11);
    let d: u32 = (doy - (153 * mp + 2) / 5 + 1) as u32;
    let m: u32 = if mp < 10 {
        (mp + 3) as u32
    } else {
        (mp - 9) as u32
    };
    (yoe, m, d)
}

/// The calendar date `(year, month, day)` of the day `z` days after 1970-01-01
/// (negative `z` counts back from it).
pub fn civil_from_days(z: i64) -> (r: (i64, u32, u32))
    requires
        z <= i64::MAX - 719468,
    ensures
        is_valid_date(r.0 as int, r.1 as int, r.2 as int),
        days_from_civil(r.0 as int, r.1 as int, r.2 as int) == z,
        (r.0 as int, r.1 as int, r.2 as int) == date_of_day(z as int),
{
    let zz: i64 = z + 719468;
    let era: i64 = match zz.checked_div_euclid(146097) {
        Some(q) => q,
        None => 0,
    };
    let doe: u64 = match zz.checked_rem_euclid(146097) {
        Some(r) => r as u64,
        None => 0,
    };
    assert(era == zz as int / 146097 && doe == zz as int % 146097);
    assert(-64000000000000 <= era <= 64000000000000) by (nonlinear_arith)
        requires
            era == zz as int / 146097,
            i64::MIN <= zz <= i64::MAX,
    ;
    let (yoe, m, d) = date_in_era(doe);
    let y: i64 = yoe as i64 + era * 400;
    let year: i64 = if m <= 2 {
        y + 1
    } else {
        y
    };
    proof {
        lemma_era_date(era as int, doe as int);
        lemma_date_of_day(z as int, year as int, m as int, d as int);
    }
    (year, m, d)
}

// ---------------------------------------------------------------------------
// Report timestamps
// ---------------------------------------------------------------------------

/// A year as `{:04}` prints it: zero-padded to four characters, the sign
/// counted among them.
pub open spec fn year_text(y: int) -> Seq<char> {
    if y >= 0 {
        zero_padded(y as nat, 4)
    } else {
        seq!['-'] + zero_padded((-y) as nat, 3)
    }
}

/// `YYYY-MM-DD HH:MM UTC` for the instant `secs` seconds after 1970-01-01 00:00 UTC.
pub open spec fn timestamp_text(secs: int) -> Seq<char> {
    let date = date_of_day(secs / 86400);
    let t = secs % 86400;
    year_text(date.0) + seq!['-'] + zero_padded(date.1 as nat, 2) + seq!['-'] + zero_padded(
        date.2 as nat,
        2,
    ) + seq![' '] + zero_padded((t / 3600) as nat, 2) + seq![':'] + zero_padded(
        (t % 3600 / 60) as nat,
        2,
    ) + seq![' ', 'U', 'T', 'C']
}

/// Appends `{:0width$}` of a small non-negative number.
fn push_padded(s: &mut String, n: u64, width: usize)
    ensures
        final(s)@ == old(s)@ + zero_padded(n as nat, width as nat),
{
    let t = zero_padded_string(n, width);
    push_str(s, t.as_str());
}

/// `YYYY-MM-DD HH:MM UTC` for the instant `secs` seconds after the Unix epoch.
pub fn format_timestamp(secs: i64) -> (r: String)
    ensures
        r@ == timestamp_text(secs as int),
{
    let days: i64 = match secs.checked_div_euclid(86400) {
        Some(q) => q,
        None => 0,
    };
    let day_secs: i64 = match secs.checked_rem_euclid(86400) {
        Some(r) => r,
        None => 0,
    };
    assert(days == secs as int / 86400 && day_secs == secs as int % 86400);
    assert(-200000000000000 <= days <= 200000000000000) by (nonlinear_arith)
        requires
            days == secs as int / 86400,
            i64::MIN <= secs <= i64::MAX,
    ;
    let (y, m, d) = civil_from_days(days);
    let hh: u64 = (day_secs / 3600) as u64;
    let mm: u64 = ((day_secs % 3600) / 60) as u64;
    let mut s = String::new();
    if y >= 0 {
        push_padded(&mut s, y as u64, 4);
    } else {
        push_char(&mut s, '-');
        push_padded(&mut s, (-(y + 1)) as u64 + 1, 3);
    }
    push_char(&mut s, '-');
    push_padded(&mut s, m as u64, 2);
    push_char(&mut s, '-');
    push_padded(&mut s, d as u64, 2);
    push_char(&mut s, ' ');
    push_padded(&mut s, hh, 2);
    push_char(&mut s, ':');
    push_padded(&mut s, mm, 2);
    push_char(&mut s, ' ');
    push_char(&mut s, 'U');
    push_char(&mut s, 'T');
    push_char(&mut s, 'C');
    assert(s@ =~= timestamp_text(secs as int));
    s
}

/// A reading of the system clock, carried through unopened.
#[verifier::external_type_specification]
#[verifier::external_body]
pub struct ExSystemTime(std::time::SystemTime);

/// Calls `SystemTime::now`: the clock's reading at the call. Nothing is
/// stated of it.
#[verifier::external_body]
fn clock_now() -> std::time::SystemTime {
    std::time::SystemTime::now()
}

/// Calls `SystemTime::duration_since` with the Unix epoch: the time from the
/// epoch to `t`, `None` for a reading before the epoch. Nothing is stated of
/// the value, which is the clock's.
#[verifier::external_body]
fn since_epoch(t: &std::time::SystemTime) -> Option<core::time::Duration> {
    match t.duration_since(std::time::UNIX_EPOCH) {
        Ok(d) => Some(d),
        Err(_) => None,
    }
}

/// Calls `Duration::as_secs`: the whole seconds of `d`. Nothing is stated of
/// the value.
#[verifier::external_body]
fn whole_secs(d: &core::time::Duration) -> u64 {
    d.as_secs()
}

/// The current UTC time as `YYYY-MM-DD HH:MM UTC`.
pub fn report_timestamp() -> (r: String)
    ensures
        exists|secs: i64| r@ == timestamp_text(secs as int),
{
    let now = clock_now();
    let secs: u64 = match since_epoch(&now) {
        Some(d) => whole_secs(&d),
        None => 0,
    };
    format_timestamp(secs as i64)
}

/// Every valid date is the date of its own day count: `date_of_day` and
/// `days_from_civil` are inverse on valid dates.
pub proof fn law_date_round_trip(y: int, m: int, d: int)
    requires
        is_valid_date(y, m, d),
    ensures
        date_of_day(days_from_civil(y, m, d)) == (y, m, d),
{
    lemma_date_of_day(days_from_civil(y, m, d), y, m, d);
}

/// Consecutive days have consecutive day counts: the day after a date is the
/// next day of its month, or the first of the next month or year.
pub proof fn law_next_day(z: int)
    ensures
        ({
            let (y, m, d) = date_of_day(z);
            date_of_day(z + 1) == (if d < days_in_month(y, m) {
                (y, m, d + 1)
            } else if m < 12 {
                (y, m + 1, 1)
            } else {
                (y + 1, 1, 1)
            })
        }),
{
    let (y, m, d) = date_of_day(z);
    lemma_date_of_day(z, y, m, d);
    lemma_every_day_has_a_date(z);
    let (y0, m0, d0) = choose|y: int, m: int, d: int| is_valid_date(y, m, d) && days_from_civil(y, m, d) == z;
    lemma_date_of_day(z, y0, m0, d0);
    let next = if d < days_in_month(y, m) {
        (y, m, d + 1)
    } else if m < 12 {
        (y, m + 1, 1)
    } else {
        (y + 1, 1, 1)
    };
    lemma_days_before_month_closed(y, m);
    if d < days_in_month(y, m) {
    } else if m < 12 {
        lemma_days_before_month_closed(y, m + 1);
    } else {
        lemma_year_step(y);
        lemma_days_before_month_closed(y + 1, 1);
    }
    assert(is_valid_date(next.0, next.1, next.2) && days_from_civil(next.0, next.1, next.2) == z + 1);
    lemma_date_of_day(z + 1, next.0, next.1, next.2);
}

} // verus!
