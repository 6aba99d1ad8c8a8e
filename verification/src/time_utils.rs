use vstd::prelude::*;

verus! {

/// Gregorian leap-year rule.
pub open spec fn leap_year(year: int) -> bool {
    (year % 4 == 0 && year % 100 != 0) || year % 400 == 0
}

/// Number of days in the given year.
pub open spec fn days_in_year(year: int) -> int {
    if leap_year(year) { 366 } else { 365 }
}

/// Days from 1970-01-01 to January 1st of `year`: positive after 1970,
/// negative before it.
pub open spec fn days_before_year(year: int) -> int
    decreases (if year >= 1970 { year - 1970 } else { 1970 - year }),
{
    if year == 1970 {
        0
    } else if year > 1970 {
        days_before_year(year - 1) + days_in_year(year - 1)
    } else {
        days_before_year(year + 1) - days_in_year(year)
    }
}

/// `year` is the year (clamped to 1970..=2100) that holds day number `days`
/// counted from the epoch: days before the epoch fall in 1970, days from
/// 2100-01-01 on fall in 2100.
pub open spec fn year_holds_day(days: int, year: int) -> bool {
    &&& 1970 <= year <= 2100
    &&& (year == 1970 || days_before_year(year) <= days)
    &&& (year == 2100 || days < days_before_year(year + 1))
}

/// Converts a day count since the epoch into its year, within 1970..=2100.
pub fn days_since_epoch_to_year(days: i64) -> (year: i64)
    ensures
        year_holds_day(days as int, year as int),
{
    let mut remaining = days;
    let mut year: i64 = 1970;
    loop
        invariant
            1970 <= year <= 2100,
            remaining == days - days_before_year(year as int),
            year == 1970 || days_before_year(year as int) <= days,
        ensures
            1970 <= year <= 2100,
            year == 1970 || days_before_year(year as int) <= days,
            year == 2100 || days < days_before_year(year + 1),
        decreases 2100 - year,
    {
        let days_in_year: i64 = if is_leap(year) { 366 } else { 365 };
        if remaining < days_in_year {
            break;
        }
        if year == 2100 {
            break;
        }
        remaining -= days_in_year;
        year += 1;
    }
    year
}

/// Whether `year` is a leap year.
pub fn is_leap(year: i64) -> (leap: bool)
    ensures
        leap == leap_year(year as int),
{
    let by4 = year % 4 == 0;
    let by100 = year % 100 == 0;
    let by400 = year % 400 == 0;
    (by4 && !by100) || by400
}

/// Unix timestamp (seconds) of January 1st, 00:00 UTC, of `year`; negative
/// for years before 1970.
pub fn year_start_timestamp(year: i64) -> (ts: i64)
    requires
        i64::MIN <= days_before_year(year as int) * 86400 <= i64::MAX,
    ensures
        ts == days_before_year(year as int) * 86400,
{
    let mut days: i64 = 0;
    let mut y: i64 = 1970;
    if year >= 1970 {
        while y < year
            invariant
                1970 <= y <= year,
                days == days_before_year(y as int),
                0 <= days,
                days_before_year(year as int) * 86400 <= i64::MAX,
            decreases year - y,
        {
            proof {
                lemma_days_before_year_step(y as int);
                lemma_days_before_year_monotone(y + 1, year as int);
            }
            days += if is_leap(y) { 366 } else { 365 };
            y += 1;
        }
    } else {
        while y > year
            invariant
                year <= y <= 1970,
                days == days_before_year(y as int),
                days <= 0,
                i64::MIN <= days_before_year(year as int) * 86400,
            decreases y - year,
        {
            proof {
                lemma_days_before_year_step((y - 1) as int);
                lemma_days_before_year_monotone(year as int, y - 1);
                lemma_days_before_year_monotone(y - 1, 1970);
            }
            y -= 1;
            days -= if is_leap(y) { 366 } else { 365 };
        }
    }
    days * 86400
}

/// Going from one year to the next adds the days of the first.
pub proof fn lemma_days_before_year_step(year: int)
    ensures
        days_before_year(year + 1) == days_before_year(year) + days_in_year(year),
{
    if year + 1 < 1970 {
        assert(days_before_year(year) == days_before_year(year + 1) - days_in_year(year));
    } else if year + 1 == 1970 {
        assert(days_before_year(year) == days_before_year(1970) - days_in_year(year));
    }
}

/// Days before a year never decrease as the year grows.
pub proof fn lemma_days_before_year_monotone(a: int, b: int)
    requires
        a <= b,
    ensures
        days_before_year(a) <= days_before_year(b),
    decreases b - a,
{
    if a < b {
        lemma_days_before_year_monotone(a, b - 1);
        lemma_days_before_year_step(b - 1);
    }
}

/// January 1st of a later year is strictly later.
pub proof fn lemma_days_before_year_strict(a: int, b: int)
    requires
        a < b,
    ensures
        days_before_year(a) < days_before_year(b),
    decreases b - a,
{
    lemma_days_before_year_step(b - 1);
    if a + 1 < b {
        lemma_days_before_year_strict(a, b - 1);
    }
}

/// Law: a day belongs to exactly one year, so the year that
/// `days_since_epoch_to_year` returns is determined by its input.
pub proof fn law_year_of_day_unique(days: int, y1: int, y2: int)
    requires
        year_holds_day(days, y1),
        year_holds_day(days, y2),
    ensures
        y1 == y2,
{
    if y1 < y2 {
        lemma_days_before_year_monotone(y1 + 1, y2);
    } else if y2 < y1 {
        lemma_days_before_year_monotone(y2 + 1, y1);
    }
}

/// Law: the first day of each year from 1970 to 2100 is placed in that very
/// year, so `days_since_epoch_to_year` undoes the day count of
/// `year_start_timestamp`.
pub proof fn law_year_start_round_trip(year: int)
    requires
        1970 <= year <= 2100,
    ensures
        year_holds_day(days_before_year(year), year),
{
    lemma_days_before_year_strict(year, year + 1);
}

/// Law: for a timestamp `now` at or after the epoch, the start of the year
/// computed from its day number is never after `now`, and (below 2100) the
/// start of the following year is after `now`: the window from the year's
/// start to `now` lies within the current year.
pub proof fn law_year_start_not_after(now: int, year: int)
    requires
        now >= 0,
        year_holds_day(now / 86400, year),
    ensures
        days_before_year(year) * 86400 <= now,
        year < 2100 ==> now < days_before_year(year + 1) * 86400,
{
    let d = now / 86400;
    assert(d * 86400 <= now < d * 86400 + 86400);
    lemma_days_before_year_monotone(1970, year);
    if year == 1970 {
        assert(days_before_year(1970) == 0);
    }
}

/// Law: `year_start_timestamp` is strictly increasing, and the gap between
/// consecutive years is 366 days exactly for leap years and 365 days otherwise.
pub proof fn law_year_start_increasing(a: int, b: int)
    requires
        a < b,
    ensures
        days_before_year(a) * 86400 < days_before_year(b) * 86400,
        days_before_year(a + 1) - days_before_year(a) == (if leap_year(a) { 366int } else { 365int }),
{
    lemma_days_before_year_strict(a, b);
    lemma_days_before_year_step(a);
}

} // verus!
