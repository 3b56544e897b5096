use vstd::prelude::*;

verus! {

/// Why a calendar coordinate was rejected.
#[derive(Copy, Clone, PartialEq, Eq, Structural, Debug)]
pub enum DateError {
    /// The year lies before 2014, the floor of the supported domain.
    TooEarly,
    /// The year lies beyond the last fully supported calendar year.
    BadYear,
    /// The month is outside 1..=12.
    BadMonth,
    /// The week is outside 1..=5, or its first day overflows the month.
    BadWeek,
}

/// Years strictly above this bound are rejected, matching the last year the
/// calendar arithmetic is defined for.
pub const MAX_YEAR: i32 = 262142;

/// The proleptic Gregorian leap-year rule.
pub open spec fn is_leap_year(y: int) -> bool {
    (y % 4 == 0 && y % 100 != 0) || y % 400 == 0
}

pub open spec fn days_in_year(y: int) -> int {
    if is_leap_year(y) {
        366
    } else {
        365
    }
}

pub open spec fn days_in_month_spec(y: int, m: int) -> int {
    if m == 2 {
        if is_leap_year(y) {
            29
        } else {
            28
        }
    } else if m == 4 || m == 6 || m == 9 || m == 11 {
        30
    } else {
        31
    }
}

/// Days of all years from 1970 up to (excluding) `y`.
pub open spec fn days_before_year(y: int) -> int
    decreases y,
{
    if y <= 1970 {
        0
    } else {
        days_before_year(y - 1) + days_in_year(y - 1)
    }
}

/// Days of all months of year `y` before month `m`.
pub open spec fn days_before_month(y: int, m: int) -> int
    decreases m,
{
    if m <= 1 {
        0
    } else {
        days_before_month(y, m - 1) + days_in_month_spec(y, m - 1)
    }
}

/// Days since 1970-01-01 of the civil date `(y, m, d)`.
pub open spec fn days_from_epoch(y: int, m: int, d: int) -> int {
    days_before_year(y) + days_before_month(y, m) + (d - 1)
}

/// UTC timestamp of midnight on the civil date `(y, m, d)`.
pub open spec fn timestamp_of(y: int, m: int, d: int) -> int {
    days_from_epoch(y, m, d) * 86400
}

/// Day of week of the first of `(y, m)`, numbered 1 (Monday) … 7 (Sunday).
/// 1970-01-01 was a Thursday, hence the offset of 3.
pub open spec fn weekday_from_monday(y: int, m: int) -> int {
    (days_from_epoch(y, m, 1) + 3) % 7 + 1
}

/// First day-of-month of week `w` of `(y, m)`: weeks are Monday-start and
/// numbered relative to the month, and week 1 begins on the month's first
/// Monday-aligned boundary `1 + weekday_from_monday`.
pub open spec fn week_start_day(y: int, m: int, w: int) -> int {
    (w - 1) * 7 + 1 + weekday_from_monday(y, m)
}

proof fn lemma_days_before_year_bounds(y: int)
    requires
        1970 <= y,
    ensures
        365 * (y - 1970) <= days_before_year(y) <= 366 * (y - 1970),
    decreases y,
{
    if y > 1970 {
        lemma_days_before_year_bounds(y - 1);
    }
}

proof fn lemma_days_before_month_bounds(y: int, m: int)
    requires
        1 <= m <= 13,
    ensures
        0 <= days_before_month(y, m) <= 31 * (m - 1),
    decreases m,
{
    if m > 1 {
        lemma_days_before_month_bounds(y, m - 1);
    }
}

fn is_leap(year: i32) -> (r: bool)
    requires
        year >= 1970,
    ensures
        r == is_leap_year(year as int),
{
    (year % 4 == 0 && year % 100 != 0) || year % 400 == 0
}

/// Length of a month of the civil calendar.
pub fn days_in_month(year: i32, month: u32) -> (r: u32)
    requires
        year >= 1970,
        1 <= month <= 12,
    ensures
        r as int == days_in_month_spec(year as int, month as int),
        28 <= r <= 31,
{
    match month {
        2 => if is_leap(year) {
            29
        } else {
            28
        },
        4 | 6 | 9 | 11 => 30,
        _ => 31,
    }
}

fn days_before_year_exec(year: i32) -> (r: i64)
    requires
        1970 <= year <= 262144,
    ensures
        r as int == days_before_year(year as int),
        0 <= r <= 366 * (year as int - 1970),
{
    let mut y: i32 = 1970;
    let mut acc: i64 = 0;
    while y < year
        invariant
            1970 <= y <= year <= 262144,
            acc == days_before_year(y as int),
            0 <= acc <= 366 * (y as int - 1970),
        decreases year - y,
    {
        if is_leap(y) {
            acc = acc + 366;
        } else {
            acc = acc + 365;
        }
        y = y + 1;
    }
    acc
}

fn days_before_month_exec(year: i32, month: u32) -> (r: i64)
    requires
        year >= 1970,
        1 <= month <= 12,
    ensures
        r as int == days_before_month(year as int, month as int),
        0 <= r <= 372,
{
    let mut m: u32 = 1;
    let mut acc: i64 = 0;
    while m < month
        invariant
            1 <= m <= month <= 12,
            year >= 1970,
            acc == days_before_month(year as int, m as int),
            0 <= acc <= 31 * (m as int - 1),
        decreases month - m,
    {
        proof {
            lemma_days_before_month_bounds(year as int, m as int + 1);
        }
        acc = acc + days_in_month(year, m) as i64;
        m = m + 1;
    }
    acc
}

/// UTC timestamp of midnight on the civil date `(year, month, day)`.
pub fn timestamp_of_date(year: i32, month: u32, day: u32) -> (r: i64)
    requires
        1970 <= year <= 262144,
        1 <= month <= 12,
        1 <= day <= 31,
    ensures
        r as int == timestamp_of(year as int, month as int, day as int),
        0 <= r <= 10_000_000_000_000,
{
    let dy = days_before_year_exec(year);
    let dm = days_before_month_exec(year, month);
    let days: i64 = dy + dm + day as i64 - 1;
    days * 86400
}

/// Start of the year window: midnight UTC on January 1st.
///
/// Years before 2014 are rejected because the ranked platform did not exist
/// then; years beyond `MAX_YEAR` are outside the supported calendar.
pub fn get_date_from_year(year: i32) -> (r: Result<i64, DateError>)
    ensures
        r is Ok <==> 2014 <= year <= MAX_YEAR,
        r matches Ok(t) ==> t as int == timestamp_of(year as int, 1, 1),
        year < 2014 ==> r == Result::<i64, DateError>::Err(DateError::TooEarly),
        year > MAX_YEAR ==> r == Result::<i64, DateError>::Err(DateError::BadYear),
{
    if year < 2014 {
        return Err(DateError::TooEarly);
    }
    if year > MAX_YEAR {
        return Err(DateError::BadYear);
    }
    Ok(timestamp_of_date(year, 1, 1))
}

/// Start of the month window: midnight UTC on the first of the month.
/// Year errors take precedence over the month check.
pub fn get_date_from_month(year: i32, month: u32) -> (r: Result<i64, DateError>)
    ensures
        r is Ok <==> (2014 <= year <= MAX_YEAR && 1 <= month <= 12),
        r matches Ok(t) ==> t as int == timestamp_of(year as int, month as int, 1),
        year < 2014 ==> r == Result::<i64, DateError>::Err(DateError::TooEarly),
        year > MAX_YEAR ==> r == Result::<i64, DateError>::Err(DateError::BadYear),
        (2014 <= year <= MAX_YEAR && !(1 <= month <= 12)) ==> r == Result::<
            i64,
            DateError,
        >::Err(DateError::BadMonth),
{
    match get_date_from_year(year) {
        Ok(_) => {},
        Err(e) => {
            return Err(e);
        },
    };
    if month < 1 || month > 12 {
        return Err(DateError::BadMonth);
    }
    Ok(timestamp_of_date(year, month, 1))
}

/// Start of the week window: midnight UTC on the first day of the month's
/// `week`-th Monday-start week, per `week_start_day`. The week always spans
/// seven full days and may run into the next month; a week number outside
/// 1..=5, or a start day that overflows the month, is rejected. Year and
/// month errors take precedence.
pub fn get_date_from_week(year: i32, month: u32, week: u32) -> (r: Result<i64, DateError>)
    ensures
        r is Ok <==> (2014 <= year <= MAX_YEAR && 1 <= month <= 12 && 1 <= week <= 5
            && week_start_day(year as int, month as int, week as int) <= days_in_month_spec(
            year as int,
            month as int,
        )),
        r matches Ok(t) ==> t as int == timestamp_of(
            year as int,
            month as int,
            week_start_day(year as int, month as int, week as int),
        ) && 0 <= t <= 10_000_000_000_000,
        year < 2014 ==> r == Result::<i64, DateError>::Err(DateError::TooEarly),
        year > MAX_YEAR ==> r == Result::<i64, DateError>::Err(DateError::BadYear),
        (2014 <= year <= MAX_YEAR && !(1 <= month <= 12)) ==> r == Result::<
            i64,
            DateError,
        >::Err(DateError::BadMonth),
        (r is Err && 2014 <= year <= MAX_YEAR && 1 <= month <= 12) ==> r == Result::<
            i64,
            DateError,
        >::Err(DateError::BadWeek),
{
    match get_date_from_month(year, month) {
        Ok(_) => {},
        Err(e) => {
            return Err(e);
        },
    };
    let dy = days_before_year_exec(year);
    let dm = days_before_month_exec(year, month);
    let days: i64 = dy + dm;
    let base_day: i64 = 1 + ((days + 3) % 7 + 1);
    let day: i64 = if 1 <= week && week <= 5 {
        ((week as i64) - 1) * 7 + base_day
    } else {
        32  // no week starts here: forces the overflow rejection below
    };
    if day > days_in_month(year, month) as i64 {
        return Err(DateError::BadWeek);
    }
    Ok(timestamp_of_date(year, month, day as u32))
}

/// The half-open year window `[Jan 1 of year, Jan 1 of year + 1)`.
pub fn window_from_year(year: i32) -> (r: Result<(i64, i64), DateError>)
    ensures
        r is Ok <==> 2014 <= year <= MAX_YEAR,
        r matches Ok(w) ==> w.0 as int == timestamp_of(year as int, 1, 1) && w.1 as int
            == timestamp_of(year as int + 1, 1, 1),
        year < 2014 ==> r == Result::<(i64, i64), DateError>::Err(DateError::TooEarly),
        year > MAX_YEAR ==> r == Result::<(i64, i64), DateError>::Err(DateError::BadYear),
{
    let from = match get_date_from_year(year) {
        Ok(t) => t,
        Err(e) => {
            return Err(e);
        },
    };
    let to = timestamp_of_date(year + 1, 1, 1);
    Ok((from, to))
}

/// The half-open month window `[1st of month, 1st of the next month)`,
/// rolling into January of the next year after December.
pub fn window_from_month(year: i32, month: u32) -> (r: Result<(i64, i64), DateError>)
    ensures
        r is Ok <==> (2014 <= year <= MAX_YEAR && 1 <= month <= 12),
        r matches Ok(w) ==> w.0 as int == timestamp_of(year as int, month as int, 1) && w.1 as int
            == (if month == 12 {
            timestamp_of(year as int + 1, 1, 1)
        } else {
            timestamp_of(year as int, month as int + 1, 1)
        }),
        year < 2014 ==> r == Result::<(i64, i64), DateError>::Err(DateError::TooEarly),
        year > MAX_YEAR ==> r == Result::<(i64, i64), DateError>::Err(DateError::BadYear),
        (2014 <= year <= MAX_YEAR && !(1 <= month <= 12)) ==> r == Result::<
            (i64, i64),
            DateError,
        >::Err(DateError::BadMonth),
{
    let from = match get_date_from_month(year, month) {
        Ok(t) => t,
        Err(e) => {
            return Err(e);
        },
    };
    let to = if month == 12 {
        timestamp_of_date(year + 1, 1, 1)
    } else {
        timestamp_of_date(year, month + 1, 1)
    };
    Ok((from, to))
}

/// The half-open week window: seven full days from the week's start,
/// regardless of month boundaries.
pub fn window_from_week(year: i32, month: u32, week: u32) -> (r: Result<(i64, i64), DateError>)
    ensures
        r is Ok <==> (2014 <= year <= MAX_YEAR && 1 <= month <= 12 && 1 <= week <= 5
            && week_start_day(year as int, month as int, week as int) <= days_in_month_spec(
            year as int,
            month as int,
        )),
        r matches Ok(w) ==> w.0 as int == timestamp_of(
            year as int,
            month as int,
            week_start_day(year as int, month as int, week as int),
        ) && w.1 == w.0 + 7 * 86400,
        year < 2014 ==> r == Result::<(i64, i64), DateError>::Err(DateError::TooEarly),
        year > MAX_YEAR ==> r == Result::<(i64, i64), DateError>::Err(DateError::BadYear),
        (2014 <= year <= MAX_YEAR && !(1 <= month <= 12)) ==> r == Result::<
            (i64, i64),
            DateError,
        >::Err(DateError::BadMonth),
        (r is Err && 2014 <= year <= MAX_YEAR && 1 <= month <= 12) ==> r == Result::<
            (i64, i64),
            DateError,
        >::Err(DateError::BadWeek),
{
    let from = match get_date_from_week(year, month, week) {
        Ok(t) => t,
        Err(e) => {
            return Err(e);
        },
    };
    Ok((from, from + 7 * 86400))
}

impl DateError {
    /// The user-facing description of this rejection.
    pub open spec fn message_spec(&self) -> Seq<char> {
        match self {
            DateError::TooEarly => "Telegram did not exist"@,
            DateError::BadYear => "Provided year is not allowed"@,
            DateError::BadMonth => "Provided month is not allowed"@,
            DateError::BadWeek => "Provided week is not allowed"@,
        }
    }

    /// The user-facing description of this rejection.
    pub fn message(&self) -> (r: String)
        ensures
            r@ == self.message_spec(),
    {
        match self {
            DateError::TooEarly => "Telegram did not exist".to_owned(),
            DateError::BadYear => "Provided year is not allowed".to_owned(),
            DateError::BadMonth => "Provided month is not allowed".to_owned(),
            DateError::BadWeek => "Provided week is not allowed".to_owned(),
        }
    }
}

} // verus!
