//! Calendar dates as day numbers of the proleptic Gregorian calendar.
//!
//! A date is modelled by its day number, with January 1 of year 1 being
//! day 1. Successor and comparison are integer arithmetic on that number;
//! conversions to and from year, month and day are delegated to `chrono`.

use vstd::prelude::*;

verus! {

/// Day number of the earliest date that `chrono::NaiveDate` represents.
pub const MIN_DAY: i32 = -95_746_129;

/// Day number of the latest date that `chrono::NaiveDate` represents.
pub const MAX_DAY: i32 = 95_745_399;

/// The day number that `chrono` assigns to the civil date `year-month-day`,
/// or `None` when no such date exists or it is out of range.
pub uninterp spec fn day_number_of_civil(year: int, month: int, day: int) -> Option<int>;

/// The `(year, month, day)` that `chrono` assigns to a day number.
pub uninterp spec fn civil_of_day_number(days: int) -> (int, int, int);

/// Day of the week of a day number, counted from Monday = 0 to Sunday = 6.
/// Day 1 (January 1 of year 1) is a Monday.
#[verifier::opaque]
pub open spec fn weekday_index(days: int) -> int {
    (days - 1) % 7
}

/// Weekdays run from 0 to 6 and advance by one per day, Monday following
/// Sunday.
pub proof fn lemma_weekday_step(days: int)
    ensures
        0 <= weekday_index(days) <= 6,
        weekday_index(days + 1) == if weekday_index(days) == 6 {
            0
        } else {
            weekday_index(days) + 1
        },
{
    reveal(weekday_index);
}

/// The weekday a number of days later: weekdays repeat every seven days.
pub proof fn lemma_weekday_offset(days: int, offset: int)
    ensures
        weekday_index(days + offset) == (weekday_index(days) + offset) % 7,
{
    reveal(weekday_index);
}

/// Month of the year (1 to 12) of a day number.
pub open spec fn month_of(days: int) -> int {
    civil_of_day_number(days).1
}

/// Day of the month (1 to 31) of a day number.
pub open spec fn day_of_month(days: int) -> int {
    civil_of_day_number(days).2
}

/// The day number of the date that `chrono` reads from `text` by the
/// format `format`; `None` when the text does not fit the format or names
/// no date.
pub uninterp spec fn parsed_day_number(text: Seq<char>, format: Seq<char>) -> Option<int>;

/// Year, month, day of the month and weekday of one date.
#[derive(Clone, Copy, Debug)]
pub struct DateParts {
    pub year: i32,
    pub month: u32,
    pub day: u32,
    /// Days since Monday, 0 to 6.
    pub weekday: u32,
}

/// Calls `chrono::NaiveDate::from_ymd_opt` and reads the resulting date's
/// `num_days_from_ce`.
///
/// Trusted: the result is the named day number of the civil date, `None`
/// exactly when `chrono` refuses the date, and every day number handed out
/// lies between the day numbers of `NaiveDate::MIN` and `NaiveDate::MAX`.
#[verifier::external_body]
fn chrono_day_number(year: i32, month: u32, day: u32) -> (r: Option<i32>)
    ensures
        match r {
            Some(n) => day_number_of_civil(year as int, month as int, day as int) == Some(n as int)
                && MIN_DAY <= n <= MAX_DAY,
            None => day_number_of_civil(year as int, month as int, day as int) is None,
        },
{
    match chrono::NaiveDate::from_ymd_opt(year, month, day) {
        Some(date) => Some(chrono::Datelike::num_days_from_ce(&date)),
        None => None,
    }
}

/// Calls `chrono::NaiveDate::from_num_days_from_ce_opt` and reads the
/// resulting date's `year`, `month`, `day` and `weekday`.
///
/// Trusted: the call succeeds exactly on the day numbers from `MIN_DAY` to
/// `MAX_DAY`; year, month and day are the named civil date, with the month
/// in 1..=12 and the day in 1..=31; the weekday advances by one per day and
/// day 1 is a Monday.
#[verifier::external_body]
fn chrono_date_parts(days: i32) -> (r: Option<DateParts>)
    ensures
        r is Some <==> MIN_DAY <= days <= MAX_DAY,
        r matches Some(p) ==> {
            &&& (p.year as int, p.month as int, p.day as int) == civil_of_day_number(days as int)
            &&& 1 <= p.month <= 12
            &&& 1 <= p.day <= 31
            &&& p.weekday as int == weekday_index(days as int)
        },
{
    match chrono::NaiveDate::from_num_days_from_ce_opt(days) {
        Some(date) => Some(
            DateParts {
                year: chrono::Datelike::year(&date),
                month: chrono::Datelike::month(&date),
                day: chrono::Datelike::day(&date),
                weekday: chrono::Datelike::weekday(&date).num_days_from_monday(),
            },
        ),
        None => None,
    }
}

/// Calls `chrono::NaiveDate::parse_from_str` and reads the resulting
/// date's `num_days_from_ce`.
///
/// Trusted: the result is the named day number, and every day number
/// handed out lies between `MIN_DAY` and `MAX_DAY`.
#[verifier::external_body]
fn chrono_parse_day_number(text: &str, format: &str) -> (r: Option<i32>)
    ensures
        match r {
            Some(n) => parsed_day_number(text@, format@) == Some(n as int) && MIN_DAY <= n
                <= MAX_DAY,
            None => parsed_day_number(text@, format@) is None,
        },
{
    match chrono::NaiveDate::parse_from_str(text, format) {
        Ok(date) => Some(chrono::Datelike::num_days_from_ce(&date)),
        Err(_) => None,
    }
}

/// The format of ISO calendar dates, `YYYY-MM-DD`.
pub const ISO_DATE_FORMAT: &'static str = "%Y-%m-%d";

/// A calendar date within the range that `chrono::NaiveDate` represents.
#[derive(Clone, Copy, Debug, PartialEq, Eq)]
pub struct CalendarDate {
    days: i32,
}

impl View for CalendarDate {
    type V = int;

    /// The date's day number.
    closed spec fn view(&self) -> int {
        self.days as int
    }
}

impl CalendarDate {
    #[verifier::type_invariant]
    spec fn in_range(self) -> bool {
        MIN_DAY <= self.days <= MAX_DAY
    }

    /// The date with the given year, month and day of the month, if it
    /// exists.
    pub fn from_ymd(year: i32, month: u32, day: u32) -> (r: Option<CalendarDate>)
        ensures
            match r {
                Some(date) => day_number_of_civil(year as int, month as int, day as int) == Some(
                    date@,
                ),
                None => day_number_of_civil(year as int, month as int, day as int) is None,
            },
    {
        match chrono_day_number(year, month, day) {
            Some(days) => Some(CalendarDate { days }),
            None => None,
        }
    }

    /// The date that an ISO calendar date (`YYYY-MM-DD`) names, if the
    /// text is one.
    pub fn parse_iso(text: &str) -> (r: Option<CalendarDate>)
        ensures
            match r {
                Some(date) => parsed_day_number(text@, ISO_DATE_FORMAT@) == Some(date@),
                None => parsed_day_number(text@, ISO_DATE_FORMAT@) is None,
            },
    {
        match chrono_parse_day_number(text, ISO_DATE_FORMAT) {
            Some(days) => Some(CalendarDate { days }),
            None => None,
        }
    }

    /// The date with the given day number, if it is representable.
    pub fn from_num_days_from_ce(days: i32) -> (r: Option<CalendarDate>)
        ensures
            r is Some <==> MIN_DAY <= days <= MAX_DAY,
            r matches Some(date) ==> date@ == days,
    {
        if MIN_DAY <= days && days <= MAX_DAY {
            Some(CalendarDate { days })
        } else {
            None
        }
    }

    /// The date's day number.
    pub fn num_days_from_ce(&self) -> (days: i32)
        ensures
            days == self@,
            MIN_DAY <= days <= MAX_DAY,
    {
        proof {
            use_type_invariant(self);
        }
        self.days
    }

    /// Year, month, day of the month and weekday of the date.
    pub fn parts(&self) -> (p: DateParts)
        ensures
            (p.year as int, p.month as int, p.day as int) == civil_of_day_number(self@),
            1 <= p.month <= 12,
            1 <= p.day <= 31,
            p.weekday as int == weekday_index(self@),
    {
        proof {
            use_type_invariant(self);
        }
        match chrono_date_parts(self.days) {
            Some(p) => p,
            None => {
                proof {
                    assert(false);
                }
                DateParts { year: 0, month: 1, day: 1, weekday: 0 }
            },
        }
    }

    /// The following day.
    pub fn succ(&self) -> (next: CalendarDate)
        requires
            self@ < MAX_DAY,
        ensures
            next@ == self@ + 1,
    {
        proof {
            use_type_invariant(self);
        }
        CalendarDate { days: self.days + 1 }
    }

    /// Month of the year, 1 to 12.
    pub fn month(&self) -> (m: u32)
        ensures
            m == month_of(self@),
            1 <= m <= 12,
    {
        self.parts().month
    }

    /// Day of the month, 1 to 31.
    pub fn day(&self) -> (d: u32)
        ensures
            d == day_of_month(self@),
            1 <= d <= 31,
    {
        self.parts().day
    }
}

} // verus!
