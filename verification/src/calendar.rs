//! The lective calendar: working days, weeks of five working days, and the
//! two trailing blocks that follow the last lective week.

use crate::dates::{
    day_of_month, lemma_weekday_step, month_of, weekday_index, CalendarDate, MAX_DAY, MIN_DAY,
};
use crate::text::{decimal_text, push_char, push_decimal};
use vstd::prelude::*;

verus! {

/// The inclusive day-number ranges of a list of non-academic periods.
pub open spec fn ranges_of(periods: Seq<(CalendarDate, CalendarDate, String)>) -> Seq<(int, int)> {
    Seq::new(periods.len(), |i: int| (periods[i].0@, periods[i].1@))
}

/// Whether `day` lies in the inclusive range.
pub open spec fn in_range(day: int, range: (int, int)) -> bool {
    range.0 <= day <= range.1
}

/// Whether `day` lies in at least one of the ranges. The order of the
/// ranges and overlaps between them play no part.
pub open spec fn is_excluded(day: int, ranges: Seq<(int, int)>) -> bool {
    exists|i: int| 0 <= i < ranges.len() && #[trigger] in_range(day, ranges[i])
}

/// Saturday or Sunday.
pub open spec fn is_weekend_day(day: int) -> bool {
    weekday_index(day) >= 5
}

/// A working day is neither a weekend day nor excluded.
pub open spec fn is_working_day(day: int, ranges: Seq<(int, int)>) -> bool {
    !is_weekend_day(day) && !is_excluded(day, ranges)
}

/// `day` is the first working day at or after `from`.
pub open spec fn is_next_working_day(from: int, ranges: Seq<(int, int)>, day: int) -> bool {
    &&& from <= day
    &&& is_working_day(day, ranges)
    &&& forall|d: int| from <= d < day ==> !#[trigger] is_working_day(d, ranges)
}

/// The first working day at or after `from`.
pub open spec fn next_working_day(from: int, ranges: Seq<(int, int)>) -> int {
    choose|day: int| is_next_working_day(from, ranges, day)
}

/// The first day after which no range excludes anything.
pub open spec fn horizon(ranges: Seq<(int, int)>) -> int
    decreases ranges.len(),
{
    if ranges.len() == 0 {
        MIN_DAY as int
    } else {
        let rest = horizon(ranges.drop_last());
        if ranges.last().1 + 1 > rest {
            ranges.last().1 + 1
        } else {
            rest
        }
    }
}

/// The later of `from` and the horizon of the ranges: from this day on,
/// exactly the weekdays are working days.
pub open spec fn open_day(from: int, ranges: Seq<(int, int)>) -> int {
    if from >= horizon(ranges) {
        from
    } else {
        horizon(ranges)
    }
}

/// No day at or after the horizon is excluded.
pub proof fn lemma_beyond_horizon(day: int, ranges: Seq<(int, int)>)
    requires
        day >= horizon(ranges),
    ensures
        !is_excluded(day, ranges),
    decreases ranges.len(),
{
    if ranges.len() > 0 {
        let rest = ranges.drop_last();
        lemma_beyond_horizon(day, rest);
        assert forall|i: int| 0 <= i < ranges.len() implies !#[trigger] in_range(
            day,
            ranges[i],
        ) by {
            if i < ranges.len() - 1 {
                assert(!in_range(day, rest[i]));
            }
        }
    }
}

proof fn lemma_least_working_day(from: int, ranges: Seq<(int, int)>, witness: int)
    requires
        from <= witness,
        is_working_day(witness, ranges),
    ensures
        is_next_working_day(from, ranges, next_working_day(from, ranges)),
        next_working_day(from, ranges) <= witness,
    decreases witness - from,
{
    if is_working_day(from, ranges) {
        assert(is_next_working_day(from, ranges, from));
    } else {
        lemma_least_working_day(from + 1, ranges, witness);
        let day = next_working_day(from + 1, ranges);
        assert(is_next_working_day(from, ranges, day));
    }
}

/// A first working day exists at or after every day, at most two days past
/// the point from which no range excludes anything.
pub proof fn lemma_next_working_day(from: int, ranges: Seq<(int, int)>)
    ensures
        is_next_working_day(from, ranges, next_working_day(from, ranges)),
        next_working_day(from, ranges) <= open_day(from, ranges) + 2,
{
    let open = open_day(from, ranges);
    lemma_weekday_step(open);
    lemma_weekday_step(open + 1);
    let witness = if !is_weekend_day(open) {
        open
    } else if !is_weekend_day(open + 1) {
        open + 1
    } else {
        open + 2
    };
    lemma_beyond_horizon(witness, ranges);
    lemma_least_working_day(from, ranges, witness);
}

/// The first working day at or after a day is unique.
pub proof fn lemma_next_working_day_unique(from: int, ranges: Seq<(int, int)>, day: int)
    requires
        is_next_working_day(from, ranges, day),
    ensures
        day == next_working_day(from, ranges),
{
}

/// Check if a date falls within any non-academic period.
pub fn is_in_non_academic_period(
    date: CalendarDate,
    periods: &[(CalendarDate, CalendarDate, String)],
) -> (excluded: bool)
    ensures
        excluded == is_excluded(date@, ranges_of(periods@)),
{
    let ghost ranges = ranges_of(periods@);
    let day: i32 = date.num_days_from_ce();
    let mut i: usize = 0;
    while i < periods.len()
        invariant
            i <= periods.len(),
            ranges == ranges_of(periods@),
            day == date@,
            forall|j: int| 0 <= j < i ==> !#[trigger] in_range(date@, ranges[j]),
        decreases periods.len() - i,
    {
        let first: i32 = periods[i].0.num_days_from_ce();
        let last: i32 = periods[i].1.num_days_from_ce();
        if first <= day && day <= last {
            assert(in_range(date@, ranges[i as int]));
            return true;
        }
        i += 1;
    }
    false
}

/// Check if a date is a weekend (Saturday or Sunday).
pub fn is_weekend(date: CalendarDate) -> (weekend: bool)
    ensures
        weekend == is_weekend_day(date@),
{
    date.parts().weekday >= 5
}

/// Finds the next working day (not weekend, not in a non-academic
/// period), starting from and including `date`; none when no working day
/// is left among the representable dates.
pub fn find_next_working_day(
    date: CalendarDate,
    non_academic_periods: &[(CalendarDate, CalendarDate, String)],
) -> (found: Option<CalendarDate>)
    ensures
        match found {
            Some(day) => {
                &&& is_next_working_day(date@, ranges_of(non_academic_periods@), day@)
                &&& day@ == next_working_day(date@, ranges_of(non_academic_periods@))
                &&& day@ <= MAX_DAY
            },
            None => next_working_day(date@, ranges_of(non_academic_periods@)) > MAX_DAY,
        },
{
    let ghost ranges = ranges_of(non_academic_periods@);
    proof {
        lemma_next_working_day(date@, ranges);
    }
    let mut next: CalendarDate = date;
    let mut day: i32 = date.num_days_from_ce();
    loop
        invariant
            ranges == ranges_of(non_academic_periods@),
            is_next_working_day(date@, ranges, next_working_day(date@, ranges)),
            day == next@,
            date@ <= next@ <= MAX_DAY,
            forall|d: int| date@ <= d < next@ ==> !#[trigger] is_working_day(d, ranges),
        decreases MAX_DAY - next@,
    {
        if !is_weekend(next) && !is_in_non_academic_period(next, non_academic_periods) {
            return Some(next);
        }
        if day == MAX_DAY {
            return None;
        }
        next = next.succ();
        day += 1;
    }
}

/// Get the next working day (not weekend, not in a non-academic period),
/// starting from and including `date`.
pub fn get_next_working_day(
    date: CalendarDate,
    non_academic_periods: &[(CalendarDate, CalendarDate, String)],
) -> (next: CalendarDate)
    requires
        next_working_day(date@, ranges_of(non_academic_periods@)) <= MAX_DAY,
    ensures
        is_next_working_day(date@, ranges_of(non_academic_periods@), next@),
        next@ == next_working_day(date@, ranges_of(non_academic_periods@)),
{
    match find_next_working_day(date, non_academic_periods) {
        Some(next) => next,
        None => {
            assert(false);
            date
        },
    }
}

/// One week of the calendar: the day it really starts on and the label of
/// the days it spans.
#[derive(Clone, Debug)]
pub struct WeekDateInfo {
    pub start_date: CalendarDate,
    pub display_range: String,
}

impl View for WeekDateInfo {
    type V = (int, Seq<char>);

    /// The day number of the start date and the text of the label.
    open spec fn view(&self) -> (int, Seq<char>) {
        (self.start_date@, self.display_range@)
    }
}

/// The working days at or after `start`, in order: number 0 is the first.
pub open spec fn nth_working_day(start: int, ranges: Seq<(int, int)>, n: nat) -> int
    decreases n,
{
    if n == 0 {
        next_working_day(start, ranges)
    } else {
        next_working_day(nth_working_day(start, ranges, (n - 1) as nat) + 1, ranges)
    }
}

/// A week is five working days: week `week` starts on working day number
/// `5 * week`.
pub open spec fn week_start_day(start: int, ranges: Seq<(int, int)>, week: nat) -> int {
    nth_working_day(start, ranges, 5 * week)
}

/// Week `week` ends on working day number `5 * week + 4`.
pub open spec fn week_end_day(start: int, ranges: Seq<(int, int)>, week: nat) -> int {
    nth_working_day(start, ranges, 5 * week + 4)
}

/// Spanish abbreviation of a month, 1 to 12.
pub open spec fn month_abbreviation(month: int) -> Seq<char> {
    if month == 1 {
        "Ene"@
    } else if month == 2 {
        "Feb"@
    } else if month == 3 {
        "Mar"@
    } else if month == 4 {
        "Abr"@
    } else if month == 5 {
        "May"@
    } else if month == 6 {
        "Jun"@
    } else if month == 7 {
        "Jul"@
    } else if month == 8 {
        "Ago"@
    } else if month == 9 {
        "Sep"@
    } else if month == 10 {
        "Oct"@
    } else if month == 11 {
        "Nov"@
    } else {
        "Dic"@
    }
}

/// The label of a span of days: `"1-5 Sep"` within one month,
/// `"29 Sep-3 Oct"` across two.
pub open spec fn date_range_label(
    first_day: int,
    first_month: int,
    last_day: int,
    last_month: int,
) -> Seq<char> {
    if first_month == last_month {
        decimal_text(first_day as nat) + seq!['-'] + decimal_text(last_day as nat) + seq![' ']
            + month_abbreviation(first_month)
    } else {
        decimal_text(first_day as nat) + seq![' '] + month_abbreviation(first_month) + seq!['-']
            + decimal_text(last_day as nat) + seq![' '] + month_abbreviation(last_month)
    }
}

/// The length of the longest label of a span of days within a year, as
/// of `"20 Sep-12 Oct"`.
pub const MAX_LABEL_LENGTH: usize = 13;

/// The label of a span of days between days of the month and months of
/// the year is at most 13 characters long.
pub proof fn lemma_label_is_short(first_day: int, first_month: int, last_day: int, last_month: int)
    requires
        0 <= first_day <= 31,
        0 <= last_day <= 31,
    ensures
        date_range_label(first_day, first_month, last_day, last_month).len() <= MAX_LABEL_LENGTH,
{
    reveal_strlit("Ene");
    reveal_strlit("Feb");
    reveal_strlit("Mar");
    reveal_strlit("Abr");
    reveal_strlit("May");
    reveal_strlit("Jun");
    reveal_strlit("Jul");
    reveal_strlit("Ago");
    reveal_strlit("Sep");
    reveal_strlit("Oct");
    reveal_strlit("Nov");
    reveal_strlit("Dic");
    assert(decimal_text(first_day as nat).len() <= 2) by {
        reveal_with_fuel(decimal_text, 2);
    }
    assert(decimal_text(last_day as nat).len() <= 2) by {
        reveal_with_fuel(decimal_text, 2);
    }
}

/// Whether every label of a list of weeks is at most 13 characters long.
pub open spec fn has_short_labels(weeks: Seq<WeekDateInfo>) -> bool {
    forall|k: int|
        0 <= k < weeks.len() ==> (#[trigger] weeks[k]).display_range@.len() <= MAX_LABEL_LENGTH
}

/// The label of the week that runs from day number `first` to day number
/// `last`.
pub open spec fn week_label(first: int, last: int) -> Seq<char> {
    date_range_label(day_of_month(first), month_of(first), day_of_month(last), month_of(last))
}

/// `info` describes week number `week` of the calendar that starts at
/// `start` and skips `ranges`.
pub open spec fn is_week_descriptor(
    info: WeekDateInfo,
    start: int,
    ranges: Seq<(int, int)>,
    week: nat,
) -> bool {
    &&& info.start_date@ == week_start_day(start, ranges, week)
    &&& info.display_range@ == week_label(
        week_start_day(start, ranges, week),
        week_end_day(start, ranges, week),
    )
}

/// `weeks` is the calendar of `total` weeks that starts at `start` and
/// skips `ranges`.
pub open spec fn is_calendar(
    weeks: Seq<WeekDateInfo>,
    start: int,
    ranges: Seq<(int, int)>,
    total: int,
) -> bool {
    &&& weeks.len() == total
    &&& forall|k: int|
        0 <= k < total ==> is_week_descriptor(#[trigger] weeks[k], start, ranges, k as nat)
}

/// The calendar of `weeks` weeks ends within the representable dates.
pub open spec fn calendar_in_range(start: int, ranges: Seq<(int, int)>, weeks: int) -> bool {
    weeks > 0 ==> week_end_day(start, ranges, (weeks - 1) as nat) <= MAX_DAY
}

/// A calendar that ends within the representable dates does so with
/// fewer weeks too.
pub proof fn lemma_shorter_calendar_in_range(
    start: int,
    ranges: Seq<(int, int)>,
    shorter: int,
    longer: int,
)
    requires
        shorter <= longer,
        calendar_in_range(start, ranges, longer),
    ensures
        calendar_in_range(start, ranges, shorter),
{
    if shorter > 0 {
        lemma_working_days_increase(
            start,
            ranges,
            (5 * (shorter - 1) + 4) as nat,
            (5 * (longer - 1) + 4) as nat,
        );
    }
}

/// Room for `weeks` weeks before the last representable day, by a count
/// of days: past the later of `start` and the end of all ranges, every
/// week takes seven days.
pub open spec fn calendar_fits(start: int, ranges: Seq<(int, int)>, weeks: int) -> bool {
    open_day(start, ranges) + 7 * weeks + 3 <= MAX_DAY
}

/// Each numbered working day lies after the one before it, and none lies
/// before the start.
pub proof fn lemma_working_days_increase(start: int, ranges: Seq<(int, int)>, n: nat, m: nat)
    requires
        n <= m,
    ensures
        start + n <= nth_working_day(start, ranges, n),
        nth_working_day(start, ranges, n) <= nth_working_day(start, ranges, m),
        n < m ==> nth_working_day(start, ranges, n) < nth_working_day(start, ranges, m),
    decreases m,
{
    if n < m {
        lemma_working_days_increase(start, ranges, n, (m - 1) as nat);
        lemma_next_working_day(nth_working_day(start, ranges, (m - 1) as nat) + 1, ranges);
    } else if n > 0 {
        lemma_working_days_increase(start, ranges, (n - 1) as nat, (n - 1) as nat);
        lemma_next_working_day(nth_working_day(start, ranges, (n - 1) as nat) + 1, ranges);
    } else {
        lemma_next_working_day(start, ranges);
    }
}

proof fn lemma_first_after(from: int, open: int, ranges: Seq<(int, int)>)
    requires
        open >= from,
        open >= horizon(ranges),
    ensures
        ({
            let first = next_working_day(from, ranges);
            &&& is_next_working_day(from, ranges, first)
            &&& first <= open + 2
            &&& 5 * first + 2 * weekday_index(first) <= 5 * open + 10
        }),
{
    lemma_next_working_day(from, ranges);
    let first = next_working_day(from, ranges);
    lemma_weekday_step(open);
    lemma_weekday_step(open + 1);
    lemma_beyond_horizon(open, ranges);
    lemma_beyond_horizon(open + 1, ranges);
    if first > open {
        assert(!is_working_day(open, ranges));
        if first > open + 1 {
            assert(!is_working_day(open + 1, ranges));
        }
    }
}

/// Every numbered working day is a working day at or after `start`, and
/// five of them take at most seven days once no range excludes anything.
pub proof fn lemma_working_day_bound(start: int, ranges: Seq<(int, int)>, n: nat)
    ensures
        ({
            let day = nth_working_day(start, ranges, n);
            &&& is_working_day(day, ranges)
            &&& start <= day
            &&& 5 * day + 2 * weekday_index(day) <= 5 * open_day(start, ranges) + 10 + 7 * n
        }),
    decreases n,
{
    if n == 0 {
        lemma_first_after(start, open_day(start, ranges), ranges);
    } else {
        lemma_working_day_bound(start, ranges, (n - 1) as nat);
        let previous = nth_working_day(start, ranges, (n - 1) as nat);
        let from = previous + 1;
        lemma_weekday_step(previous);
        if from >= horizon(ranges) {
            lemma_first_after(from, from, ranges);
            if weekday_index(previous) <= 3 {
                lemma_beyond_horizon(from, ranges);
                lemma_next_working_day_unique(from, ranges, from);
            }
        } else {
            lemma_first_after(from, horizon(ranges), ranges);
        }
    }
}

/// The Spanish abbreviation of a month.
pub fn month_name(month: u32) -> (name: &'static str)
    requires
        1 <= month <= 12,
    ensures
        name@ == month_abbreviation(month as int),
{
    if month == 1 {
        "Ene"
    } else if month == 2 {
        "Feb"
    } else if month == 3 {
        "Mar"
    } else if month == 4 {
        "Abr"
    } else if month == 5 {
        "May"
    } else if month == 6 {
        "Jun"
    } else if month == 7 {
        "Jul"
    } else if month == 8 {
        "Ago"
    } else if month == 9 {
        "Sep"
    } else if month == 10 {
        "Oct"
    } else if month == 11 {
        "Nov"
    } else {
        "Dic"
    }
}

/// The label of a span of days, from the day of the month and the month
/// of its first and its last day.
pub fn format_week_label(first_day: u32, first_month: u32, last_day: u32, last_month: u32) -> (label:
    String)
    requires
        1 <= first_month <= 12,
        1 <= last_month <= 12,
    ensures
        label@ == date_range_label(
            first_day as int,
            first_month as int,
            last_day as int,
            last_month as int,
        ),
        first_day <= 31 && last_day <= 31 ==> label@.len() <= MAX_LABEL_LENGTH,
{
    proof {
        if first_day <= 31 && last_day <= 31 {
            lemma_label_is_short(
                first_day as int,
                first_month as int,
                last_day as int,
                last_month as int,
            );
        }
    }
    let mut label = String::new();
    push_decimal(&mut label, first_day);
    if first_month == last_month {
        push_char(&mut label, '-');
        push_decimal(&mut label, last_day);
        push_char(&mut label, ' ');
        label.append(month_name(first_month));
    } else {
        push_char(&mut label, ' ');
        label.append(month_name(first_month));
        push_char(&mut label, '-');
        push_decimal(&mut label, last_day);
        push_char(&mut label, ' ');
        label.append(month_name(last_month));
    }
    label
}

/// The cursor from which week `week` is searched: the start date for the
/// first week, the day after the previous week's end for the others.
pub open spec fn week_cursor(start: int, ranges: Seq<(int, int)>, week: nat) -> int {
    if week == 0 {
        start
    } else {
        week_end_day(start, ranges, (week - 1) as nat) + 1
    }
}

fn describe_week(first: CalendarDate, last: CalendarDate) -> (info: WeekDateInfo)
    ensures
        info.start_date@ == first@,
        info.display_range@ == week_label(first@, last@),
        info.display_range@.len() <= MAX_LABEL_LENGTH,
{
    let from = first.parts();
    let to = last.parts();
    WeekDateInfo {
        start_date: first,
        display_range: format_week_label(from.day, from.month, to.day, to.month),
    }
}

/// Steps through one week from its cursor: its first and its fifth
/// working day; none when the week does not end within the representable
/// dates.
fn step_week(
    cursor: CalendarDate,
    periods: &[(CalendarDate, CalendarDate, String)],
    Ghost(start): Ghost<int>,
    Ghost(week): Ghost<nat>,
) -> (span: Option<(CalendarDate, CalendarDate)>)
    requires
        cursor@ == week_cursor(start, ranges_of(periods@), week),
    ensures
        match span {
            Some(days) => {
                &&& days.0@ == week_start_day(start, ranges_of(periods@), week)
                &&& days.1@ == week_end_day(start, ranges_of(periods@), week)
                &&& days.1@ <= MAX_DAY
            },
            None => week_end_day(start, ranges_of(periods@), week) > MAX_DAY,
        },
{
    let ghost ranges = ranges_of(periods@);
    let week_start: CalendarDate = match find_next_working_day(cursor, periods) {
        Some(day) => day,
        None => {
            proof {
                lemma_working_days_increase(start, ranges, 5 * week, 5 * week + 4);
            }
            return None;
        },
    };
    let mut week_end: CalendarDate = week_start;
    let mut found: u32 = 0;
    while found < 4
        invariant
            found <= 4,
            ranges == ranges_of(periods@),
            week_end@ == nth_working_day(start, ranges, 5 * week + found as nat),
            week_end@ <= MAX_DAY,
        decreases 4 - found,
    {
        proof {
            lemma_working_days_increase(
                start,
                ranges,
                5 * week + found as nat,
                5 * week + found as nat + 1,
            );
            lemma_working_days_increase(start, ranges, 5 * week + found as nat + 1, 5 * week + 4);
        }
        if week_end.num_days_from_ce() == MAX_DAY {
            return None;
        }
        week_end = match find_next_working_day(week_end.succ(), periods) {
            Some(day) => day,
            None => {
                return None;
            },
        };
        found += 1;
    }
    Some((week_start, week_end))
}

/// Whether the calendar of `total_weeks` weeks from `start_date` has room
/// before the last representable day, by a count of days. A calendar with
/// room ends within the representable dates.
pub fn calendar_has_room(
    start_date: CalendarDate,
    total_weeks: i32,
    non_academic_periods: &[(CalendarDate, CalendarDate, String)],
) -> (fits: bool)
    ensures
        fits == calendar_fits(
            start_date@,
            ranges_of(non_academic_periods@),
            total_weeks as int,
        ),
        fits ==> calendar_in_range(
            start_date@,
            ranges_of(non_academic_periods@),
            total_weeks as int,
        ),
{
    let ghost ranges = ranges_of(non_academic_periods@);
    let mut open: i32 = MIN_DAY;
    let mut i: usize = 0;
    while i < non_academic_periods.len()
        invariant
            i <= non_academic_periods.len(),
            ranges == ranges_of(non_academic_periods@),
            open == horizon(ranges.take(i as int)),
            MIN_DAY <= open <= MAX_DAY + 1,
        decreases non_academic_periods.len() - i,
    {
        let last: i32 = non_academic_periods[i].1.num_days_from_ce();
        proof {
            assert(ranges.take(i as int + 1).drop_last() =~= ranges.take(i as int));
        }
        if last + 1 > open {
            open = last + 1;
        }
        i += 1;
    }
    proof {
        assert(ranges.take(i as int) =~= ranges);
    }
    let first: i32 = start_date.num_days_from_ce();
    if first > open {
        open = first;
    }
    let end: i64 = open as i64 + 7 * (total_weeks as i64) + 3;
    proof {
        if total_weeks > 0 {
            let last_day = (5 * (total_weeks - 1) + 4) as nat;
            lemma_working_day_bound(start_date@, ranges, last_day);
            lemma_weekday_step(nth_working_day(start_date@, ranges, last_day));
        }
    }
    end <= MAX_DAY as i64
}

/// Calculate the weeks of the calendar, skipping weekends and
/// non-academic periods: week `k` starts on working day number `5 * k`
/// counted from `start_date` and is labelled with the days up to working
/// day number `5 * k + 4`. None when the calendar does not end within the
/// representable dates.
pub fn try_calculate_week_dates(
    start_date: CalendarDate,
    total_weeks: i32,
    non_academic_periods: &[(CalendarDate, CalendarDate, String)],
) -> (weeks: Option<Vec<WeekDateInfo>>)
    requires
        total_weeks >= 0,
    ensures
        weeks is Some <==> calendar_in_range(
            start_date@,
            ranges_of(non_academic_periods@),
            total_weeks as int,
        ),
        weeks matches Some(calendar) ==> is_calendar(
            calendar@,
            start_date@,
            ranges_of(non_academic_periods@),
            total_weeks as int,
        ),
        weeks matches Some(calendar) ==> has_short_labels(calendar@),
{
    let ghost ranges = ranges_of(non_academic_periods@);
    let mut weeks: Vec<WeekDateInfo> = Vec::new();
    let mut cursor: CalendarDate = start_date;
    let mut week: i32 = 0;
    while week < total_weeks
        invariant
            0 <= week <= total_weeks,
            ranges == ranges_of(non_academic_periods@),
            week < total_weeks ==> cursor@ == week_cursor(start_date@, ranges, week as nat),
            calendar_in_range(start_date@, ranges, week as int),
            weeks.len() == week,
            has_short_labels(weeks@),
            forall|k: int|
                0 <= k < week ==> is_week_descriptor(
                    #[trigger] weeks[k],
                    start_date@,
                    ranges,
                    k as nat,
                ),
        decreases total_weeks - week,
    {
        proof {
            lemma_working_days_increase(
                start_date@,
                ranges,
                (5 * week + 4) as nat,
                (5 * (total_weeks - 1) + 4) as nat,
            );
        }
        let span = match step_week(
            cursor,
            non_academic_periods,
            Ghost(start_date@),
            Ghost(week as nat),
        ) {
            Some(days) => days,
            None => {
                return None;
            },
        };
        let week_end: i32 = span.1.num_days_from_ce();
        weeks.push(describe_week(span.0, span.1));
        week += 1;
        if week < total_weeks {
            if week_end == MAX_DAY {
                return None;
            }
            cursor = span.1.succ();
        }
    }
    Some(weeks)
}

/// Calculate the weeks of the calendar, skipping weekends and
/// non-academic periods: week `k` starts on working day number `5 * k`
/// counted from `start_date` and is labelled with the days up to working
/// day number `5 * k + 4`.
pub fn calculate_week_dates(
    start_date: CalendarDate,
    total_weeks: i32,
    non_academic_periods: &[(CalendarDate, CalendarDate, String)],
) -> (weeks: Vec<WeekDateInfo>)
    requires
        total_weeks >= 0,
        calendar_in_range(start_date@, ranges_of(non_academic_periods@), total_weeks as int),
    ensures
        is_calendar(
            weeks@,
            start_date@,
            ranges_of(non_academic_periods@),
            total_weeks as int,
        ),
        has_short_labels(weeks@),
{
    match try_calculate_week_dates(start_date, total_weeks, non_academic_periods) {
        Some(weeks) => weeks,
        None => {
            assert(false);
            Vec::new()
        },
    }
}

/// `final_weeks` are the two trailing blocks of the calendar of
/// `lective_weeks` weeks: the two weeks that follow the last lective week.
pub open spec fn are_final_weeks(
    final_weeks: Seq<WeekDateInfo>,
    start: int,
    ranges: Seq<(int, int)>,
    lective_weeks: int,
) -> bool {
    &&& final_weeks.len() == 2
    &&& is_week_descriptor(final_weeks[0], start, ranges, lective_weeks as nat)
    &&& is_week_descriptor(final_weeks[1], start, ranges, (lective_weeks + 1) as nat)
}

/// Calculate the dates of the two trailing blocks (Consultas and Exámenes
/// Finales): they are the two weeks that follow the last lective week, by
/// the same stepping rule. None when they do not end within the
/// representable dates.
pub fn try_calculate_final_weeks_dates(
    start_date: CalendarDate,
    lective_weeks: i32,
    non_academic_periods: &[(CalendarDate, CalendarDate, String)],
) -> (final_weeks: Option<Vec<WeekDateInfo>>)
    requires
        lective_weeks >= 0,
    ensures
        final_weeks is Some <==> calendar_in_range(
            start_date@,
            ranges_of(non_academic_periods@),
            lective_weeks + 2,
        ),
        final_weeks matches Some(blocks) ==> are_final_weeks(
            blocks@,
            start_date@,
            ranges_of(non_academic_periods@),
            lective_weeks as int,
        ),
        final_weeks matches Some(blocks) ==> has_short_labels(blocks@),
{
    let ghost ranges = ranges_of(non_academic_periods@);
    let ghost last_day = (5 * (lective_weeks + 1) + 4) as nat;
    let mut cursor: CalendarDate = start_date;
    let mut week: i32 = 0;
    while week < lective_weeks
        invariant
            0 <= week <= lective_weeks,
            ranges == ranges_of(non_academic_periods@),
            last_day == 5 * (lective_weeks + 1) + 4,
            cursor@ == week_cursor(start_date@, ranges, week as nat),
        decreases lective_weeks - week,
    {
        proof {
            lemma_working_days_increase(
                start_date@,
                ranges,
                (5 * week + 4) as nat,
                (5 * week + 5) as nat,
            );
            lemma_working_days_increase(start_date@, ranges, (5 * week + 5) as nat, last_day);
        }
        let span = match step_week(
            cursor,
            non_academic_periods,
            Ghost(start_date@),
            Ghost(week as nat),
        ) {
            Some(days) => days,
            None => {
                return None;
            },
        };
        if span.1.num_days_from_ce() == MAX_DAY {
            return None;
        }
        cursor = span.1.succ();
        week += 1;
    }
    proof {
        lemma_working_days_increase(
            start_date@,
            ranges,
            (5 * lective_weeks + 4) as nat,
            (5 * lective_weeks + 5) as nat,
        );
        lemma_working_days_increase(start_date@, ranges, (5 * lective_weeks + 5) as nat, last_day);
    }
    let consultas = match step_week(
        cursor,
        non_academic_periods,
        Ghost(start_date@),
        Ghost(lective_weeks as nat),
    ) {
        Some(days) => days,
        None => {
            return None;
        },
    };
    if consultas.1.num_days_from_ce() == MAX_DAY {
        return None;
    }
    let examenes = match step_week(
        consultas.1.succ(),
        non_academic_periods,
        Ghost(start_date@),
        Ghost((lective_weeks + 1) as nat),
    ) {
        Some(days) => days,
        None => {
            return None;
        },
    };
    let mut final_weeks: Vec<WeekDateInfo> = Vec::new();
    final_weeks.push(describe_week(consultas.0, consultas.1));
    final_weeks.push(describe_week(examenes.0, examenes.1));
    Some(final_weeks)
}

/// Calculate the dates of the two trailing blocks (Consultas and Exámenes
/// Finales): they are the two weeks that follow the last lective week, by
/// the same stepping rule.
pub fn calculate_final_weeks_dates(
    start_date: CalendarDate,
    lective_weeks: i32,
    non_academic_periods: &[(CalendarDate, CalendarDate, String)],
) -> (final_weeks: Vec<WeekDateInfo>)
    requires
        lective_weeks >= 0,
        calendar_in_range(start_date@, ranges_of(non_academic_periods@), lective_weeks + 2),
    ensures
        are_final_weeks(
            final_weeks@,
            start_date@,
            ranges_of(non_academic_periods@),
            lective_weeks as int,
        ),
        has_short_labels(final_weeks@),
{
    match try_calculate_final_weeks_dates(start_date, lective_weeks, non_academic_periods) {
        Some(final_weeks) => final_weeks,
        None => {
            assert(false);
            Vec::new()
        },
    }
}

} // verus!
