//! Laws of the lective calendar.

use crate::calendar::{
    calendar_in_range, in_range, is_calendar, is_excluded, is_weekend_day, is_working_day,
    lemma_next_working_day, lemma_next_working_day_unique, lemma_working_days_increase,
    next_working_day, nth_working_day, week_cursor, week_end_day, week_start_day, WeekDateInfo,
};
use crate::dates::{lemma_weekday_offset, lemma_weekday_step, weekday_index};
use vstd::prelude::*;

verus! {

/// After a working day, the next working day is the following day, or
/// the Monday after a Friday, when no range excludes those.
pub proof fn lemma_following_working_day(day: int, ranges: Seq<(int, int)>)
    requires
        is_working_day(day, ranges),
        !is_excluded(day + 1, ranges),
        !is_excluded(day + 3, ranges),
    ensures
        next_working_day(day + 1, ranges) == if weekday_index(day) == 4 {
            day + 3
        } else {
            day + 1
        },
{
    lemma_weekday_step(day);
    lemma_weekday_step(day + 1);
    lemma_weekday_step(day + 2);
    let next = if weekday_index(day) == 4 {
        day + 3
    } else {
        day + 1
    };
    lemma_next_working_day_unique(day + 1, ranges, next);
}

proof fn lemma_unexcluded_working_days(start: int, n: nat)
    requires
        is_working_day(start, Seq::<(int, int)>::empty()),
    ensures
        ({
            let day = nth_working_day(start, Seq::<(int, int)>::empty(), n);
            &&& day == start + n + 2 * ((weekday_index(start) + n) / 5)
            &&& is_working_day(day, Seq::<(int, int)>::empty())
        }),
    decreases n,
{
    let ranges = Seq::<(int, int)>::empty();
    lemma_weekday_step(start);
    if n == 0 {
        lemma_next_working_day_unique(start, ranges, start);
    } else {
        lemma_unexcluded_working_days(start, (n - 1) as nat);
        let previous = nth_working_day(start, ranges, (n - 1) as nat);
        lemma_weekday_offset(start, previous - start);
        lemma_following_working_day(previous, ranges);
        lemma_next_working_day(previous + 1, ranges);
    }
}

/// With no excluded ranges and a start date that is a working day, week
/// `week` starts exactly `7 * week` days after the start date.
pub proof fn lemma_weeks_seven_days_apart(start: int, week: nat)
    requires
        is_working_day(start, Seq::<(int, int)>::empty()),
    ensures
        week_start_day(start, Seq::<(int, int)>::empty(), week) == start + 7 * week,
{
    lemma_weekday_step(start);
    lemma_unexcluded_working_days(start, 5 * week);
}

/// In a calendar built with no excluded ranges from a start date that is
/// a working day, week `i` starts exactly `7 * i` days after the start
/// date.
pub proof fn lemma_calendar_weeks_seven_days_apart(
    calendar: Seq<WeekDateInfo>,
    start: int,
    total: int,
)
    requires
        is_calendar(calendar, start, Seq::<(int, int)>::empty(), total),
        is_working_day(start, Seq::<(int, int)>::empty()),
    ensures
        forall|i: int| 0 <= i < total ==> (#[trigger] calendar[i]).start_date@ == start + 7 * i,
{
    assert forall|i: int| 0 <= i < total implies (#[trigger] calendar[i]).start_date@ == start + 7
        * i by {
        lemma_weeks_seven_days_apart(start, i as nat);
    }
}

/// The Monday that follows a day.
pub open spec fn following_monday(day: int) -> int {
    day + 7 - weekday_index(day)
}

/// When the start date falls on a weekend, the first week starts on the
/// following Monday, provided no range excludes that Monday.
pub proof fn lemma_weekend_start_moves_to_monday(start: int, ranges: Seq<(int, int)>)
    requires
        is_weekend_day(start),
        !is_excluded(following_monday(start), ranges),
    ensures
        week_start_day(start, ranges, 0) == following_monday(start),
        weekday_index(following_monday(start)) == 0,
{
    lemma_weekday_step(start);
    lemma_weekday_step(start + 1);
    let monday = following_monday(start);
    lemma_next_working_day_unique(start, ranges, monday);
}

/// In a calendar built from a start date that falls on a weekend, the
/// first week starts on the following Monday, provided no range excludes
/// that Monday.
pub proof fn lemma_calendar_starts_on_monday(
    calendar: Seq<WeekDateInfo>,
    start: int,
    ranges: Seq<(int, int)>,
    total: int,
)
    requires
        is_calendar(calendar, start, ranges, total),
        total > 0,
        is_weekend_day(start),
        !is_excluded(following_monday(start), ranges),
    ensures
        calendar[0].start_date@ == following_monday(start),
        weekday_index(calendar[0].start_date@) == 0,
{
    lemma_weekend_start_moves_to_monday(start, ranges);
}

proof fn lemma_next_unaffected(from: int, ranges: Seq<(int, int)>, first: int, last: int)
    requires
        next_working_day(from, ranges) < first,
    ensures
        next_working_day(from, ranges.push((first, last))) == next_working_day(from, ranges),
{
    let extended = ranges.push((first, last));
    lemma_next_working_day(from, ranges);
    let day = next_working_day(from, ranges);
    assert forall|d: int| from <= d < day implies !#[trigger] is_working_day(d, extended) by {
        assert(!is_working_day(d, ranges));
        lemma_more_ranges_exclude_more(d, ranges, first, last);
    }
    lemma_next_working_day_unique(from, extended, day);
}

proof fn lemma_more_ranges_exclude_more(day: int, ranges: Seq<(int, int)>, first: int, last: int)
    ensures
        is_excluded(day, ranges) ==> is_excluded(day, ranges.push((first, last))),
        first <= day <= last ==> is_excluded(day, ranges.push((first, last))),
{
    let extended = ranges.push((first, last));
    if is_excluded(day, ranges) {
        let i = choose|i: int| 0 <= i < ranges.len() && #[trigger] in_range(day, ranges[i]);
        assert(in_range(day, extended[i]));
    }
    if first <= day <= last {
        assert(in_range(day, extended[ranges.len() as int]));
    }
}

/// Working days that come before an added range are not moved by it.
pub proof fn lemma_unaffected_before(
    start: int,
    ranges: Seq<(int, int)>,
    first: int,
    last: int,
    n: nat,
)
    requires
        nth_working_day(start, ranges, n) < first,
    ensures
        nth_working_day(start, ranges.push((first, last)), n) == nth_working_day(start, ranges, n),
    decreases n,
{
    if n == 0 {
        lemma_next_unaffected(start, ranges, first, last);
    } else {
        lemma_working_days_increase(start, ranges, (n - 1) as nat, n);
        lemma_unaffected_before(start, ranges, first, last, (n - 1) as nat);
        lemma_next_unaffected(
            nth_working_day(start, ranges, (n - 1) as nat) + 1,
            ranges,
            first,
            last,
        );
    }
}

/// If a non-academic range covers all the days that a week would span,
/// and the weeks before it end before the range begins, then with the
/// range added that week starts on the first working day after the
/// range's end.
pub proof fn lemma_exclusion_pushes_week(
    start: int,
    ranges: Seq<(int, int)>,
    first: int,
    last: int,
    week: nat,
)
    requires
        week > 0 ==> week_end_day(start, ranges, (week - 1) as nat) < first,
        first <= week_start_day(start, ranges, week),
        week_end_day(start, ranges, week) <= last,
    ensures
        week_start_day(start, ranges.push((first, last)), week) == next_working_day(
            last + 1,
            ranges.push((first, last)),
        ),
{
    let extended = ranges.push((first, last));
    let cursor = week_cursor(start, ranges, week);
    if week > 0 {
        lemma_unaffected_before(start, ranges, first, last, (5 * week - 1) as nat);
    }
    let would_start = week_start_day(start, ranges, week);
    lemma_working_days_increase(start, ranges, 5 * week, 5 * week + 4);
    lemma_next_working_day(cursor, ranges);
    lemma_next_working_day(last + 1, extended);
    let pushed = next_working_day(last + 1, extended);
    assert forall|d: int| cursor <= d < pushed implies !#[trigger] is_working_day(
        d,
        extended,
    ) by {
        lemma_more_ranges_exclude_more(d, ranges, first, last);
        if d < would_start {
            assert(!is_working_day(d, ranges));
        }
    }
    lemma_next_working_day_unique(cursor, extended, pushed);
}

/// A range that lies in the way of a week pushes the week past its end:
/// if the ranges hold a range from `first` to `last`, the week is
/// searched from a day that is not after `last`, and every day from there
/// up to `first` is a Saturday or a Sunday, then the week starts on the
/// first working day after `last`.
pub proof fn lemma_range_pushes_week(start: int, ranges: Seq<(int, int)>, index: int, week: nat)
    requires
        0 <= index < ranges.len(),
        week_cursor(start, ranges, week) <= ranges[index].1,
        forall|d: int|
            week_cursor(start, ranges, week) <= d < ranges[index].0 ==> is_weekend_day(d),
    ensures
        week_start_day(start, ranges, week) == next_working_day(ranges[index].1 + 1, ranges),
{
    let cursor = week_cursor(start, ranges, week);
    let last = ranges[index].1;
    lemma_next_working_day(last + 1, ranges);
    let pushed = next_working_day(last + 1, ranges);
    assert forall|d: int| cursor <= d < pushed implies !#[trigger] is_working_day(d, ranges) by {
        if ranges[index].0 <= d <= last {
            assert(in_range(d, ranges[index]));
        }
    }
    lemma_next_working_day_unique(cursor, ranges, pushed);
}

/// With one range alone, from `first` to `last`: if a week is searched
/// from a day that is not after `last`, and every day from there up to
/// `first` is a Saturday or a Sunday, then the week starts on the first
/// weekday after `last`.
pub proof fn lemma_single_range_pushes_week(start: int, first: int, last: int, week: nat)
    requires
        week_cursor(start, seq![(first, last)], week) <= last,
        forall|d: int|
            week_cursor(start, seq![(first, last)], week) <= d < first ==> is_weekend_day(d),
    ensures
        week_start_day(start, seq![(first, last)], week) > last,
        !is_weekend_day(week_start_day(start, seq![(first, last)], week)),
        forall|d: int|
            last < d < week_start_day(start, seq![(first, last)], week) ==> is_weekend_day(d),
{
    let ranges = seq![(first, last)];
    lemma_range_pushes_week(start, ranges, 0, week);
    lemma_next_working_day(last + 1, ranges);
    let day = week_start_day(start, ranges, week);
    assert forall|d: int| last < d < day implies is_weekend_day(d) by {
        assert(!is_working_day(d, ranges));
    }
}

/// Building a calendar twice from the same start date, week count and
/// ranges gives the same outcome: both times no calendar, where it does
/// not end within the representable dates, or both times the same weeks,
/// with the same start dates and the same labels.
pub proof fn lemma_calendar_outcome_is_determined(
    first: Option<Vec<WeekDateInfo>>,
    second: Option<Vec<WeekDateInfo>>,
    start: int,
    ranges: Seq<(int, int)>,
    total: int,
)
    requires
        first is Some <==> calendar_in_range(start, ranges, total),
        first matches Some(calendar) ==> is_calendar(calendar@, start, ranges, total),
        second is Some <==> calendar_in_range(start, ranges, total),
        second matches Some(calendar) ==> is_calendar(calendar@, start, ranges, total),
    ensures
        first is Some <==> second is Some,
        first is Some ==> first->0.len() == second->0.len(),
        first is Some ==> forall|k: int|
            0 <= k < first->0.len() ==> #[trigger] first->0[k]@ == second->0[k]@,
{
}

/// Two calendars built from the same start date, week count and ranges
/// are identical: same start dates, same labels.
pub proof fn lemma_calendar_is_determined(
    first: Seq<WeekDateInfo>,
    second: Seq<WeekDateInfo>,
    start: int,
    ranges: Seq<(int, int)>,
    total: int,
)
    requires
        is_calendar(first, start, ranges, total),
        is_calendar(second, start, ranges, total),
    ensures
        first.len() == second.len(),
        forall|k: int| 0 <= k < first.len() ==> #[trigger] first[k]@ == second[k]@,
{
}

} // verus!
