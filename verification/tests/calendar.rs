use web_project::calendar::{
    calculate_final_weeks_dates, calculate_week_dates, calendar_has_room, find_next_working_day,
    format_week_label, get_next_working_day, is_in_non_academic_period, is_weekend, month_name,
    try_calculate_final_weeks_dates, try_calculate_week_dates,
};
use web_project::dates::{CalendarDate, MAX_DAY, MIN_DAY};

fn date(year: i32, month: u32, day: u32) -> CalendarDate {
    CalendarDate::from_ymd(year, month, day).unwrap()
}

#[test]
fn test_calculate_week_dates_no_gaps() {
    // Start on Monday Sep 1, 2025, no non-academic periods
    let start_date = date(2025, 9, 1);
    assert!(calendar_has_room(start_date, 3, &[]));
    let weeks = calculate_week_dates(start_date, 3, &[]);

    assert_eq!(weeks.len(), 3);
    assert_eq!(weeks[0].start_date, date(2025, 9, 1));
    assert_eq!(weeks[1].start_date, date(2025, 9, 8));
    assert_eq!(weeks[2].start_date, date(2025, 9, 15));
}

#[test]
fn test_calculate_week_dates_skips_weekend() {
    // Start on Saturday Sep 6, 2025 - should skip to Monday Sep 8
    let start_date = date(2025, 9, 6);
    assert!(calendar_has_room(start_date, 2, &[]));
    let weeks = calculate_week_dates(start_date, 2, &[]);

    assert_eq!(weeks.len(), 2);
    assert_eq!(weeks[0].start_date, date(2025, 9, 8)); // Skipped to Monday
    assert_eq!(weeks[1].start_date, date(2025, 9, 15));
}

#[test]
fn test_calculate_week_dates_skips_non_academic() {
    // Start on Monday Sep 1, 2025
    // Non-academic period: Sep 8-14 (second week)
    let start_date = date(2025, 9, 1);
    let non_academic = vec![(date(2025, 9, 8), date(2025, 9, 14), "Receso".to_string())];
    assert!(calendar_has_room(start_date, 3, &non_academic));
    let weeks = calculate_week_dates(start_date, 3, &non_academic);

    assert_eq!(weeks.len(), 3);
    assert_eq!(weeks[0].start_date, date(2025, 9, 1));
    // Week 2 should skip the non-academic period and land on Sep 15
    assert_eq!(weeks[1].start_date, date(2025, 9, 15));
    assert_eq!(weeks[2].start_date, date(2025, 9, 22));
}

#[test]
fn test_weeks_start_seven_days_apart() {
    // Every weekday of one week as the start, no exclusions.
    for offset in 0..5 {
        let start = CalendarDate::from_num_days_from_ce(date(2025, 9, 1).num_days_from_ce() + offset)
            .unwrap();
        assert!(!is_weekend(start));
        let weeks = calculate_week_dates(start, 6, &[]);
        assert_eq!(weeks.len(), 6);
        for (i, week) in weeks.iter().enumerate() {
            assert_eq!(
                week.start_date.num_days_from_ce(),
                start.num_days_from_ce() + 7 * (i as i32)
            );
        }
    }
}

#[test]
fn test_weekend_start_moves_to_monday() {
    let sunday = date(2025, 9, 7);
    assert!(is_weekend(sunday));
    let weeks = calculate_week_dates(sunday, 1, &[]);
    assert_eq!(weeks[0].start_date, date(2025, 9, 8));
    // With the Monday excluded the week starts on Tuesday instead.
    let excluded = vec![(date(2025, 9, 8), date(2025, 9, 8), "Feriado".to_string())];
    let weeks = calculate_week_dates(sunday, 1, &excluded);
    assert_eq!(weeks[0].start_date, date(2025, 9, 9));
}

#[test]
fn test_exclusion_pushes_week_start() {
    let start = date(2025, 9, 1);
    // Two overlapping, unordered ranges that cover the second week and more.
    let periods = vec![
        (date(2025, 9, 12), date(2025, 9, 24), "B".to_string()),
        (date(2025, 9, 8), date(2025, 9, 14), "A".to_string()),
    ];
    let weeks = calculate_week_dates(start, 2, &periods);
    assert_eq!(weeks[0].start_date, date(2025, 9, 1));
    assert_eq!(weeks[1].start_date, date(2025, 9, 25));
    assert_eq!(weeks[1].start_date, get_next_working_day(date(2025, 9, 25), &periods));
}

#[test]
fn test_week_interrupted_by_exclusion() {
    // A holiday on Wednesday: the week needs one more day, and the label
    // runs to the following Monday.
    let start = date(2025, 9, 1);
    let periods = vec![(date(2025, 9, 3), date(2025, 9, 3), "Feriado".to_string())];
    let weeks = calculate_week_dates(start, 2, &periods);
    assert_eq!(weeks[0].start_date, date(2025, 9, 1));
    assert_eq!(weeks[0].display_range, "1-8 Sep");
    assert_eq!(weeks[1].start_date, date(2025, 9, 9));
    assert_eq!(weeks[1].display_range, "9-15 Sep");
}

#[test]
fn test_calendar_is_repeatable() {
    let start = date(2025, 9, 3);
    let periods = vec![(date(2025, 9, 10), date(2025, 9, 12), "Receso".to_string())];
    let first = calculate_week_dates(start, 5, &periods);
    let second = calculate_week_dates(start, 5, &periods);
    assert_eq!(first.len(), second.len());
    for i in 0..first.len() {
        assert_eq!(first[i].start_date, second[i].start_date);
        assert_eq!(first[i].display_range, second[i].display_range);
    }
}

#[test]
fn test_week_labels() {
    let weeks = calculate_week_dates(date(2025, 9, 1), 5, &[]);
    assert_eq!(weeks[0].display_range, "1-5 Sep");
    assert_eq!(weeks[1].display_range, "8-12 Sep");
    assert_eq!(weeks[4].display_range, "29 Sep-3 Oct");
}

#[test]
fn test_format_week_label() {
    assert_eq!(format_week_label(1, 9, 5, 9), "1-5 Sep");
    assert_eq!(format_week_label(29, 9, 3, 10), "29 Sep-3 Oct");
    assert_eq!(format_week_label(29, 12, 2, 1), "29 Dic-2 Ene");
    assert_eq!(format_week_label(10, 1, 14, 1), "10-14 Ene");
}

#[test]
fn test_month_names() {
    let names: Vec<&str> = (1..=12).map(month_name).collect();
    assert_eq!(
        names,
        vec!["Ene", "Feb", "Mar", "Abr", "May", "Jun", "Jul", "Ago", "Sep", "Oct", "Nov", "Dic"]
    );
}

#[test]
fn test_final_weeks_follow_the_last_week() {
    let start = date(2025, 9, 1);
    let finals = calculate_final_weeks_dates(start, 3, &[]);
    assert_eq!(finals.len(), 2);
    assert_eq!(finals[0].start_date, date(2025, 9, 22));
    assert_eq!(finals[0].display_range, "22-26 Sep");
    assert_eq!(finals[1].start_date, date(2025, 9, 29));
    assert_eq!(finals[1].display_range, "29 Sep-3 Oct");
    // They are weeks 3 and 4 of the same calendar.
    let all = calculate_week_dates(start, 5, &[]);
    assert_eq!(all[3].start_date, finals[0].start_date);
    assert_eq!(all[4].start_date, finals[1].start_date);
    assert_eq!(all[3].display_range, finals[0].display_range);
}

#[test]
fn test_final_weeks_without_lective_weeks() {
    let finals = calculate_final_weeks_dates(date(2025, 9, 6), 0, &[]);
    assert_eq!(finals.len(), 2);
    assert_eq!(finals[0].start_date, date(2025, 9, 8));
    assert_eq!(finals[1].start_date, date(2025, 9, 15));
    assert!(calculate_week_dates(date(2025, 9, 6), 0, &[]).is_empty());
}

#[test]
fn test_final_weeks_skip_exclusions() {
    let start = date(2025, 9, 1);
    let periods = vec![(date(2025, 9, 8), date(2025, 9, 14), "Receso".to_string())];
    let finals = calculate_final_weeks_dates(start, 1, &periods);
    assert_eq!(finals[0].start_date, date(2025, 9, 15));
    assert_eq!(finals[1].start_date, date(2025, 9, 22));
}

#[test]
fn test_next_working_day() {
    let periods = vec![(date(2025, 9, 8), date(2025, 9, 9), "Receso".to_string())];
    assert_eq!(get_next_working_day(date(2025, 9, 5), &periods), date(2025, 9, 5));
    assert_eq!(get_next_working_day(date(2025, 9, 6), &periods), date(2025, 9, 10));
    assert_eq!(get_next_working_day(date(2025, 9, 6), &[]), date(2025, 9, 8));
}

#[test]
fn test_period_membership_is_inclusive() {
    let periods = vec![
        (date(2025, 12, 20), date(2026, 1, 4), "Fin de año".to_string()),
        (date(2025, 9, 8), date(2025, 9, 14), "Receso".to_string()),
    ];
    assert!(is_in_non_academic_period(date(2025, 9, 8), &periods));
    assert!(is_in_non_academic_period(date(2025, 9, 14), &periods));
    assert!(is_in_non_academic_period(date(2026, 1, 1), &periods));
    assert!(!is_in_non_academic_period(date(2025, 9, 7), &periods));
    assert!(!is_in_non_academic_period(date(2025, 9, 15), &periods));
    assert!(!is_in_non_academic_period(date(2025, 9, 10), &[]));
}

#[test]
fn test_weekend_days() {
    assert!(is_weekend(date(2025, 9, 6)));
    assert!(is_weekend(date(2025, 9, 7)));
    assert!(!is_weekend(date(2025, 9, 5)));
    assert!(!is_weekend(date(2025, 9, 8)));
    // Day 1 is a Monday; the days before it keep the cycle.
    assert_eq!(date(1, 1, 1).num_days_from_ce(), 1);
    assert_eq!(date(1, 1, 1).parts().weekday, 0);
    assert_eq!(CalendarDate::from_num_days_from_ce(0).unwrap().parts().weekday, 6);
    assert_eq!(CalendarDate::from_num_days_from_ce(-1).unwrap().parts().weekday, 5);
    assert_eq!(CalendarDate::from_num_days_from_ce(-6).unwrap().parts().weekday, 0);
}

#[test]
fn test_weekday_follows_the_day_number() {
    // The weekday is the day number less one, modulo seven, on both sides
    // of day 1 and at both ends of the range.
    let mut days: Vec<i32> = (-800..=800).collect();
    days.extend(MIN_DAY..MIN_DAY + 400);
    days.extend(MAX_DAY - 400..=MAX_DAY);
    days.extend(739_000..740_000);
    for day in days {
        let date = CalendarDate::from_num_days_from_ce(day).unwrap();
        assert_eq!(date.parts().weekday as i32, (day - 1).rem_euclid(7), "day {}", day);
    }
}

#[test]
fn test_date_range() {
    assert!(CalendarDate::from_num_days_from_ce(MAX_DAY).is_some());
    assert!(CalendarDate::from_num_days_from_ce(MAX_DAY + 1).is_none());
    assert!(CalendarDate::from_num_days_from_ce(MIN_DAY).is_some());
    assert!(CalendarDate::from_num_days_from_ce(MIN_DAY - 1).is_none());
    // The ends of the range are the first and the last date that exist.
    assert_eq!(date(262142, 12, 31).num_days_from_ce(), MAX_DAY);
    assert_eq!(date(-262143, 1, 1).num_days_from_ce(), MIN_DAY);
    assert!(CalendarDate::from_ymd(262143, 1, 1).is_none());
    assert!(CalendarDate::from_ymd(-262144, 12, 31).is_none());
    let last = CalendarDate::from_num_days_from_ce(MAX_DAY).unwrap().parts();
    assert_eq!((last.year, last.month, last.day), (262142, 12, 31));
    let first = CalendarDate::from_num_days_from_ce(MIN_DAY).unwrap().parts();
    assert_eq!((first.year, first.month, first.day), (-262143, 1, 1));
}

#[test]
fn test_dates_from_year_month_day() {
    assert!(CalendarDate::from_ymd(2025, 2, 29).is_none());
    assert!(CalendarDate::from_ymd(2024, 2, 29).is_some());
    assert!(CalendarDate::from_ymd(2025, 13, 1).is_none());
    assert!(CalendarDate::from_ymd(2025, 0, 1).is_none());
    assert!(CalendarDate::from_ymd(2025, 4, 31).is_none());
    let d = date(2025, 9, 30);
    assert_eq!(d.month(), 9);
    assert_eq!(d.day(), 30);
    assert_eq!(d.succ(), date(2025, 10, 1));
    assert_eq!(date(1970, 1, 1).num_days_from_ce(), 719_163);
    let back = CalendarDate::from_num_days_from_ce(d.num_days_from_ce()).unwrap();
    assert_eq!(back, d);
    let parts = d.parts();
    assert_eq!((parts.year, parts.month, parts.day, parts.weekday), (2025, 9, 30, 1));
}

#[test]
fn test_calendar_room() {
    let start = date(2025, 9, 1);
    assert!(calendar_has_room(start, 1000, &[]));
    let near_end = CalendarDate::from_num_days_from_ce(MAX_DAY - 20).unwrap();
    assert!(calendar_has_room(near_end, 2, &[]));
    assert!(!calendar_has_room(near_end, 3, &[]));
    let late = CalendarDate::from_num_days_from_ce(MAX_DAY - 5).unwrap();
    let periods = vec![(start, late, "Largo".to_string())];
    assert!(!calendar_has_room(start, 1, &periods));
    assert!(calendar_has_room(start, 0, &periods));
    let weeks = calculate_week_dates(near_end, 2, &[]);
    assert_eq!(weeks.len(), 2);
}

#[test]
fn test_calendar_at_the_end_of_the_dates() {
    // The last representable day and the Monday of its week.
    let last = CalendarDate::from_num_days_from_ce(MAX_DAY).unwrap();
    let weekday = last.parts().weekday as i32;
    let monday = CalendarDate::from_num_days_from_ce(MAX_DAY - weekday).unwrap();
    let previous_monday = CalendarDate::from_num_days_from_ce(MAX_DAY - weekday - 7).unwrap();
    // The week before the last is whole; with it the calendar ends.
    let weeks = try_calculate_week_dates(previous_monday, 1, &[]).unwrap();
    assert_eq!(weeks[0].start_date, previous_monday);
    assert!(try_calculate_week_dates(previous_monday, 0, &[]).unwrap().is_empty());
    if weekday >= 4 {
        assert_eq!(try_calculate_week_dates(monday, 1, &[]).unwrap()[0].start_date, monday);
        assert_eq!(try_calculate_week_dates(previous_monday, 2, &[]).unwrap().len(), 2);
    } else {
        assert!(try_calculate_week_dates(monday, 1, &[]).is_none());
        assert!(try_calculate_week_dates(previous_monday, 2, &[]).is_none());
    }
    assert!(try_calculate_week_dates(previous_monday, 3, &[]).is_none());
    assert!(try_calculate_final_weeks_dates(previous_monday, 0, &[]).is_some() == (weekday >= 4));
    assert!(try_calculate_final_weeks_dates(previous_monday, 1, &[]).is_none());
    // A working day is found as long as one is left.
    let periods = vec![(monday, last, "Fin".to_string())];
    assert_eq!(find_next_working_day(monday, &periods), None);
    assert_eq!(find_next_working_day(last, &periods), None);
    let friday = CalendarDate::from_num_days_from_ce(MAX_DAY - weekday - 3).unwrap();
    assert_eq!(find_next_working_day(previous_monday, &periods), Some(previous_monday));
    assert_eq!(find_next_working_day(friday, &periods), Some(friday));
    assert_eq!(find_next_working_day(friday.succ(), &periods), None);
    // A period that reaches the last day does not stand in the way of a
    // calendar that ends before it.
    let start = date(2025, 9, 1);
    let late = vec![(date(2026, 1, 1), last, "Nunca más".to_string())];
    assert!(!calendar_has_room(start, 3, &late));
    let weeks = try_calculate_week_dates(start, 3, &late).unwrap();
    assert_eq!(weeks[2].start_date, date(2025, 9, 15));
    assert!(try_calculate_week_dates(start, 1000, &late).is_none());
    let finals = try_calculate_final_weeks_dates(start, 3, &late).unwrap();
    assert_eq!(finals[1].display_range, "29 Sep-3 Oct");
}

#[test]
fn test_checked_calendar_agrees() {
    let start = date(2025, 9, 3);
    let periods = vec![(date(2025, 9, 10), date(2025, 9, 12), "Receso".to_string())];
    let checked = try_calculate_week_dates(start, 4, &periods).unwrap();
    let plain = calculate_week_dates(start, 4, &periods);
    for i in 0..4 {
        assert_eq!(checked[i].start_date, plain[i].start_date);
        assert_eq!(checked[i].display_range, plain[i].display_range);
    }
    let checked = try_calculate_final_weeks_dates(start, 4, &periods).unwrap();
    let plain = calculate_final_weeks_dates(start, 4, &periods);
    assert_eq!(checked[0].start_date, plain[0].start_date);
    assert_eq!(checked[1].display_range, plain[1].display_range);
    assert_eq!(find_next_working_day(date(2025, 9, 10), &periods), Some(date(2025, 9, 15)));
}

#[test]
fn test_labels_are_short() {
    // The longest label: two days of two digits and two months.
    let longest = format_week_label(20, 9, 12, 10);
    assert_eq!(longest, "20 Sep-12 Oct");
    assert_eq!(longest.chars().count(), 13);
    assert_eq!(format_week_label(31, 12, 31, 12), "31-31 Dic");
    // A week that a long break interrupts.
    let periods = vec![(date(2025, 9, 23), date(2025, 10, 9), "Receso".to_string())];
    let weeks = calculate_week_dates(date(2025, 9, 22), 3, &periods);
    assert_eq!(weeks[0].display_range, "22 Sep-15 Oct");
    for week in weeks.iter().chain(calculate_final_weeks_dates(date(2025, 9, 22), 3, &periods).iter()) {
        assert!(week.display_range.chars().count() <= 13);
    }
}

#[test]
fn test_range_after_weekend_days_pushes_the_week() {
    // The start is a Saturday and the range begins on the Monday after it:
    // all days before the range are weekend days, and the first week
    // starts on the first weekday after the range.
    let periods = vec![(date(2025, 9, 8), date(2025, 9, 14), "Receso".to_string())];
    let weeks = calculate_week_dates(date(2025, 9, 6), 2, &periods);
    assert_eq!(weeks[0].start_date, date(2025, 9, 15));
    assert_eq!(weeks[1].start_date, date(2025, 9, 22));
    // The range ends on a Friday: the week starts on the Monday after it.
    let periods = vec![(date(2025, 9, 8), date(2025, 9, 12), "Receso".to_string())];
    let weeks = calculate_week_dates(date(2025, 9, 1), 2, &periods);
    assert_eq!(weeks[1].start_date, date(2025, 9, 15));
    // The start lies inside the range.
    let periods = vec![(date(2025, 9, 1), date(2025, 9, 3), "Receso".to_string())];
    let weeks = calculate_week_dates(date(2025, 9, 2), 1, &periods);
    assert_eq!(weeks[0].start_date, date(2025, 9, 4));
    // A weekday before the range is not skipped.
    let periods = vec![(date(2025, 9, 9), date(2025, 9, 14), "Receso".to_string())];
    let weeks = calculate_week_dates(date(2025, 9, 6), 1, &periods);
    assert_eq!(weeks[0].start_date, date(2025, 9, 8));
}

#[test]
fn test_calendar_outcome_is_repeatable() {
    let periods = vec![(date(2025, 9, 10), date(2025, 9, 12), "Receso".to_string())];
    let first = try_calculate_week_dates(date(2025, 9, 3), 6, &periods).unwrap();
    let second = try_calculate_week_dates(date(2025, 9, 3), 6, &periods).unwrap();
    assert_eq!(first.len(), 6);
    assert_eq!(first.len(), second.len());
    for i in 0..first.len() {
        assert_eq!(first[i].start_date, second[i].start_date);
        assert_eq!(first[i].display_range, second[i].display_range);
    }
    // Where the calendar does not end within the dates, it is refused
    // both times.
    let late = CalendarDate::from_num_days_from_ce(MAX_DAY - 20).unwrap();
    assert!(try_calculate_week_dates(late, 10, &periods).is_none());
    assert!(try_calculate_week_dates(late, 10, &periods).is_none());
}
