use pomagotchi::calendar::{classify_day, days_are_consecutive};
use pomagotchi::{is_consecutive_day, DayGap};

#[test]
fn the_day_after_is_consecutive() {
    assert!(is_consecutive_day("2024-03-14", "2024-03-15"));
}

#[test]
fn the_same_day_is_not_consecutive() {
    assert!(!is_consecutive_day("2024-03-14", "2024-03-14"));
}

#[test]
fn the_day_before_is_not_consecutive() {
    assert!(!is_consecutive_day("2024-03-15", "2024-03-14"));
}

#[test]
fn two_days_later_is_not_consecutive() {
    assert!(!is_consecutive_day("2024-03-14", "2024-03-16"));
}

#[test]
fn consecutive_days_cross_months_and_years() {
    assert!(is_consecutive_day("2024-01-31", "2024-02-01"));
    assert!(is_consecutive_day("2024-12-31", "2025-01-01"));
    assert!(!is_consecutive_day("2024-01-01", "2025-01-01"));
    assert!(!is_consecutive_day("2024-01-31", "2024-03-01"));
}

#[test]
fn consecutive_days_know_leap_years() {
    assert!(is_consecutive_day("2024-02-28", "2024-02-29"));
    assert!(is_consecutive_day("2024-02-29", "2024-03-01"));
    assert!(!is_consecutive_day("2024-02-28", "2024-03-01"));
    assert!(is_consecutive_day("2023-02-28", "2023-03-01"));
    assert!(is_consecutive_day("1900-02-28", "1900-03-01"));
    assert!(is_consecutive_day("2000-02-28", "2000-02-29"));
}

#[test]
fn unreadable_dates_are_never_consecutive() {
    assert!(!is_consecutive_day("", "2024-03-15"));
    assert!(!is_consecutive_day("2024-03-14", ""));
    assert!(!is_consecutive_day("yesterday", "today"));
    assert!(!is_consecutive_day("2024-02-30", "2024-03-01"));
    assert!(!is_consecutive_day("2023-02-29", "2023-03-01"));
    assert!(!is_consecutive_day("2024-13-01", "2024-13-02"));
    assert!(!is_consecutive_day("2024/03/14", "2024/03/15"));
    assert!(!is_consecutive_day("2024-03-14T10:00:00", "2024-03-15"));
}

#[test]
fn day_numbers_one_apart_are_consecutive() {
    assert!(days_are_consecutive(Some(738_959), Some(738_960)));
    assert!(days_are_consecutive(Some(-1), Some(0)));
    assert!(!days_are_consecutive(Some(738_960), Some(738_960)));
    assert!(!days_are_consecutive(Some(738_960), Some(738_959)));
    assert!(!days_are_consecutive(Some(738_955), Some(738_960)));
    assert!(!days_are_consecutive(Some(i32::MIN), Some(i32::MAX)));
    assert!(!days_are_consecutive(Some(i32::MAX), Some(i32::MIN)));
}

#[test]
fn missing_day_numbers_are_never_consecutive() {
    assert!(!days_are_consecutive(None, Some(1)));
    assert!(!days_are_consecutive(Some(1), None));
    assert!(!days_are_consecutive(None, None));
}

#[test]
fn classify_without_a_last_session() {
    assert_eq!(classify_day(&None, &"2024-03-15".to_string()), DayGap::NoPriorSession);
    assert_eq!(classify_day(&None, &"no date".to_string()), DayGap::NoPriorSession);
}

#[test]
fn classify_same_day() {
    let last = Some("2024-03-15".to_string());
    assert_eq!(classify_day(&last, &"2024-03-15".to_string()), DayGap::SameDay);
}

#[test]
fn classify_same_text_that_is_no_date() {
    let last = Some("no date".to_string());
    assert_eq!(classify_day(&last, &"no date".to_string()), DayGap::SameDay);
}

#[test]
fn classify_next_day() {
    let last = Some("2024-03-14".to_string());
    assert_eq!(classify_day(&last, &"2024-03-15".to_string()), DayGap::NextDay);
}

#[test]
fn classify_other_gaps() {
    let today = "2024-03-15".to_string();
    assert_eq!(classify_day(&Some("2024-03-10".to_string()), &today), DayGap::Other);
    assert_eq!(classify_day(&Some("2024-03-13".to_string()), &today), DayGap::Other);
    assert_eq!(classify_day(&Some("2024-03-16".to_string()), &today), DayGap::Other);
    assert_eq!(classify_day(&Some("2030-01-01".to_string()), &today), DayGap::Other);
    assert_eq!(classify_day(&Some("garbage".to_string()), &today), DayGap::Other);
    assert_eq!(classify_day(&Some("2024-03-14".to_string()), &"garbage".to_string()), DayGap::Other);
}
