use pomagotchi::{DayGap, GameProgress};

#[test]
fn default_progress_is_empty() {
    let p = GameProgress::default();
    assert_eq!(p.total_pomodoros_completed, 0);
    assert_eq!(p.total_xp_earned, 0);
    assert_eq!(p.total_time_studied_seconds, 0);
    assert_eq!(p.sessions_this_week, 0);
    assert_eq!(p.current_streak, 0);
    assert_eq!(p.best_streak, 0);
    assert_eq!(p.last_session_date, None);
}

#[test]
fn first_session_starts_both_streaks_at_one() {
    let mut p = GameProgress::default();
    p.complete_session(1500, 50, "2024-03-15".to_string());
    assert_eq!(p.current_streak, 1);
    assert_eq!(p.best_streak, 1);
    assert_eq!(p.last_session_date, Some("2024-03-15".to_string()));
    assert_eq!(p.total_pomodoros_completed, 1);
    assert_eq!(p.total_xp_earned, 50);
    assert_eq!(p.total_time_studied_seconds, 1500);
    assert_eq!(p.sessions_this_week, 0);
}

#[test]
fn first_session_overrides_streaks_that_stood_before() {
    let mut p = GameProgress::default();
    p.current_streak = 4;
    p.best_streak = 9;
    p.complete_session(60, 1, "2024-03-15".to_string());
    assert_eq!(p.current_streak, 1);
    assert_eq!(p.best_streak, 1);
}

#[test]
fn session_on_the_next_day_extends_the_streak() {
    let mut p = GameProgress::default();
    p.current_streak = 3;
    p.best_streak = 3;
    p.last_session_date = Some("2024-03-14".to_string());
    p.complete_session(1500, 50, "2024-03-15".to_string());
    assert_eq!(p.current_streak, 4);
    assert_eq!(p.best_streak, 4);
    assert_eq!(p.last_session_date, Some("2024-03-15".to_string()));
}

#[test]
fn session_on_the_next_day_keeps_a_longer_best_streak() {
    let mut p = GameProgress::default();
    p.current_streak = 2;
    p.best_streak = 10;
    p.last_session_date = Some("2024-03-14".to_string());
    p.complete_session(1500, 50, "2024-03-15".to_string());
    assert_eq!(p.current_streak, 3);
    assert_eq!(p.best_streak, 10);
}

#[test]
fn session_on_the_same_day_leaves_the_streak() {
    let mut p = GameProgress::default();
    p.current_streak = 3;
    p.best_streak = 5;
    p.last_session_date = Some("2024-03-15".to_string());
    p.complete_session(1500, 50, "2024-03-15".to_string());
    assert_eq!(p.current_streak, 3);
    assert_eq!(p.best_streak, 5);
    assert_eq!(p.last_session_date, Some("2024-03-15".to_string()));
    assert_eq!(p.total_pomodoros_completed, 1);
}

#[test]
fn session_five_days_later_resets_the_streak() {
    let mut p = GameProgress::default();
    p.current_streak = 3;
    p.best_streak = 5;
    p.last_session_date = Some("2024-03-10".to_string());
    p.complete_session(1500, 50, "2024-03-15".to_string());
    assert_eq!(p.current_streak, 1);
    assert_eq!(p.best_streak, 5);
    assert_eq!(p.last_session_date, Some("2024-03-15".to_string()));
}

#[test]
fn session_before_the_last_date_resets_the_streak() {
    let mut p = GameProgress::default();
    p.current_streak = 3;
    p.best_streak = 5;
    p.last_session_date = Some("2024-03-20".to_string());
    p.complete_session(1500, 50, "2024-03-15".to_string());
    assert_eq!(p.current_streak, 1);
    assert_eq!(p.best_streak, 5);
}

#[test]
fn session_after_an_unreadable_date_resets_the_streak() {
    let mut p = GameProgress::default();
    p.current_streak = 3;
    p.best_streak = 5;
    p.last_session_date = Some("last week".to_string());
    p.complete_session(1500, 50, "2024-03-15".to_string());
    assert_eq!(p.current_streak, 1);
    assert_eq!(p.best_streak, 5);
}

#[test]
fn a_week_of_sessions_builds_a_streak_of_seven() {
    let mut p = GameProgress::default();
    let days = [
        "2024-02-26", "2024-02-27", "2024-02-28", "2024-02-29", "2024-03-01", "2024-03-02",
        "2024-03-03",
    ];
    for day in days {
        p.complete_session(1500, 10, day.to_string());
        p.complete_session(300, 5, day.to_string());
    }
    assert_eq!(p.current_streak, 7);
    assert_eq!(p.best_streak, 7);
    assert_eq!(p.total_pomodoros_completed, 14);
    assert_eq!(p.total_xp_earned, 105);
    assert_eq!(p.total_time_studied_seconds, 12_600);
    p.complete_session(1500, 10, "2024-03-05".to_string());
    assert_eq!(p.current_streak, 1);
    assert_eq!(p.best_streak, 7);
}

#[test]
fn totals_stop_at_the_largest_counter() {
    let mut p = GameProgress::default();
    p.total_pomodoros_completed = u32::MAX;
    p.total_xp_earned = u32::MAX - 5;
    p.total_time_studied_seconds = 4_000_000_000;
    p.complete_session(1_000_000_000, 10, "2024-03-15".to_string());
    assert_eq!(p.total_pomodoros_completed, u32::MAX);
    assert_eq!(p.total_xp_earned, u32::MAX);
    assert_eq!(p.total_time_studied_seconds, u32::MAX);
}

#[test]
fn streak_stops_at_the_largest_counter() {
    let mut p = GameProgress::default();
    p.current_streak = u32::MAX;
    p.best_streak = u32::MAX;
    p.last_session_date = Some("2024-03-14".to_string());
    p.complete_session(1500, 50, "2024-03-15".to_string());
    assert_eq!(p.current_streak, u32::MAX);
    assert_eq!(p.best_streak, u32::MAX);
}

#[test]
fn record_session_follows_the_gap_it_is_given() {
    let mut p = GameProgress::default();
    p.current_streak = 3;
    p.best_streak = 5;
    p.last_session_date = Some("2024-03-10".to_string());

    let mut same = p.clone();
    same.record_session(10, 1, "2024-03-15".to_string(), DayGap::SameDay);
    assert_eq!((same.current_streak, same.best_streak), (3, 5));

    let mut next = p.clone();
    next.record_session(10, 1, "2024-03-15".to_string(), DayGap::NextDay);
    assert_eq!((next.current_streak, next.best_streak), (4, 5));

    let mut other = p.clone();
    other.record_session(10, 1, "2024-03-15".to_string(), DayGap::Other);
    assert_eq!((other.current_streak, other.best_streak), (1, 5));

    let mut first = p.clone();
    first.record_session(10, 1, "2024-03-15".to_string(), DayGap::NoPriorSession);
    assert_eq!((first.current_streak, first.best_streak), (1, 1));
    assert_eq!(first.last_session_date, Some("2024-03-15".to_string()));
    assert_eq!(first.total_pomodoros_completed, 1);
    assert_eq!(first.total_xp_earned, 1);
    assert_eq!(first.total_time_studied_seconds, 10);
}

#[test]
fn add_xp_counts_into_the_total_only() {
    let mut p = GameProgress::default();
    p.add_xp(40);
    p.add_xp(2);
    assert_eq!(p.total_xp_earned, 42);
    assert_eq!(p.total_pomodoros_completed, 0);
    assert_eq!(p.current_streak, 0);
    assert_eq!(p.last_session_date, None);
    p.add_xp(u32::MAX);
    assert_eq!(p.total_xp_earned, u32::MAX);
}
