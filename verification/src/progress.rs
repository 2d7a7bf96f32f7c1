//! Study statistics: running totals and the day streak.

use crate::calendar::{classify_day, consecutive_days, date_text, day_gap, DayGap};
use crate::counter::{capped_sum, COUNTER_MAX};
use vstd::prelude::*;

verus! {

/// The statistics as mathematics sees them.
pub struct ProgressModel {
    pub total_pomodoros_completed: nat,
    pub total_xp_earned: nat,
    pub total_time_studied_seconds: nat,
    pub sessions_this_week: nat,
    pub current_streak: nat,
    pub best_streak: nat,
    pub last_session_date: Option<Seq<char>>,
}

impl ProgressModel {
    /// Nothing studied yet.
    pub open spec fn initial() -> ProgressModel {
        ProgressModel {
            total_pomodoros_completed: 0,
            total_xp_earned: 0,
            total_time_studied_seconds: 0,
            sessions_this_week: 0,
            current_streak: 0,
            best_streak: 0,
            last_session_date: None,
        }
    }

    /// The best streak is no shorter than the current one; before the first
    /// session there is no streak, and from then on the current one is at least
    /// one.
    pub open spec fn streaks_consistent(self) -> bool {
        &&& self.best_streak >= self.current_streak
        &&& self.last_session_date is None ==> self.best_streak == 0
        &&& self.last_session_date is Some ==> self.current_streak >= 1
    }

    /// The current streak after a session whose day stands in `gap` to the last.
    pub open spec fn next_current_streak(self, gap: DayGap) -> nat {
        match gap {
            DayGap::NoPriorSession => 1,
            DayGap::SameDay => self.current_streak,
            DayGap::NextDay => capped_sum(self.current_streak, 1),
            DayGap::Other => 1,
        }
    }

    /// The best streak after a session whose day stands in `gap` to the last.
    pub open spec fn next_best_streak(self, gap: DayGap) -> nat {
        match gap {
            DayGap::NoPriorSession => 1,
            DayGap::SameDay => self.best_streak,
            DayGap::NextDay => if self.best_streak >= capped_sum(self.current_streak, 1) {
                self.best_streak
            } else {
                capped_sum(self.current_streak, 1)
            },
            DayGap::Other => self.best_streak,
        }
    }

    /// The statistics after one more session of `duration_seconds` that earned
    /// `xp_gained`, held on the day `today`, which stands in `gap` to the last.
    pub open spec fn record_session(
        self,
        duration_seconds: nat,
        xp_gained: nat,
        today: Seq<char>,
        gap: DayGap,
    ) -> ProgressModel {
        ProgressModel {
            total_pomodoros_completed: capped_sum(self.total_pomodoros_completed, 1),
            total_xp_earned: capped_sum(self.total_xp_earned, xp_gained),
            total_time_studied_seconds: capped_sum(
                self.total_time_studied_seconds,
                duration_seconds,
            ),
            sessions_this_week: self.sessions_this_week,
            current_streak: self.next_current_streak(gap),
            best_streak: self.next_best_streak(gap),
            last_session_date: Some(today),
        }
    }

    /// The statistics after a session held on `today`, the gap read off the dates.
    pub open spec fn complete_session(
        self,
        duration_seconds: nat,
        xp_gained: nat,
        today: Seq<char>,
    ) -> ProgressModel {
        self.record_session(
            duration_seconds,
            xp_gained,
            today,
            day_gap(self.last_session_date, today),
        )
    }
}

/// The first session ever starts both streaks at one.
pub proof fn first_session_starts_streak(
    progress: ProgressModel,
    duration_seconds: nat,
    xp_gained: nat,
    today: Seq<char>,
)
    requires
        progress.last_session_date is None,
    ensures
        progress.complete_session(duration_seconds, xp_gained, today).current_streak == 1,
        progress.complete_session(duration_seconds, xp_gained, today).best_streak == 1,
{
}

/// A session on the day after the last one lengthens the current streak by one,
/// up to the largest count a counter holds, and the best streak becomes the
/// longer of the two.
pub proof fn next_day_session_extends_streak(
    progress: ProgressModel,
    duration_seconds: nat,
    xp_gained: nat,
    last: Seq<char>,
    today: Seq<char>,
)
    requires
        progress.last_session_date == Some(last),
        consecutive_days(last, today),
    ensures
        ({
            let after = progress.complete_session(duration_seconds, xp_gained, today);
            &&& after.current_streak == capped_sum(progress.current_streak, 1)
            &&& progress.current_streak < COUNTER_MAX ==> after.current_streak
                == progress.current_streak + 1
            &&& after.best_streak == if progress.best_streak >= after.current_streak {
                progress.best_streak
            } else {
                after.current_streak
            }
        }),
{
}

/// A second session on the day of the last one leaves both streaks as they are.
pub proof fn same_day_session_keeps_streak(
    progress: ProgressModel,
    duration_seconds: nat,
    xp_gained: nat,
    today: Seq<char>,
)
    requires
        progress.last_session_date == Some(today),
    ensures
        progress.complete_session(duration_seconds, xp_gained, today).current_streak
            == progress.current_streak,
        progress.complete_session(duration_seconds, xp_gained, today).best_streak
            == progress.best_streak,
{
}

/// A session that falls neither on the day of the last one nor on the day after
/// it puts the current streak back to one and leaves the best streak alone.
pub proof fn broken_streak_restarts(
    progress: ProgressModel,
    duration_seconds: nat,
    xp_gained: nat,
    last: Seq<char>,
    today: Seq<char>,
)
    requires
        progress.last_session_date == Some(last),
        last != today,
        !consecutive_days(last, today),
    ensures
        progress.complete_session(duration_seconds, xp_gained, today).current_streak == 1,
        progress.complete_session(duration_seconds, xp_gained, today).best_streak
            == progress.best_streak,
{
}

/// Completing a session keeps the streaks consistent, never lowers a total or
/// the best streak, and leaves the weekly count alone.
pub proof fn session_keeps_statistics_sound(
    progress: ProgressModel,
    duration_seconds: nat,
    xp_gained: nat,
    today: Seq<char>,
)
    requires
        progress.streaks_consistent(),
    ensures
        ({
            let after = progress.complete_session(duration_seconds, xp_gained, today);
            &&& after.streaks_consistent()
            &&& after.best_streak >= progress.best_streak
            &&& progress.total_pomodoros_completed <= COUNTER_MAX
                ==> after.total_pomodoros_completed >= progress.total_pomodoros_completed
            &&& progress.total_xp_earned <= COUNTER_MAX ==> after.total_xp_earned
                >= progress.total_xp_earned
            &&& progress.total_time_studied_seconds <= COUNTER_MAX
                ==> after.total_time_studied_seconds >= progress.total_time_studied_seconds
            &&& after.sessions_this_week == progress.sessions_this_week
            &&& after.last_session_date == Some(today)
        }),
{
}

/// Aggregated statistics of the user's study sessions.
#[derive(Debug)]
pub struct GameProgress {
    pub total_pomodoros_completed: u32,
    pub total_xp_earned: u32,
    pub total_time_studied_seconds: u32,
    pub sessions_this_week: u32,
    pub current_streak: u32,
    pub best_streak: u32,
    /// The date of the last session, written year-month-day.
    pub last_session_date: Option<String>,
}

impl View for GameProgress {
    type V = ProgressModel;

    open spec fn view(&self) -> ProgressModel {
        ProgressModel {
            total_pomodoros_completed: self.total_pomodoros_completed as nat,
            total_xp_earned: self.total_xp_earned as nat,
            total_time_studied_seconds: self.total_time_studied_seconds as nat,
            sessions_this_week: self.sessions_this_week as nat,
            current_streak: self.current_streak as nat,
            best_streak: self.best_streak as nat,
            last_session_date: date_text(self.last_session_date),
        }
    }
}

impl Default for GameProgress {
    fn default() -> (progress: Self)
        ensures
            progress@ == ProgressModel::initial(),
            progress@.streaks_consistent(),
    {
        GameProgress {
            total_pomodoros_completed: 0,
            total_xp_earned: 0,
            total_time_studied_seconds: 0,
            sessions_this_week: 0,
            current_streak: 0,
            best_streak: 0,
            last_session_date: None,
        }
    }
}

impl Clone for GameProgress {
    fn clone(&self) -> (copy: Self)
        ensures
            copy@ == self@,
    {
        GameProgress {
            total_pomodoros_completed: self.total_pomodoros_completed,
            total_xp_earned: self.total_xp_earned,
            total_time_studied_seconds: self.total_time_studied_seconds,
            sessions_this_week: self.sessions_this_week,
            current_streak: self.current_streak,
            best_streak: self.best_streak,
            last_session_date: match &self.last_session_date {
                Some(date) => Some(date.clone()),
                None => None,
            },
        }
    }
}

impl GameProgress {
    /// Counts `xp_gained` into the total of experience earned.
    pub fn add_xp(&mut self, xp_gained: u32)
        ensures
            final(self)@ == (ProgressModel {
                total_xp_earned: capped_sum(old(self)@.total_xp_earned, xp_gained as nat),
                ..old(self)@
            }),
            final(self).total_xp_earned >= old(self).total_xp_earned,
    {
        self.total_xp_earned = self.total_xp_earned.saturating_add(xp_gained);
    }

    /// Records one completed session held on `today`, whose day stands in `gap`
    /// to the day of the session before: the totals grow, the streak moves as
    /// `gap` says, and `today` becomes the date of the last session.
    pub fn record_session(
        &mut self,
        duration_seconds: u32,
        xp_gained: u32,
        today: String,
        gap: DayGap,
    )
        ensures
            final(self)@ == old(self)@.record_session(
                duration_seconds as nat,
                xp_gained as nat,
                today@,
                gap,
            ),
            old(self)@.streaks_consistent() && (gap == DayGap::NoPriorSession
                <==> old(self).last_session_date is None)
                ==> final(self)@.streaks_consistent(),
    {
        self.total_pomodoros_completed = self.total_pomodoros_completed.saturating_add(1);
        self.total_xp_earned = self.total_xp_earned.saturating_add(xp_gained);
        self.total_time_studied_seconds = self.total_time_studied_seconds.saturating_add(
            duration_seconds,
        );
        match gap {
            DayGap::NoPriorSession => {
                self.current_streak = 1;
                self.best_streak = 1;
            },
            DayGap::SameDay => {},
            DayGap::NextDay => {
                self.current_streak = self.current_streak.saturating_add(1);
                if self.best_streak < self.current_streak {
                    self.best_streak = self.current_streak;
                }
            },
            DayGap::Other => {
                self.current_streak = 1;
            },
        }
        self.last_session_date = Some(today);
    }

    /// Records one completed session held on `today`. The streak starts at one
    /// with the first session, stands still on a second session of the same day,
    /// grows by one on the day after the last session, and falls back to one
    /// after any other gap.
    pub fn complete_session(&mut self, duration_seconds: u32, xp_gained: u32, today: String)
        ensures
            final(self)@ == old(self)@.complete_session(
                duration_seconds as nat,
                xp_gained as nat,
                today@,
            ),
            old(self)@.streaks_consistent() ==> final(self)@.streaks_consistent(),
            old(self)@.streaks_consistent() ==> final(self).best_streak >= old(self).best_streak,
            final(self).total_pomodoros_completed >= old(self).total_pomodoros_completed,
            final(self).total_xp_earned >= old(self).total_xp_earned,
            final(self).total_time_studied_seconds >= old(self).total_time_studied_seconds,
    {
        let gap = classify_day(&self.last_session_date, &today);
        self.record_session(duration_seconds, xp_gained, today, gap);
    }
}

} // verus!
