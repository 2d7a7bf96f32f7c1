//! The countdown timer: a snapshot that the caller supplies whole.

use vstd::prelude::*;

verus! {

/// The timer as mathematics sees it.
pub struct TimerModel {
    pub minutes: nat,
    pub seconds: nat,
    pub is_running: bool,
    pub is_paused: bool,
    pub initial_total_seconds: nat,
    pub last_selected_minutes: nat,
    pub last_selected_seconds: nat,
}

impl TimerModel {
    /// A stopped timer set to twenty-five minutes.
    pub open spec fn initial() -> TimerModel {
        TimerModel {
            minutes: 25,
            seconds: 0,
            is_running: false,
            is_paused: false,
            initial_total_seconds: 1500,
            last_selected_minutes: 25,
            last_selected_seconds: 0,
        }
    }
}

/// The state of the countdown for one study session.
#[derive(Debug)]
pub struct TimerState {
    pub minutes: u32,
    pub seconds: u32,
    pub is_running: bool,
    pub is_paused: bool,
    pub initial_total_seconds: u32,
    pub last_selected_minutes: u32,
    pub last_selected_seconds: u32,
}

impl View for TimerState {
    type V = TimerModel;

    open spec fn view(&self) -> TimerModel {
        TimerModel {
            minutes: self.minutes as nat,
            seconds: self.seconds as nat,
            is_running: self.is_running,
            is_paused: self.is_paused,
            initial_total_seconds: self.initial_total_seconds as nat,
            last_selected_minutes: self.last_selected_minutes as nat,
            last_selected_seconds: self.last_selected_seconds as nat,
        }
    }
}

impl Default for TimerState {
    fn default() -> (timer: Self)
        ensures
            timer@ == TimerModel::initial(),
    {
        TimerState {
            minutes: 25,
            seconds: 0,
            is_running: false,
            is_paused: false,
            initial_total_seconds: 1500,
            last_selected_minutes: 25,
            last_selected_seconds: 0,
        }
    }
}

impl Clone for TimerState {
    fn clone(&self) -> (copy: Self)
        ensures
            copy@ == self@,
    {
        TimerState {
            minutes: self.minutes,
            seconds: self.seconds,
            is_running: self.is_running,
            is_paused: self.is_paused,
            initial_total_seconds: self.initial_total_seconds,
            last_selected_minutes: self.last_selected_minutes,
            last_selected_seconds: self.last_selected_seconds,
        }
    }
}

} // verus!
