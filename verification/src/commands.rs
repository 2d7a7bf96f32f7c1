//! The operations that the user interface invokes. Each works on the one
//! `GameState` that the caller holds under its lock. A query takes the state by
//! shared reference, so it cannot change it, and answers with a copy. An
//! operation that changes the state says whether the state must be written to
//! the save file afterwards.

use crate::calendar::utc_date;
use crate::creature::{CreatureModel, CreatureState};
use crate::game::{GameModel, GameState};
use crate::persistence::Persistence;
use crate::progress::GameProgress;
use crate::timer::{TimerModel, TimerState};
use vstd::prelude::*;

verus! {

/// Returns a snapshot of the creature.
pub fn get_creature_state(state: &GameState) -> (snapshot: CreatureState)
    ensures
        snapshot@ == state@.creature,
{
    state.creature.clone()
}

/// Overwrites the creature with the given values as they are. The levelling rule
/// is not applied, so the creature may be left with more experience than its
/// threshold, or with a stage that does not belong to its level.
pub fn save_creature_state(
    state: &mut GameState,
    level: u32,
    xp: u32,
    xp_needed: u32,
    stage: String,
) -> (persistence: Persistence)
    ensures
        final(state)@ == (GameModel {
            creature: CreatureModel {
                level: level as nat,
                xp: xp as nat,
                xp_needed: xp_needed as nat,
                stage: stage@,
            },
            ..old(state)@
        }),
        persistence == Persistence::Save,
{
    state.creature.level = level;
    state.creature.xp = xp;
    state.creature.xp_needed = xp_needed;
    state.creature.stage = stage;
    Persistence::Save
}

/// Returns a snapshot of the creature as it stands in memory.
pub fn load_creature_state(state: &GameState) -> (snapshot: CreatureState)
    ensures
        snapshot@ == state@.creature,
{
    state.creature.clone()
}

/// Grants `points` of experience: they count into the experience earned and go
/// to the creature, which levels up as far as they carry it. Returns the
/// creature as it then stands.
pub fn add_experience(state: &mut GameState, points: u32) -> (reply: (CreatureState, Persistence))
    requires
        old(state).creature.xp_needed > 0,
    ensures
        final(state)@ == old(state)@.add_experience(points as nat),
        old(state)@.well_formed() ==> final(state)@.well_formed(),
        reply.0@ == final(state)@.creature,
        reply.1 == Persistence::Save,
{
    state.progress.add_xp(points);
    state.creature.gain_experience(points);
    (state.creature.clone(), Persistence::Save)
}

/// Completes a session of `duration_seconds` that earned `xp_gained`, held on the
/// day `today` (written year-month-day): the statistics record it, the streak
/// moves, and the creature gains the experience. Returns the statistics as they
/// then stand.
pub fn complete_pomodoro_on(
    state: &mut GameState,
    duration_seconds: u32,
    xp_gained: u32,
    today: String,
) -> (reply: (GameProgress, Persistence))
    requires
        old(state).creature.xp_needed > 0,
    ensures
        final(state)@ == old(state)@.complete_pomodoro(
            duration_seconds as nat,
            xp_gained as nat,
            today@,
        ),
        old(state)@.well_formed() ==> final(state)@.well_formed(),
        reply.0@ == final(state)@.progress,
        reply.1 == Persistence::Save,
{
    state.progress.complete_session(duration_seconds, xp_gained, today);
    state.creature.gain_experience(xp_gained);
    (state.progress.clone(), Persistence::Save)
}

/// Completes a session of `duration_seconds` that earned `xp_gained`, held today
/// by the UTC calendar. The state moves as `complete_pomodoro_on` moves it for
/// the date that the clock gave. The clock is read through chrono, which panics
/// if the system clock stands before 1970.
pub fn complete_pomodoro(state: &mut GameState, duration_seconds: u32, xp_gained: u32) -> (reply: (
    GameProgress,
    Persistence,
))
    requires
        old(state).creature.xp_needed > 0,
    ensures
        exists|today: Seq<char>|
            final(state)@ == #[trigger] old(state)@.complete_pomodoro(
                duration_seconds as nat,
                xp_gained as nat,
                today,
            ),
        old(state)@.well_formed() ==> final(state)@.well_formed(),
        reply.0@ == final(state)@.progress,
        reply.1 == Persistence::Save,
{
    let today = utc_date("%Y-%m-%d");
    complete_pomodoro_on(state, duration_seconds, xp_gained, today)
}

/// Returns a snapshot of the statistics.
pub fn get_game_progress(state: &GameState) -> (snapshot: GameProgress)
    ensures
        snapshot@ == state@.progress,
{
    state.progress.clone()
}

/// Returns a snapshot of the timer.
pub fn get_timer_state(state: &GameState) -> (snapshot: TimerState)
    ensures
        snapshot@ == state@.timer,
{
    state.timer.clone()
}

/// Overwrites the timer with the given snapshot. A running timer ticks every
/// second, so the state is to be saved only when the timer is not running.
pub fn update_timer_state(
    state: &mut GameState,
    minutes: u32,
    seconds: u32,
    is_running: bool,
    is_paused: bool,
    initial_total_seconds: u32,
    last_selected_minutes: u32,
    last_selected_seconds: u32,
) -> (persistence: Persistence)
    ensures
        final(state)@ == (GameModel {
            timer: TimerModel {
                minutes: minutes as nat,
                seconds: seconds as nat,
                is_running,
                is_paused,
                initial_total_seconds: initial_total_seconds as nat,
                last_selected_minutes: last_selected_minutes as nat,
                last_selected_seconds: last_selected_seconds as nat,
            },
            ..old(state)@
        }),
        old(state)@.well_formed() ==> final(state)@.well_formed(),
        persistence == if is_running {
            Persistence::Skip
        } else {
            Persistence::Save
        },
{
    state.timer.minutes = minutes;
    state.timer.seconds = seconds;
    state.timer.is_running = is_running;
    state.timer.is_paused = is_paused;
    state.timer.initial_total_seconds = initial_total_seconds;
    state.timer.last_selected_minutes = last_selected_minutes;
    state.timer.last_selected_seconds = last_selected_seconds;
    if is_running {
        Persistence::Skip
    } else {
        Persistence::Save
    }
}

/// Returns a snapshot of the whole state.
pub fn get_full_game_state(state: &GameState) -> (snapshot: GameState)
    ensures
        snapshot@ == state@,
{
    state.clone()
}

/// Puts every field back to its first value.
pub fn reset_game_data(state: &mut GameState) -> (persistence: Persistence)
    ensures
        final(state)@ == GameModel::initial(),
        final(state)@.well_formed(),
        persistence == Persistence::Save,
{
    *state = GameState::default();
    Persistence::Save
}

/// Replaces the whole state with `game_state` as it is.
pub fn save_full_game_state(state: &mut GameState, game_state: GameState) -> (persistence:
    Persistence)
    ensures
        *final(state) == game_state,
        persistence == Persistence::Save,
{
    *state = game_state;
    Persistence::Save
}

} // verus!
