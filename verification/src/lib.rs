//! State engine of a study companion: a creature that grows with experience, a
//! countdown timer, and the statistics of completed study sessions.

pub mod calendar;
pub mod commands;
pub mod counter;
pub mod creature;
pub mod game;
pub mod persistence;
pub mod progress;
pub mod timer;

pub use calendar::{is_consecutive_day, DayGap};
pub use commands::{
    add_experience, complete_pomodoro, complete_pomodoro_on, get_creature_state,
    get_full_game_state, get_game_progress, get_timer_state, load_creature_state,
    reset_game_data, save_creature_state, save_full_game_state, update_timer_state,
};
pub use creature::{CreatureModel, CreatureState};
pub use game::{GameModel, GameState};
pub use persistence::{LoadOutcome, Persistence, SAVE_FILE_NAME};
pub use progress::{GameProgress, ProgressModel};
pub use timer::{TimerModel, TimerState};
