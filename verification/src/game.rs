//! The aggregate: creature, timer and statistics under one version tag.

use crate::creature::{CreatureModel, CreatureState};
use crate::counter::capped_sum;
use crate::progress::{GameProgress, ProgressModel};
use crate::timer::{TimerModel, TimerState};
use vstd::prelude::*;

verus! {

/// The aggregate as mathematics sees it.
pub struct GameModel {
    pub creature: CreatureModel,
    pub timer: TimerModel,
    pub progress: ProgressModel,
    pub version: Seq<char>,
}

impl GameModel {
    /// A fresh game: everything at its first value, tagged "1.0.0".
    pub open spec fn initial() -> GameModel {
        GameModel {
            creature: CreatureModel::initial(),
            timer: TimerModel::initial(),
            progress: ProgressModel::initial(),
            version: "1.0.0"@,
        }
    }

    /// What the data model asks of a game: a creature at rest and consistent
    /// streaks. The timer and the version tag are under no rule.
    pub open spec fn well_formed(self) -> bool {
        &&& self.creature.normalized()
        &&& self.progress.streaks_consistent()
    }

    /// The game after `points` of experience were granted outside a session:
    /// they count into the experience earned and go to the creature.
    pub open spec fn add_experience(self, points: nat) -> GameModel {
        GameModel {
            creature: self.creature.gain_experience(points),
            progress: ProgressModel {
                total_xp_earned: capped_sum(self.progress.total_xp_earned, points),
                ..self.progress
            },
            ..self
        }
    }

    /// The game after a session of `duration_seconds` that earned `xp_gained` was
    /// completed on the day `today`.
    pub open spec fn complete_pomodoro(
        self,
        duration_seconds: nat,
        xp_gained: nat,
        today: Seq<char>,
    ) -> GameModel {
        GameModel {
            creature: self.creature.gain_experience(xp_gained),
            progress: self.progress.complete_session(duration_seconds, xp_gained, today),
            ..self
        }
    }
}

/// All state that is kept between runs.
#[derive(Debug)]
pub struct GameState {
    pub creature: CreatureState,
    pub timer: TimerState,
    pub progress: GameProgress,
    pub version: String,
}

impl View for GameState {
    type V = GameModel;

    open spec fn view(&self) -> GameModel {
        GameModel {
            creature: self.creature@,
            timer: self.timer@,
            progress: self.progress@,
            version: self.version@,
        }
    }
}

impl Default for GameState {
    fn default() -> (game: Self)
        ensures
            game@ == GameModel::initial(),
            game@.well_formed(),
    {
        GameState {
            creature: CreatureState::default(),
            timer: TimerState::default(),
            progress: GameProgress::default(),
            version: "1.0.0".to_owned(),
        }
    }
}

impl Clone for GameState {
    fn clone(&self) -> (copy: Self)
        ensures
            copy@ == self@,
    {
        GameState {
            creature: self.creature.clone(),
            timer: self.timer.clone(),
            progress: self.progress.clone(),
            version: self.version.clone(),
        }
    }
}

} // verus!
