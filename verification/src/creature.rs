//! The creature: its level, its experience, and the rule by which experience
//! turns into levels and stages.

use crate::counter::{capped_sum, COUNTER_MAX};
use vstd::prelude::*;

verus! {

/// The creature as mathematics sees it.
pub struct CreatureModel {
    pub level: nat,
    pub xp: nat,
    pub xp_needed: nat,
    pub stage: Seq<char>,
}

/// The stage label that belongs to a level: "egg" at 1, "baby" at 2, "teen" at 3,
/// "adult" at every other level.
pub open spec fn stage_name(level: nat) -> Seq<char> {
    if level == 1 {
        "egg"@
    } else if level == 2 {
        "baby"@
    } else if level == 3 {
        "teen"@
    } else {
        "adult"@
    }
}

/// The threshold that follows `threshold`: one and a half times it, rounded down,
/// and never more than `COUNTER_MAX`.
pub open spec fn grown_threshold(threshold: nat) -> nat {
    capped_sum(threshold, threshold / 2)
}

impl CreatureModel {
    /// The creature at birth.
    pub open spec fn initial() -> CreatureModel {
        CreatureModel { level: 1, xp: 0, xp_needed: 100, stage: "egg"@ }
    }

    /// What the data model asks of a creature at rest.
    pub open spec fn normalized(self) -> bool {
        &&& self.level >= 1
        &&& self.xp_needed > 0
        &&& self.xp < self.xp_needed
        &&& self.stage == stage_name(self.level)
    }

    /// This creature with `xp` in place of its experience.
    pub open spec fn with_xp(self, xp: nat) -> CreatureModel {
        CreatureModel { xp, ..self }
    }

    /// One level-up: the threshold is paid out of the experience and grows. The
    /// level stops at `COUNTER_MAX`.
    pub open spec fn level_up(self) -> CreatureModel {
        CreatureModel {
            level: if self.level < COUNTER_MAX { self.level + 1 } else { self.level },
            xp: (self.xp - self.xp_needed) as nat,
            xp_needed: grown_threshold(self.xp_needed),
            stage: self.stage,
        }
    }

    /// Level-ups repeated for as long as the experience reaches the threshold.
    pub open spec fn settle(self) -> CreatureModel
        decreases self.xp,
    {
        if self.xp_needed > 0 && self.xp >= self.xp_needed {
            self.level_up().settle()
        } else {
            self
        }
    }

    /// The creature after `points` of experience: the points are added, the
    /// level-ups follow, and the stage is read off the level reached.
    pub open spec fn gain_experience(self, points: nat) -> CreatureModel {
        let settled = self.with_xp(self.xp + points).settle();
        CreatureModel { stage: stage_name(settled.level), ..settled }
    }
}

/// Settling pays level-ups until the experience is below the threshold. It never
/// lowers the level, nor a threshold that a counter can hold, and it leaves the
/// stage alone.
pub proof fn settle_reaches_rest(creature: CreatureModel)
    requires
        creature.xp_needed > 0,
    ensures
        creature.settle().xp < creature.settle().xp_needed,
        creature.settle().level >= creature.level,
        creature.xp_needed <= COUNTER_MAX ==> creature.settle().xp_needed >= creature.xp_needed,
        creature.settle().xp <= creature.xp,
        creature.settle().stage == creature.stage,
    decreases creature.xp,
{
    if creature.xp >= creature.xp_needed {
        settle_reaches_rest(creature.level_up());
    }
}

/// After any gain of experience the creature holds less experience than its
/// threshold, its level is no lower than before, and its stage is the one that
/// belongs to its level. A creature that had a level of at least one is then as
/// the data model asks.
pub proof fn gain_experience_normalizes(creature: CreatureModel, points: nat)
    requires
        creature.xp_needed > 0,
    ensures
        creature.gain_experience(points).xp < creature.gain_experience(points).xp_needed,
        creature.gain_experience(points).level >= creature.level,
        creature.gain_experience(points).stage == stage_name(
            creature.gain_experience(points).level,
        ),
        creature.level >= 1 ==> creature.gain_experience(points).normalized(),
{
    settle_reaches_rest(creature.with_xp(creature.xp + points));
}

/// A creature at rest that gains nothing stays as it is.
pub proof fn gain_of_nothing_changes_nothing(creature: CreatureModel)
    requires
        creature.normalized(),
    ensures
        creature.gain_experience(0) == creature,
{
}

/// Settling does not look at the stage: it can be set before or after.
proof fn settle_ignores_stage(creature: CreatureModel, stage: Seq<char>)
    ensures
        (CreatureModel { stage, ..creature }).settle() == (CreatureModel {
            stage,
            ..creature.settle()
        }),
    decreases creature.xp,
{
    if creature.xp_needed > 0 && creature.xp >= creature.xp_needed {
        settle_ignores_stage(creature.level_up(), stage);
    }
}

/// Experience that arrives after settling may as well have arrived before.
proof fn settle_absorbs_later_points(creature: CreatureModel, later: nat)
    requires
        creature.xp_needed > 0,
    ensures
        creature.settle().with_xp(creature.settle().xp + later).settle() == creature.with_xp(
            creature.xp + later,
        ).settle(),
    decreases creature.xp,
{
    if creature.xp >= creature.xp_needed {
        settle_absorbs_later_points(creature.level_up(), later);
    }
}

/// Gains add up: experience granted in two parts leaves the creature where the
/// whole granted at once leaves it.
pub proof fn gain_experience_is_additive(creature: CreatureModel, first: nat, second: nat)
    requires
        creature.xp_needed > 0,
    ensures
        creature.gain_experience(first).gain_experience(second) == creature.gain_experience(
            first + second,
        ),
{
    let start = creature.with_xp(creature.xp + first);
    let rested = start.settle();
    settle_reaches_rest(start);
    settle_absorbs_later_points(start, second);
    settle_ignores_stage(rested.with_xp(rested.xp + second), stage_name(rested.level));
}

/// The evolving creature that the user nurtures.
#[derive(Debug)]
pub struct CreatureState {
    pub level: u32,
    pub xp: u32,
    pub xp_needed: u32,
    pub stage: String,
}

impl View for CreatureState {
    type V = CreatureModel;

    open spec fn view(&self) -> CreatureModel {
        CreatureModel {
            level: self.level as nat,
            xp: self.xp as nat,
            xp_needed: self.xp_needed as nat,
            stage: self.stage@,
        }
    }
}

impl Default for CreatureState {
    fn default() -> (creature: Self)
        ensures
            creature@ == CreatureModel::initial(),
            creature@.normalized(),
    {
        CreatureState { level: 1, xp: 0, xp_needed: 100, stage: "egg".to_owned() }
    }
}

impl Clone for CreatureState {
    fn clone(&self) -> (copy: Self)
        ensures
            copy@ == self@,
    {
        CreatureState {
            level: self.level,
            xp: self.xp,
            xp_needed: self.xp_needed,
            stage: self.stage.clone(),
        }
    }
}

/// Returns the stage label of `level`.
pub fn stage_for_level(level: u32) -> (stage: String)
    ensures
        stage@ == stage_name(level as nat),
{
    if level == 1 {
        "egg".to_owned()
    } else if level == 2 {
        "baby".to_owned()
    } else if level == 3 {
        "teen".to_owned()
    } else {
        "adult".to_owned()
    }
}

/// Returns the threshold that follows `threshold`.
pub fn next_threshold(threshold: u32) -> (next: u32)
    ensures
        next as nat == grown_threshold(threshold as nat),
{
    threshold.saturating_add(threshold / 2)
}

impl CreatureState {
    /// Applies `points` of experience, performs the level-ups they pay for and
    /// brings the stage in line with the level reached.
    ///
    /// The threshold must be positive, or no amount of level-ups would pay the
    /// experience off. The sum of old experience and `points` is taken exactly,
    /// however large; the level and the threshold stop at `COUNTER_MAX`.
    pub fn gain_experience(&mut self, points: u32)
        requires
            old(self).xp_needed > 0,
        ensures
            final(self)@ == old(self)@.gain_experience(points as nat),
            final(self).xp < final(self).xp_needed,
            final(self).level >= old(self).level,
            final(self).stage@ == stage_name(final(self).level as nat),
            old(self).level >= 1 ==> final(self)@.normalized(),
    {
        let ghost start = self@.with_xp(self.xp as nat + points as nat);
        let mut xp: u64 = self.xp as u64 + points as u64;
        while xp >= self.xp_needed as u64
            invariant
                self.xp_needed > 0,
                self.level >= old(self).level,
                self.stage == old(self).stage,
                self@.with_xp(xp as nat).settle() == start.settle(),
            decreases xp,
        {
            if self.level < COUNTER_MAX {
                self.level = self.level + 1;
            }
            xp = xp - self.xp_needed as u64;
            self.xp_needed = next_threshold(self.xp_needed);
        }
        self.xp = xp as u32;
        self.stage = stage_for_level(self.level);
    }
}

} // verus!
