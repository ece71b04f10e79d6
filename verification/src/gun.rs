//! Firing state: trigger, cooldown, and the shot a gun produces.
//!
//! The geometry of a shot (angles, speeds, sprites) belongs to the
//! caller; this module decides whether a gun fires, what it costs the
//! player's quantities, and how strong the bullets are.

use vstd::prelude::*;
use crate::fixed::{
    SCALE, STACK_LIMIT, spec_scale_mul, scale_mul,
    lemma_scale_mul_bounds, lemma_unit_product_fits,
};
use vstd::arithmetic::div_mod::lemma_div_is_ordered;
use crate::quantity::Quantity;
use crate::combat::Team;

verus! {

/// The fire button can be pressed this many fixed-point seconds in
/// advance of the gun being ready.
pub const EARLY_TRIGGER_WINDOW: i64 = 500;

/// The player's reload time.
pub const PLAYER_BASE_COOLDOWN: i64 = 2_500;

/// An enemy's reload time.
pub const ENEMY_BASE_COOLDOWN: i64 = 40_000;

/// Flight time of the player's bullets.
pub const PLAYER_BULLET_LIFETIME: i64 = 20_000;

/// Flight time of enemy bullets: they can cross the whole screen.
pub const ENEMY_BULLET_LIFETIME: i64 = 100_000;

/// Temporary fever added per shot, scaled by coherence: shooting with
/// high coherence heats the player up.
pub const FEVER_PER_SHOT: i64 = 1_000;

/// Temporary coherence lost per shot, regained only by hitting.
pub const COHERENCE_COST_PER_SHOT: i64 = 1_000;

/// Bullets on each side of the central one in a coherent spread.
pub const COHERENT_SPREAD_COUNT: u32 = 3;

/// Spread behavior of a gun.
#[derive(Clone, Copy, Debug, PartialEq, Eq, Structural)]
pub enum Pattern {
    /// Fire a single, slow bullet.
    Single,
    /// Shotgun-to-laser depending on coherence.
    Coherent,
}

/// This entity has a gun!  It might be the player ship or an enemy ship.
#[derive(Clone, Copy, Debug)]
pub struct Gun {
    /// Gun will shoot next time the firing pass runs, if possible.
    pub trigger: bool,
    pub pattern: Pattern,
    /// If positive, gun may not shoot yet.
    pub cooldown: i64,
    /// Value `cooldown` is reset to after firing.
    pub base_cooldown: i64,
}

/// Everything the caller needs to spawn the bullets of one shot.
#[derive(Clone, Copy, Debug, PartialEq, Eq, Structural)]
pub struct ShotSpec {
    /// Damage each bullet of the shot deals.
    pub damage: u8,
    /// How many bullets the spread holds.
    pub bullet_count: u32,
    /// Lifetime each bullet starts with.
    pub lifetime: i64,
    /// Coherence at the moment of firing, for the caller's spread and
    /// speed cosmetics.
    pub coherence_at_fire: i64,
}

/// Bonus damage of a coherent shot: one point per full 1/2.9 of
/// coherence, so maximal coherence adds two.
pub open spec fn spec_coherent_bonus(eff: int) -> int {
    (29 * eff) / 100_000
}

impl Gun {
    pub open spec fn wf(self) -> bool {
        &&& 0 <= self.cooldown
        &&& 0 <= self.base_cooldown
    }

    /// The player ship's gun at game start.
    pub fn new_player_gun() -> (g: Gun)
        ensures
            g == (Gun {
                trigger: false,
                pattern: Pattern::Coherent,
                cooldown: 0,
                base_cooldown: PLAYER_BASE_COOLDOWN as i64,
            }),
            g.wf(),
    {
        Gun {
            trigger: false,
            pattern: Pattern::Coherent,
            cooldown: 0,
            base_cooldown: PLAYER_BASE_COOLDOWN,
        }
    }

    /// An enemy ship's gun; its first shot is delayed by a cooldown the
    /// caller chooses (randomly, in the game).
    pub fn new_enemy_gun(initial_cooldown: i64) -> (g: Gun)
        requires
            0 <= initial_cooldown,
        ensures
            g == (Gun {
                trigger: false,
                pattern: Pattern::Single,
                cooldown: initial_cooldown,
                base_cooldown: ENEMY_BASE_COOLDOWN as i64,
            }),
            g.wf(),
    {
        Gun {
            trigger: false,
            pattern: Pattern::Single,
            cooldown: initial_cooldown,
            base_cooldown: ENEMY_BASE_COOLDOWN,
        }
    }

    /// The player pressed fire: arm the trigger, but only when the gun
    /// is ready or close enough to ready.
    pub fn press_trigger(&mut self)
        ensures
            final(self).trigger == (
                old(self).cooldown <= EARLY_TRIGGER_WINDOW || old(self).trigger
            ),
            final(self).pattern == old(self).pattern,
            final(self).cooldown == old(self).cooldown,
            final(self).base_cooldown == old(self).base_cooldown,
    {
        if self.cooldown <= EARLY_TRIGGER_WINDOW {
            self.trigger = true;
        } else {
            // ignore fire button when gun is not close enough to ready
        }
    }

    /// Count the reload time down.
    pub fn tick_cooldown(&mut self, dt: i64)
        requires
            old(self).wf(),
            dt >= 0,
        ensures
            final(self).cooldown == (
                if old(self).cooldown > dt { old(self).cooldown - dt } else { 0 }
            ),
            final(self).trigger == old(self).trigger,
            final(self).pattern == old(self).pattern,
            final(self).base_cooldown == old(self).base_cooldown,
            final(self).wf(),
    {
        self.cooldown = if self.cooldown > dt { self.cooldown - dt } else { 0 };
    }

    /// Fire if triggered and ready.  Firing consumes the trigger,
    /// starts the reload, and — for the player — commits the previous
    /// fever spike while adding a fresh one scaled by coherence, and
    /// stacks a coherence cost that only a hit can cancel.
    ///
    /// Returns what to spawn, or `None` when the gun does not fire.
    pub fn fire(
        &mut self,
        team: Team,
        is_player: bool,
        coherence: &mut Quantity,
        fever: &mut Quantity,
    ) -> (shot: Option<ShotSpec>)
        requires
            old(self).wf(),
            old(coherence).wf(),
            old(fever).wf(),
            is_player ==> old(coherence).stack() - COHERENCE_COST_PER_SHOT >= -STACK_LIMIT,
        ensures
            shot is Some <==> (old(self).trigger && old(self).cooldown == 0),
            ({
                if old(self).trigger && old(self).cooldown == 0 {
                    let coh = match old(self).pattern {
                        Pattern::Single => 0int,
                        Pattern::Coherent => old(coherence).eff(),
                    };
                    &&& *final(self) == (Gun {
                            trigger: false,
                            cooldown: old(self).base_cooldown,
                            ..*old(self)
                        })
                    &&& shot == Some(ShotSpec {
                            damage: (match old(self).pattern {
                                Pattern::Single => 1int,
                                Pattern::Coherent => 1 + spec_coherent_bonus(coh),
                            }) as u8,
                            bullet_count: (match old(self).pattern {
                                Pattern::Single => 1int,
                                Pattern::Coherent => 1 + 2 * COHERENT_SPREAD_COUNT,
                            }) as u32,
                            lifetime: (match team {
                                Team::Player => PLAYER_BULLET_LIFETIME as int,
                                Team::Enemy => ENEMY_BULLET_LIFETIME as int,
                            }) as i64,
                            coherence_at_fire: coh as i64,
                        })
                    &&& (if is_player {
                            &&& *final(fever) == Quantity::with_parts(
                                    old(fever).eff(),
                                    spec_scale_mul(coh, FEVER_PER_SHOT as int),
                                )
                            &&& *final(coherence) == Quantity::with_parts(
                                    old(coherence).base(),
                                    old(coherence).stack() - COHERENCE_COST_PER_SHOT,
                                )
                        } else {
                            &&& *final(fever) == *old(fever)
                            &&& *final(coherence) == *old(coherence)
                        })
                } else {
                    &&& *final(self) == *old(self)
                    &&& *final(fever) == *old(fever)
                    &&& *final(coherence) == *old(coherence)
                }
            }),
            final(self).wf(),
            final(coherence).wf(),
            final(fever).wf(),
    {
        if !self.trigger || self.cooldown != 0 {
            // Gun is not commanded to fire or is not ready to fire.
            return None;
        }
        self.trigger = false;

        let coh: i64 = match self.pattern {
            Pattern::Single => 0,
            Pattern::Coherent => coherence.effective_value(),
        };

        let damage: u8 = match self.pattern {
            Pattern::Single => 1,
            Pattern::Coherent => {
                // If coherence is high, add bonus damage.
                proof {
                    lemma_div_is_ordered(29 * coh, 29 * SCALE, 100_000int);
                }
                let bonus: u64 = (29 * (coh as u64)) / 100_000;
                1 + (bonus as u8)
            }
        };
        let bullet_count: u32 = match self.pattern {
            Pattern::Single => 1,
            Pattern::Coherent => 1 + 2 * COHERENT_SPREAD_COUNT,
        };
        let lifetime: i64 = match team {
            Team::Player => PLAYER_BULLET_LIFETIME,
            Team::Enemy => ENEMY_BULLET_LIFETIME,
        };

        // Side effects of firing besides a bullet.
        self.cooldown = self.base_cooldown;
        if is_player {
            // Shooting with high coherence adds temporary fever, which
            // must be mitigated by not shooting too frequently.
            proof {
                lemma_unit_product_fits(coh as int, FEVER_PER_SHOT as int);
                lemma_scale_mul_bounds(coh as int, FEVER_PER_SHOT as int);
            }
            let fever_spike = scale_mul(coh, FEVER_PER_SHOT);
            fever.adjust_temporary_and_commit_previous_temporary(fever_spike);

            // Shooting decreases coherence, which must be mitigated by
            // not missing.
            coherence.adjust_temporary_stacking_with_previous(-COHERENCE_COST_PER_SHOT);
        }

        Some(ShotSpec { damage, bullet_count, lifetime, coherence_at_fire: coh })
    }
}

} // verus!
