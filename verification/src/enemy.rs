//! Enemy spawning cadence and the ship behavior state machine.
//!
//! Spawn positions, steering vectors and the spawn-pattern artwork are
//! the caller's concern; this module decides *when* a wave spawns and
//! *what* an enemy ship does next — in particular, when its gun is
//! triggered.

use vstd::prelude::*;
use crate::fixed::{
    SCALE, spec_scale_mul, scale_mul, lemma_scale_mul_bounds, lemma_unit_product_fits,
};

verus! {

/// Health every enemy ship spawns with.
pub const ENEMY_HEALTH: u8 = 10;

/// Seconds between enemy waves, before the fervor speed-up.
pub const SPAWN_PERIOD: i64 = 50_000;

/// How long a ship stays on station before diving.
pub const STATION_TIME: i64 = 20_000;

/// A singleton that spawns enemy waves on a cadence.
#[derive(Clone, Copy, Debug)]
pub struct EnemySpawner {
    pub cooldown: i64,
}

impl EnemySpawner {
    pub open spec fn wf(self) -> bool {
        0 <= self.cooldown
    }

    pub fn new() -> (s: EnemySpawner)
        ensures
            s.cooldown == 0,
            s.wf(),
    {
        EnemySpawner { cooldown: 0 }
    }

    /// Advance the spawn cadence.  The cooldown runs down faster when
    /// fervor is high — waves come more often — and when it runs out a
    /// wave spawns and the cadence restarts.
    pub fn tick(&mut self, dt: i64, fervor_effective: i64) -> (spawn: bool)
        requires
            old(self).wf(),
            0 <= dt <= SCALE,
            0 <= fervor_effective <= SCALE,
        ensures
            spawn == (old(self).cooldown == 0),
            final(self).cooldown == (
                if old(self).cooldown > 0 {
                    let delta = spec_scale_mul(SCALE + fervor_effective, dt as int);
                    if old(self).cooldown > delta { old(self).cooldown - delta } else { 0int }
                } else {
                    SPAWN_PERIOD as int
                }
            ),
            final(self).wf(),
    {
        if self.cooldown > 0 {
            // Cool down faster, i.e. spawn more often, when fervor is high.
            proof {
                lemma_unit_product_fits(SCALE + fervor_effective, dt as int);
                lemma_scale_mul_bounds(SCALE + fervor_effective, dt as int);
            }
            let delta = scale_mul(SCALE + fervor_effective, dt);
            self.cooldown = if self.cooldown > delta { self.cooldown - delta } else { 0 };
            false
        } else {
            self.cooldown = SPAWN_PERIOD;
            true
        }
    }
}

/// What an enemy ship does next.
#[derive(Clone, Copy, Debug, PartialEq, Eq, Structural)]
pub enum AiState {
    /// Hold position for this long after spawning.
    InitialWait(i64),
    /// Fly towards the assigned station.
    GoToStation,
    /// Sit on station, firing, until the station time runs out.
    WaitAtStation,
    /// Dive down the playfield, firing.
    Dive,
}

/// The steering the caller should perform this tick.
#[derive(Clone, Copy, Debug, PartialEq, Eq, Structural)]
pub enum AiMotion {
    /// Leave the velocity as it is.
    Coast,
    /// Accelerate towards the station.
    SteerToStation,
    /// Stop on station.
    Hold,
    /// Set the dive velocity.
    StartDive,
}

/// Behavior state of one enemy ship.
#[derive(Clone, Copy, Debug)]
pub struct EnemyAi {
    pub state: AiState,
    /// Remaining time the ship stays on station before moving.
    pub time_on_station: i64,
}

/// What one behavior step asks of the caller.
#[derive(Clone, Copy, Debug, PartialEq, Eq, Structural)]
pub struct AiOutput {
    /// Arm the ship's gun trigger.
    pub fire: bool,
    pub motion: AiMotion,
}

impl EnemyAi {
    pub open spec fn wf(self) -> bool {
        &&& 0 <= self.time_on_station
        &&& match self.state {
                AiState::InitialWait(w) => 0 <= w,
                _ => true,
            }
    }

    /// A freshly spawned ship: wait a moment, then head for station.
    pub fn new(initial_wait: i64) -> (ai: EnemyAi)
        requires
            0 <= initial_wait,
        ensures
            ai.state == AiState::InitialWait(initial_wait),
            ai.time_on_station == STATION_TIME,
            ai.wf(),
    {
        EnemyAi { state: AiState::InitialWait(initial_wait), time_on_station: STATION_TIME }
    }

    /// One behavior step.  `arrived` is the caller's report of whether
    /// the ship has reached its station (a geometric test this module
    /// does not make itself).
    pub fn step(&mut self, dt: i64, arrived: bool) -> (out: AiOutput)
        requires
            old(self).wf(),
            dt >= 0,
        ensures
            ({
                match old(self).state {
                    AiState::InitialWait(wait) => {
                        let new_wait = if wait > dt { wait - dt } else { 0int };
                        &&& final(self).state == (
                                if new_wait == 0 { AiState::GoToStation }
                                else { AiState::InitialWait(new_wait as i64) }
                            )
                        &&& final(self).time_on_station == old(self).time_on_station
                        &&& out == (AiOutput { fire: false, motion: AiMotion::Coast })
                    }
                    AiState::GoToStation => {
                        &&& final(self).state == (
                                if arrived { AiState::WaitAtStation }
                                else { AiState::GoToStation }
                            )
                        &&& final(self).time_on_station == old(self).time_on_station
                        &&& out == (AiOutput {
                                fire: false,
                                motion: if arrived { AiMotion::Coast }
                                        else { AiMotion::SteerToStation },
                            })
                    }
                    AiState::WaitAtStation => {
                        let new_time = if old(self).time_on_station > dt {
                            old(self).time_on_station - dt
                        } else {
                            0int
                        };
                        &&& final(self).time_on_station == new_time
                        &&& final(self).state == (
                                if new_time == 0 { AiState::Dive }
                                else { AiState::WaitAtStation }
                            )
                        &&& out == (AiOutput {
                                fire: true,
                                motion: if new_time == 0 { AiMotion::StartDive }
                                        else { AiMotion::Hold },
                            })
                    }
                    AiState::Dive => {
                        &&& *final(self) == *old(self)
                        &&& out == (AiOutput { fire: true, motion: AiMotion::Coast })
                    }
                }
            }),
            final(self).wf(),
    {
        match self.state {
            AiState::InitialWait(wait) => {
                let new_wait = if wait > dt { wait - dt } else { 0 };
                if new_wait == 0 {
                    self.state = AiState::GoToStation;
                } else {
                    self.state = AiState::InitialWait(new_wait);
                }
                AiOutput { fire: false, motion: AiMotion::Coast }
            }
            AiState::GoToStation => {
                if arrived {
                    self.state = AiState::WaitAtStation;
                    AiOutput { fire: false, motion: AiMotion::Coast }
                } else {
                    // fly towards station
                    AiOutput { fire: false, motion: AiMotion::SteerToStation }
                }
            }
            AiState::WaitAtStation => {
                let new_time = if self.time_on_station > dt {
                    self.time_on_station - dt
                } else {
                    0
                };
                self.time_on_station = new_time;
                if new_time == 0 {
                    self.state = AiState::Dive;
                    AiOutput { fire: true, motion: AiMotion::StartDive }
                } else {
                    AiOutput { fire: true, motion: AiMotion::Hold }
                }
            }
            AiState::Dive => {
                AiOutput { fire: true, motion: AiMotion::Coast }
            }
        }
    }
}

} // verus!
