//! Pickups: entities that have an effect on the player's quantities when
//! the player collides with them, then vanish.
//!
//! The same mechanism carries enemy contact damage.  Which entities
//! currently touch the player comes from the collision oracle as a list
//! of indices; everything else here is decided and proved.

use vstd::prelude::*;
use crate::fixed::{SCALE, spec_clamp_unit};
use crate::quantity::Quantity;

verus! {

/// Strength of the cool and cohere pickups.
pub const PICKUP_STRENGTH: i64 = 1_000;

/// How long a dropped pickup survives on its own, in fixed-point seconds.
pub const DROP_LIFETIME: i64 = 200_000;

/// On colliding with the player, has an effect and despawns the entity.
/// This is used for both pickups and colliding with enemies.
#[derive(Clone, Copy, Debug)]
pub enum Pickup {
    /// Does nothing and immediately vanishes; a placeholder when a
    /// pickup is required but not wanted for gameplay.
    Null,
    /// Increase fever by this amount, and depict it as a damaging hit.
    Damage(i64),
    /// Decrease fever by this amount.
    Cool(i64),
    /// Increase coherence by this amount.
    Cohere(i64),
}

/// Category of [`Pickup`] to spawn; determines the exact value.
#[derive(Clone, Copy, Debug)]
pub enum PickupSpawnType {
    /// Invisible and immediately vanishes.
    Null,
    Cool,
    Cohere,
}

impl Pickup {
    /// Every effect amount stays within the unit interval, which keeps
    /// all quantity arithmetic in bounds.
    pub open spec fn wf(self) -> bool {
        match self {
            Pickup::Null => true,
            Pickup::Damage(a) => 0 <= a <= SCALE,
            Pickup::Cool(a) => 0 <= a <= SCALE,
            Pickup::Cohere(a) => 0 <= a <= SCALE,
        }
    }

    /// How long this pickup lives after dropping from its carrier: a
    /// placeholder goes away immediately, everything else persists for a
    /// while.
    pub fn drop_lifetime(&self) -> (r: i64)
        ensures
            r == (match *self {
                Pickup::Null => 0,
                _ => DROP_LIFETIME as int,
            }),
    {
        match self {
            Pickup::Null => 0,
            _ => DROP_LIFETIME,
        }
    }
}

impl PickupSpawnType {
    /// The gameplay effect a pickup of this category carries.
    pub fn effect(&self) -> (p: Pickup)
        ensures
            p == (match *self {
                PickupSpawnType::Null => Pickup::Null,
                PickupSpawnType::Cool => Pickup::Cool(PICKUP_STRENGTH),
                PickupSpawnType::Cohere => Pickup::Cohere(PICKUP_STRENGTH),
            }),
            p.wf(),
    {
        match self {
            PickupSpawnType::Null => Pickup::Null,
            PickupSpawnType::Cool => Pickup::Cool(PICKUP_STRENGTH),
            PickupSpawnType::Cohere => Pickup::Cohere(PICKUP_STRENGTH),
        }
    }
}

/// A side effect the caller must carry out after pickup resolution.
#[derive(Clone, Copy, Debug, PartialEq, Eq, Structural)]
pub enum PickupCommand {
    /// The player took contact damage; notify the hurt observers.
    HurtPlayer,
    /// Remove the collected entity.
    Despawn(usize),
    /// Play the pickup sound at the collected entity's position.
    PlaySound(usize),
}

/// Whether an entity's pickup, if it has one, is well-formed.
pub open spec fn spec_opt_pickup_wf(p: Option<Pickup>) -> bool {
    match p {
        None => true,
        Some(q) => q.wf(),
    }
}

/// Everything pickup resolution accumulates: the commands emitted so far
/// and the two quantities it may adjust.
#[verifier::ext_equal]
pub struct PickupState {
    pub commands: Seq<PickupCommand>,
    pub fever: Quantity,
    pub coherence: Quantity,
}

/// Collecting the pickup at index `e`: apply its effect to the
/// quantities, despawn it, and cue sound or hurt feedback.  An index
/// without a pickup (a collision with something else) does nothing.
pub open spec fn spec_collect_one(
    s: PickupState,
    pickups: Seq<Option<Pickup>>,
    e: usize,
) -> PickupState {
    if e >= pickups.len() {
        s
    } else {
        match pickups[e as int] {
            None => s,
            Some(Pickup::Null) => PickupState {
                commands: s.commands.push(PickupCommand::Despawn(e)),
                ..s
            },
            Some(Pickup::Damage(a)) => PickupState {
                commands: s.commands
                    .push(PickupCommand::HurtPlayer)
                    .push(PickupCommand::Despawn(e)),
                fever: Quantity::with_parts(spec_clamp_unit(s.fever.eff() + a), 0),
                ..s
            },
            Some(Pickup::Cool(a)) => PickupState {
                commands: s.commands
                    .push(PickupCommand::Despawn(e))
                    .push(PickupCommand::PlaySound(e)),
                fever: Quantity::with_parts(spec_clamp_unit(s.fever.base() - a), 0),
                ..s
            },
            Some(Pickup::Cohere(a)) => PickupState {
                commands: s.commands
                    .push(PickupCommand::Despawn(e))
                    .push(PickupCommand::PlaySound(e)),
                coherence: Quantity::with_parts(spec_clamp_unit(s.coherence.base() + a), 0),
                ..s
            },
        }
    }
}

/// Fold of [`spec_collect_one`] over the contact list from index `k` on.
pub open spec fn spec_collect_from(
    s: PickupState,
    pickups: Seq<Option<Pickup>>,
    contacts: Seq<usize>,
    k: int,
) -> PickupState
    decreases contacts.len() - k,
{
    if k < 0 || k >= contacts.len() {
        s
    } else {
        spec_collect_from(
            spec_collect_one(s, pickups, contacts[k]),
            pickups,
            contacts,
            k + 1,
        )
    }
}

/// Resolve everything currently touching the player: each contact that
/// is a pickup applies its effect, is despawned, and cues feedback.
///
/// `contacts` is this tick's collision-oracle snapshot of entities
/// overlapping the player; `pickups[e]` is the pickup carried by entity
/// `e`, or `None` where entity `e` is not a pickup.
pub fn resolve_player_contacts(
    contacts: &Vec<usize>,
    pickups: &Vec<Option<Pickup>>,
    fever: &mut Quantity,
    coherence: &mut Quantity,
) -> (commands: Vec<PickupCommand>)
    requires
        old(fever).wf(),
        old(coherence).wf(),
        forall|i: int| 0 <= i < pickups@.len() ==> spec_opt_pickup_wf(#[trigger] pickups@[i]),
    ensures
        ({
            let fin = spec_collect_from(
                PickupState {
                    commands: Seq::<PickupCommand>::empty(),
                    fever: *old(fever),
                    coherence: *old(coherence),
                },
                pickups@,
                contacts@,
                0,
            );
            commands@ == fin.commands
                && *final(fever) == fin.fever
                && *final(coherence) == fin.coherence
        }),
        final(fever).wf(),
        final(coherence).wf(),
{
    let ghost fin = spec_collect_from(
        PickupState {
            commands: Seq::<PickupCommand>::empty(),
            fever: *fever,
            coherence: *coherence,
        },
        pickups@,
        contacts@,
        0,
    );
    let mut commands: Vec<PickupCommand> = Vec::new();
    let mut k: usize = 0;
    while k < contacts.len()
        invariant
            k <= contacts@.len(),
            fever.wf(),
            coherence.wf(),
            forall|i: int| 0 <= i < pickups@.len() ==> spec_opt_pickup_wf(#[trigger] pickups@[i]),
            spec_collect_from(
                PickupState { commands: commands@, fever: *fever, coherence: *coherence },
                pickups@,
                contacts@,
                k as int,
            ) == fin,
        decreases contacts@.len() - k,
    {
        let e = contacts[k];
        let ghost before = PickupState {
            commands: commands@, fever: *fever, coherence: *coherence,
        };
        if e < pickups.len() {
            match pickups[e] {
                None => {}
                Some(Pickup::Null) => {
                    commands.push(PickupCommand::Despawn(e));
                }
                Some(Pickup::Damage(amount)) => {
                    fever.adjust_permanent_including_temporary(amount);
                    commands.push(PickupCommand::HurtPlayer);
                    commands.push(PickupCommand::Despawn(e));
                }
                Some(Pickup::Cool(amount)) => {
                    fever.adjust_permanent_clearing_temporary(-amount);
                    commands.push(PickupCommand::Despawn(e));
                    commands.push(PickupCommand::PlaySound(e));
                }
                Some(Pickup::Cohere(amount)) => {
                    coherence.adjust_permanent_clearing_temporary(amount);
                    commands.push(PickupCommand::Despawn(e));
                    commands.push(PickupCommand::PlaySound(e));
                }
            }
        }
        proof {
            assert(PickupState {
                commands: commands@, fever: *fever, coherence: *coherence,
            } =~= spec_collect_one(before, pickups@, e));
        }
        k = k + 1;
    }
    commands
}

} // verus!
