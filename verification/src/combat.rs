//! Combat resolution: bullets against attackable targets.
//!
//! Per tick, in order: expired bullets are swept, guns fire, the
//! collision oracle's overlap snapshot is resolved into damage and kill
//! marks, the death sweep turns zero-health targets into side effects,
//! and the player's remaining health is converted into fever.
//!
//! Entities are plain indices into the caller's bullet and target lists;
//! the caller carries out the commands these functions emit.

use vstd::prelude::*;
use vstd::seq_lib::lemma_seq_contains_after_push;
use crate::fixed::{SCALE, STACK_LIMIT, spec_clamp_unit, spec_scale_mul, scale_mul,
    lemma_scale_mul_bounds, lemma_unit_product_fits};
use crate::quantity::Quantity;
use crate::pickup::Pickup;

verus! {

/// Length of the hit-flash pulse, in fixed-point seconds.
pub const HURT_PULSE: i64 = 1_000;

/// Fever gained per point of health the player is missing.
pub const FEVER_PER_HEALTH: i64 = 1_000;

/// Flat part of the fervor credited for a player kill.
pub const KILL_FERVOR_BASE: i64 = 301;

/// Fraction of the current fervor stack added on top of the flat credit,
/// so that combo kills escalate.
pub const KILL_FERVOR_RATE: i64 = 300;

/// The fervor stack counts as at least this much when the kill credit is
/// computed, so even the first kill of a combo pays off.
pub const KILL_COMBO_FLOOR: i64 = 4_000;

/// Which side of the fight an entity belongs to.  Bullets and damageable
/// entities need to be on a team.
#[derive(Clone, Copy, Debug, PartialEq, Eq, Structural)]
pub enum Team {
    Player,
    Enemy,
}

/// A bullet only hurts entities of the other team: friendly fire is
/// impossible by construction.
pub open spec fn spec_should_hurt(shooter: Team, other: Team) -> bool {
    other != shooter
}

impl Team {
    pub fn should_hurt(self, other_team: Team) -> (r: bool)
        ensures
            r == spec_should_hurt(self, other_team),
    {
        other_team != self
    }
}

/// Friendly fire is impossible for every pair of teams: no team hurts
/// itself, and each team hurts the other.
pub proof fn lemma_no_friendly_fire()
    ensures
        forall|t: Team| !spec_should_hurt(t, t),
        spec_should_hurt(Team::Player, Team::Enemy),
        spec_should_hurt(Team::Enemy, Team::Player),
{
}

/// Something that dies if shot.
#[derive(Clone, Copy, Debug)]
pub struct Attackable {
    /// Reduced by bullets, saturating at zero; the death sweep despawns
    /// the entity once this is zero.
    pub health: u8,
    /// Set to [`HURT_PULSE`] when damage occurs, and decays to zero; a
    /// hit flash shows while it is positive.
    pub hurt_animation_cooldown: i64,
    /// Whether a destruction-particle burst should be spawned on death.
    pub has_destruction_particle: bool,
    /// What team last hit it, to attribute the kill.
    pub last_hit_by: Option<Team>,
}

impl Attackable {
    pub open spec fn wf(self) -> bool {
        0 <= self.hurt_animation_cooldown
    }

    /// A freshly spawned attackable with full health and no history.
    pub fn new(health: u8, has_destruction_particle: bool) -> (a: Attackable)
        ensures
            a.health == health,
            a.hurt_animation_cooldown == 0,
            a.has_destruction_particle == has_destruction_particle,
            a.last_hit_by is None,
            a.wf(),
    {
        Attackable {
            health,
            hurt_animation_cooldown: 0,
            has_destruction_particle,
            last_hit_by: None,
        }
    }

    /// React to a hurt notification: start the hit-flash pulse if none
    /// is showing, and report whether the hit was lethal so the caller
    /// can pick the kill or the hurt sound.
    ///
    /// A pulse already showing is not restarted: repeated hits within
    /// the window do not extend it.
    pub fn register_hurt(&mut self) -> (lethal: bool)
        requires
            old(self).wf(),
        ensures
            lethal == (old(self).health == 0),
            final(self).hurt_animation_cooldown == (
                if old(self).hurt_animation_cooldown == 0 { HURT_PULSE as int }
                else { old(self).hurt_animation_cooldown as int }
            ),
            final(self).health == old(self).health,
            final(self).has_destruction_particle == old(self).has_destruction_particle,
            final(self).last_hit_by == old(self).last_hit_by,
            final(self).wf(),
    {
        let lethal = self.health == 0;
        if self.hurt_animation_cooldown == 0 {
            self.hurt_animation_cooldown = HURT_PULSE;
        }
        lethal
    }

    /// Let the hit-flash pulse decay, and report whether the flash
    /// should show this tick.
    pub fn tick_hurt_animation(&mut self, dt: i64) -> (flash: bool)
        requires
            old(self).wf(),
            dt >= 0,
        ensures
            flash == (old(self).hurt_animation_cooldown > 0),
            final(self).hurt_animation_cooldown == (
                if old(self).hurt_animation_cooldown > dt {
                    old(self).hurt_animation_cooldown - dt
                } else {
                    0
                }
            ),
            final(self).health == old(self).health,
            final(self).has_destruction_particle == old(self).has_destruction_particle,
            final(self).last_hit_by == old(self).last_hit_by,
            final(self).wf(),
    {
        if self.hurt_animation_cooldown > 0 {
            self.hurt_animation_cooldown = if self.hurt_animation_cooldown > dt {
                self.hurt_animation_cooldown - dt
            } else {
                0
            };
            true
        } else {
            false
        }
    }
}

/// Where a bullet stands in its life: the removal of a bullet that hit
/// something is deferred by one tick, so that every system can still
/// observe the hit this tick.
#[derive(Clone, Copy, Debug, PartialEq, Eq, Structural)]
pub enum BulletStatus {
    /// In flight; its overlaps are resolved each tick.
    Flying,
    /// It hit something this tick; it will be swept on the next tick.
    ResolvedThisTick,
    /// The sweep has marked it; the caller despawns it.
    PendingRemoval,
}

/// A transient projectile.
#[derive(Clone, Copy, Debug)]
pub struct Bullet {
    pub damage: u8,
    /// Who fired it.
    pub team: Team,
    /// Remaining flight time in fixed-point seconds; forced to zero when
    /// the bullet hits.
    pub lifetime: i64,
    pub status: BulletStatus,
}

/// An entity that can be damaged, as hit resolution sees it.
#[derive(Clone, Copy, Debug)]
pub struct Target {
    pub team: Team,
    pub attackable: Attackable,
    /// A pickup this entity carries, dropped when it dies.
    pub carried_pickup: Option<Pickup>,
}

/// The result of one bullet's expiry step: the bullet as it continues,
/// and whether it is to be removed.
pub open spec fn spec_expire_one(b: Bullet, dt: int) -> (Bullet, bool) {
    if b.lifetime > dt {
        (Bullet { lifetime: (b.lifetime - dt) as i64, ..b }, false)
    } else {
        (Bullet { status: BulletStatus::PendingRemoval, ..b }, true)
    }
}

/// Count down every bullet's lifetime and collect the ones to remove.
///
/// A bullet that resolved a hit last tick has lifetime zero, so this is
/// also the pass that sweeps hit bullets away — one tick after the hit,
/// never in the same tick, because this runs before hit resolution in
/// the tick order.
pub fn expire_bullets(bullets: &mut Vec<Bullet>, dt: i64) -> (removed: Vec<usize>)
    requires
        dt >= 0,
    ensures
        final(bullets)@.len() == old(bullets)@.len(),
        forall|i: int| 0 <= i < old(bullets)@.len()
            ==> final(bullets)@[i] == spec_expire_one(old(bullets)@[i], dt as int).0,
        forall|i: usize| #[trigger] removed@.contains(i)
            <==> i < old(bullets)@.len() && spec_expire_one(old(bullets)@[i as int], dt as int).1,
        removed@.no_duplicates(),
{
    broadcast use lemma_seq_contains_after_push;

    let mut removed: Vec<usize> = Vec::new();
    let mut i: usize = 0;
    while i < bullets.len()
        invariant
            dt >= 0,
            i <= bullets@.len(),
            bullets@.len() == old(bullets)@.len(),
            forall|j: int| i <= j < bullets@.len() ==> bullets@[j] == old(bullets)@[j],
            forall|j: int| 0 <= j < i
                ==> bullets@[j] == spec_expire_one(old(bullets)@[j], dt as int).0,
            forall|j: usize| #[trigger] removed@.contains(j)
                <==> j < i && spec_expire_one(old(bullets)@[j as int], dt as int).1,
            removed@.no_duplicates(),
            forall|j: int| 0 <= j < removed@.len() ==> removed@[j] < i,
        decreases bullets@.len() - i,
    {
        let b = bullets[i];
        if b.lifetime > dt {
            bullets.set(i, Bullet { lifetime: b.lifetime - dt, ..b });
        } else {
            bullets.set(i, Bullet { status: BulletStatus::PendingRemoval, ..b });
            let ghost r0 = removed@;
            removed.push(i);
            proof {
                assert(removed@ == r0.push(i));
                assert forall|j: usize| #[trigger] removed@.contains(j)
                    implies j == i || r0.contains(j) by {
                    lemma_seq_contains_after_push(r0, i, j);
                }
                assert forall|j: usize| j == i || r0.contains(j)
                    implies #[trigger] removed@.contains(j) by {
                    lemma_seq_contains_after_push(r0, i, j);
                }
            }
        }
        i = i + 1;
    }
    removed
}

/// Count down a plain lifetime (pickups, decorative entities), and
/// report whether the entity's time is up.
pub fn tick_lifetime(lifetime: &mut i64, dt: i64) -> (expired: bool)
    requires
        dt >= 0,
    ensures
        expired == !(*old(lifetime) > dt),
        *final(lifetime) == if *old(lifetime) > dt {
            *old(lifetime) - dt
        } else {
            *old(lifetime) as int
        },
{
    if *lifetime > dt {
        *lifetime = *lifetime - dt;
        false
    } else {
        true
    }
}

/// Subtraction on health that cannot go below zero: excess damage is
/// wasted, not carried over.
pub open spec fn spec_saturating_sub(h: u8, d: u8) -> u8 {
    if d >= h {
        0u8
    } else {
        (h - d) as u8
    }
}

/// Damage beyond the remaining health leaves exactly zero health —
/// never a wrapped value — and anything less leaves the difference.
pub proof fn lemma_saturating_health(health: u8, damage: u8)
    ensures
        damage > health ==> spec_saturating_sub(health, damage) == 0,
        damage <= health ==> spec_saturating_sub(health, damage) == health - damage,
{
}

/// Everything hit resolution reads and writes, gathered so that the
/// resolution algorithm can be stated as one deterministic fold.
#[verifier::ext_equal]
pub struct ResolveState {
    pub targets: Seq<Target>,
    pub bullets: Seq<Bullet>,
    /// Targets whose health reached zero this tick, in kill order.
    pub killed: Seq<usize>,
    /// One entry per applied hit, in order: the hurt notifications.
    pub hurt: Seq<usize>,
    /// Each target touched by a hit, once, in first-touch order.
    pub touched: Seq<usize>,
    pub coherence: Quantity,
}

/// One collision pair: bullet `bi` against the entity with index `ti`.
///
/// The pair is skipped when `ti` is not a valid attackable target, when
/// the teams forbid the hit, or when the target was already marked
/// killed earlier in the same sweep.  Otherwise the target takes
/// saturating damage and attribution, a hurt notification is emitted,
/// a now-dead target joins the killed marks, the bullet is resolved
/// (lifetime forced to zero), and a player hit cancels the player's
/// pending coherence loss.
pub open spec fn spec_resolve_pair(s: ResolveState, bi: int, ti: usize) -> ResolveState {
    if ti >= s.targets.len() {
        s
    } else {
        let b = s.bullets[bi];
        let t = s.targets[ti as int];
        if !spec_should_hurt(b.team, t.team) {
            s
        } else if s.killed.contains(ti) {
            s
        } else {
            let new_health = spec_saturating_sub(t.attackable.health, b.damage);
            ResolveState {
                targets: s.targets.update(ti as int, Target {
                    attackable: Attackable {
                        health: new_health,
                        last_hit_by: Some(b.team),
                        ..t.attackable
                    },
                    ..t
                }),
                bullets: s.bullets.update(bi, Bullet {
                    lifetime: 0,
                    status: BulletStatus::ResolvedThisTick,
                    ..b
                }),
                killed: if new_health == 0 { s.killed.push(ti) } else { s.killed },
                hurt: s.hurt.push(ti),
                touched: if s.touched.contains(ti) { s.touched } else { s.touched.push(ti) },
                coherence: if b.team == Team::Player {
                    Quantity::with_parts(spec_clamp_unit(s.coherence.base()), 0)
                } else {
                    s.coherence
                },
            }
        }
    }
}

/// The fold of [`spec_resolve_pair`] over every flying bullet's overlap
/// list, starting from bullet `bi` and its collision entry `ci`.  A
/// bullet that is not flying when its row is reached is skipped whole.
pub open spec fn spec_resolve_from(
    s: ResolveState,
    ov: Seq<Seq<usize>>,
    bi: int,
    ci: int,
) -> ResolveState
    decreases ov.len() - bi, ov[bi].len() - ci + 1,
{
    if bi < 0 || ci < 0 || bi >= ov.len() || bi >= s.bullets.len() {
        s
    } else if ci == 0 && s.bullets[bi].status != BulletStatus::Flying {
        spec_resolve_from(s, ov, bi + 1, 0)
    } else if ci >= ov[bi].len() {
        spec_resolve_from(s, ov, bi + 1, 0)
    } else {
        spec_resolve_from(spec_resolve_pair(s, bi, ov[bi][ci]), ov, bi, ci + 1)
    }
}

/// Pushing a fresh element keeps a sequence free of duplicates.
proof fn lemma_push_fresh_no_duplicates(s: Seq<usize>, x: usize)
    requires
        s.no_duplicates(),
        !s.contains(x),
    ensures
        s.push(x).no_duplicates(),
{
    assert forall|i: int, j: int|
        0 <= i < s.push(x).len() && 0 <= j < s.push(x).len() && i != j
        implies s.push(x)[i] != s.push(x)[j] by {
        if i == s.len() as int {
            assert(s.push(x)[j] == s[j]);
        } else if j == s.len() as int {
            assert(s.push(x)[i] == s[i]);
        }
    }
}

/// The bookkeeping invariant hit resolution maintains: the kill marks
/// and the touched set hold valid target indices without duplicates,
/// and every marked target really has zero health.
pub open spec fn spec_resolve_inv(s: ResolveState) -> bool {
    &&& s.killed.no_duplicates()
    &&& s.touched.no_duplicates()
    &&& forall|t: usize| #[trigger] s.killed.contains(t)
            ==> t < s.targets.len() && s.targets[t as int].attackable.health == 0
    &&& forall|t: usize| #[trigger] s.touched.contains(t) ==> t < s.targets.len()
}

/// A bullet after it resolved a hit: same shot, no remaining lifetime.
pub open spec fn spec_bullet_resolved(b: Bullet) -> Bullet {
    Bullet { lifetime: 0, status: BulletStatus::ResolvedThisTick, ..b }
}

/// How hit resolution may change the bullet list: each bullet is either
/// untouched or has become its resolved version.
pub open spec fn spec_bullets_evolved(orig: Seq<Bullet>, now: Seq<Bullet>) -> bool {
    &&& now.len() == orig.len()
    &&& forall|i: int| 0 <= i < orig.len()
            ==> #[trigger] now[i] == orig[i] || now[i] == spec_bullet_resolved(orig[i])
}

/// How hit resolution may change the target list: health only ever
/// decreases, and everything except health and attribution is untouched.
pub open spec fn spec_targets_evolved(orig: Seq<Target>, now: Seq<Target>) -> bool {
    &&& now.len() == orig.len()
    &&& forall|i: int| 0 <= i < orig.len() ==> {
            let n = #[trigger] now[i];
            &&& n.team == orig[i].team
            &&& n.carried_pickup == orig[i].carried_pickup
            &&& n.attackable.health <= orig[i].attackable.health
            &&& n.attackable.hurt_animation_cooldown
                == orig[i].attackable.hurt_animation_cooldown
            &&& n.attackable.has_destruction_particle
                == orig[i].attackable.has_destruction_particle
        }
}

/// How hit resolution may change coherence: untouched, or its pending
/// loss cancelled.
pub open spec fn spec_coherence_evolved(orig: Quantity, now: Quantity) -> bool {
    now == orig || now == Quantity::with_parts(spec_clamp_unit(orig.base()), 0)
}

proof fn lemma_resolve_pair_preserves(
    orig_t: Seq<Target>,
    orig_b: Seq<Bullet>,
    orig_c: Quantity,
    s: ResolveState,
    bi: int,
    ti: usize,
)
    requires
        spec_resolve_inv(s),
        spec_targets_evolved(orig_t, s.targets),
        spec_bullets_evolved(orig_b, s.bullets),
        spec_coherence_evolved(orig_c, s.coherence),
        0 <= bi < s.bullets.len(),
    ensures
        spec_resolve_inv(spec_resolve_pair(s, bi, ti)),
        spec_targets_evolved(orig_t, spec_resolve_pair(s, bi, ti).targets),
        spec_bullets_evolved(orig_b, spec_resolve_pair(s, bi, ti).bullets),
        spec_coherence_evolved(orig_c, spec_resolve_pair(s, bi, ti).coherence),
{
    broadcast use lemma_seq_contains_after_push;

    let s2 = spec_resolve_pair(s, bi, ti);
    if ti < s.targets.len() {
        let b = s.bullets[bi];
        let t = s.targets[ti as int];
        if spec_should_hurt(b.team, t.team) && !s.killed.contains(ti) {
            let new_health = spec_saturating_sub(t.attackable.health, b.damage);
            if b.team == Team::Player {
                // Cancelling an already-cancelled pending loss changes nothing.
                Quantity::lemma_with_parts(spec_clamp_unit(orig_c.base()), 0);
            }
            if new_health == 0 {
                lemma_push_fresh_no_duplicates(s.killed, ti);
            }
            if !s.touched.contains(ti) {
                lemma_push_fresh_no_duplicates(s.touched, ti);
            }
            assert forall|x: usize| #[trigger] s2.killed.contains(x)
                implies x < s2.targets.len() && s2.targets[x as int].attackable.health == 0 by {
                if x != ti {
                    assert(s.killed.contains(x));
                    assert(s2.targets[x as int] == s.targets[x as int]);
                }
            }
            assert(s2.bullets[bi] == spec_bullet_resolved(orig_b[bi]));
        }
    }
}

proof fn lemma_resolve_from_preserves(
    orig_t: Seq<Target>,
    orig_b: Seq<Bullet>,
    orig_c: Quantity,
    s: ResolveState,
    ov: Seq<Seq<usize>>,
    bi: int,
    ci: int,
)
    requires
        spec_resolve_inv(s),
        spec_targets_evolved(orig_t, s.targets),
        spec_bullets_evolved(orig_b, s.bullets),
        spec_coherence_evolved(orig_c, s.coherence),
    ensures
        spec_resolve_inv(spec_resolve_from(s, ov, bi, ci)),
        spec_targets_evolved(orig_t, spec_resolve_from(s, ov, bi, ci).targets),
        spec_bullets_evolved(orig_b, spec_resolve_from(s, ov, bi, ci).bullets),
        spec_coherence_evolved(orig_c, spec_resolve_from(s, ov, bi, ci).coherence),
    decreases ov.len() - bi, ov[bi].len() - ci + 1,
{
    if bi < 0 || ci < 0 || bi >= ov.len() || bi >= s.bullets.len() {
    } else if ci == 0 && s.bullets[bi].status != BulletStatus::Flying {
        lemma_resolve_from_preserves(orig_t, orig_b, orig_c, s, ov, bi + 1, 0);
    } else if ci >= ov[bi].len() {
        lemma_resolve_from_preserves(orig_t, orig_b, orig_c, s, ov, bi + 1, 0);
    } else {
        lemma_resolve_pair_preserves(orig_t, orig_b, orig_c, s, bi, ov[bi][ci]);
        lemma_resolve_from_preserves(
            orig_t, orig_b, orig_c,
            spec_resolve_pair(s, bi, ov[bi][ci]), ov, bi, ci + 1,
        );
    }
}

/// A bullet that registered a hit this tick (it changed during hit
/// resolution) has no lifetime left and stands resolved at the end of
/// the tick; the next tick's expiry pass — which runs before that
/// tick's hit resolution — then removes it.  It is never removed within
/// the tick it hit.
pub proof fn lemma_hit_bullet_swept_next_tick(
    orig: Seq<Bullet>,
    now: Seq<Bullet>,
    i: int,
    dt: int,
)
    requires
        spec_bullets_evolved(orig, now),
        0 <= i < orig.len(),
        now[i] != orig[i],
        dt >= 0,
    ensures
        now[i].lifetime == 0,
        now[i].status == BulletStatus::ResolvedThisTick,
        spec_expire_one(now[i], dt).1,
{
}

/// What hit resolution reports back for the passes that follow it.
#[derive(Debug)]
pub struct HitReport {
    /// One entry per applied hit, in order: the hurt notifications to
    /// deliver.
    pub hurt: Vec<usize>,
    /// Targets whose health reached zero this tick.
    pub killed: Vec<usize>,
    /// Each target touched this tick, once: the death sweep's dirty set.
    pub touched: Vec<usize>,
}

/// Whether `v` holds `x`.
fn contains_usize(v: &Vec<usize>, x: usize) -> (r: bool)
    ensures
        r == v@.contains(x),
{
    let mut i: usize = 0;
    while i < v.len()
        invariant
            i <= v@.len(),
            forall|j: int| 0 <= j < i ==> v@[j] != x,
        decreases v@.len() - i,
    {
        if v[i] == x {
            proof {
                assert(v@[i as int] == x);
            }
            return true;
        }
        i = i + 1;
    }
    false
}

/// Resolve this tick's collision snapshot: every flying bullet works
/// through its list of overlapped entities in order, as
/// [`spec_resolve_pair`] describes pair by pair.
///
/// `overlaps[i]` is the collision oracle's list of entity indices that
/// bullet `i` currently overlaps; an index at or beyond `targets.len()`
/// models an entity that is not a valid attackable target.
pub fn resolve_hits(
    bullets: &mut Vec<Bullet>,
    targets: &mut Vec<Target>,
    overlaps: &Vec<Vec<usize>>,
    coherence: &mut Quantity,
) -> (report: HitReport)
    requires
        old(bullets)@.len() == overlaps@.len(),
        old(coherence).wf(),
    ensures
        ({
            let fin = spec_resolve_from(
                ResolveState {
                    targets: old(targets)@,
                    bullets: old(bullets)@,
                    killed: Seq::<usize>::empty(),
                    hurt: Seq::<usize>::empty(),
                    touched: Seq::<usize>::empty(),
                    coherence: *old(coherence),
                },
                overlaps@.map_values(|v: Vec<usize>| v@),
                0,
                0,
            );
            &&& final(targets)@ == fin.targets
            &&& final(bullets)@ == fin.bullets
            &&& *final(coherence) == fin.coherence
            &&& report.killed@ == fin.killed
            &&& report.hurt@ == fin.hurt
            &&& report.touched@ == fin.touched
        }),
        final(coherence).wf(),
        report.killed@.no_duplicates(),
        report.touched@.no_duplicates(),
        forall|t: usize| #[trigger] report.killed@.contains(t)
            ==> t < final(targets)@.len() && final(targets)@[t as int].attackable.health == 0,
        forall|t: usize| #[trigger] report.touched@.contains(t) ==> t < final(targets)@.len(),
        spec_targets_evolved(old(targets)@, final(targets)@),
        spec_bullets_evolved(old(bullets)@, final(bullets)@),
        spec_coherence_evolved(*old(coherence), *final(coherence)),
{
    proof {
        let init = ResolveState {
            targets: targets@,
            bullets: bullets@,
            killed: Seq::<usize>::empty(),
            hurt: Seq::<usize>::empty(),
            touched: Seq::<usize>::empty(),
            coherence: *coherence,
        };
        lemma_resolve_from_preserves(
            targets@, bullets@, *coherence, init,
            overlaps@.map_values(|v: Vec<usize>| v@), 0, 0,
        );
    }
    let ghost ov = overlaps@.map_values(|v: Vec<usize>| v@);
    let ghost fin = spec_resolve_from(
        ResolveState {
            targets: targets@,
            bullets: bullets@,
            killed: Seq::<usize>::empty(),
            hurt: Seq::<usize>::empty(),
            touched: Seq::<usize>::empty(),
            coherence: *coherence,
        },
        ov,
        0,
        0,
    );
    let mut killed: Vec<usize> = Vec::new();
    let mut hurt: Vec<usize> = Vec::new();
    let mut touched: Vec<usize> = Vec::new();
    let mut bi: usize = 0;
    while bi < bullets.len()
        invariant
            bi <= bullets@.len(),
            bullets@.len() == overlaps@.len(),
            coherence.wf(),
            ov == overlaps@.map_values(|v: Vec<usize>| v@),
            spec_resolve_from(
                ResolveState {
                    targets: targets@,
                    bullets: bullets@,
                    killed: killed@,
                    hurt: hurt@,
                    touched: touched@,
                    coherence: *coherence,
                },
                ov,
                bi as int,
                0,
            ) == fin,
        decreases bullets@.len() - bi,
    {
        if bullets[bi].status == BulletStatus::Flying {
            let row_len = overlaps[bi].len();
            let mut ci: usize = 0;
            while ci < row_len
                invariant
                    ci <= row_len,
                    bi < bullets@.len(),
                    bullets@.len() == overlaps@.len(),
                    row_len == ov[bi as int].len(),
                    coherence.wf(),
                    ov == overlaps@.map_values(|v: Vec<usize>| v@),
                    ci == 0 ==> bullets@[bi as int].status == BulletStatus::Flying,
                    spec_resolve_from(
                        ResolveState {
                            targets: targets@,
                            bullets: bullets@,
                            killed: killed@,
                            hurt: hurt@,
                            touched: touched@,
                            coherence: *coherence,
                        },
                        ov,
                        bi as int,
                        ci as int,
                    ) == fin,
                decreases row_len - ci,
            {
                let ghost before = ResolveState {
                    targets: targets@,
                    bullets: bullets@,
                    killed: killed@,
                    hurt: hurt@,
                    touched: touched@,
                    coherence: *coherence,
                };
                let ti = overlaps[bi][ci];
                if ti < targets.len() {
                    let bullet_team = bullets[bi].team;
                    let t = targets[ti];
                    if bullet_team.should_hurt(t.team) {
                        if !contains_usize(&killed, ti) {
                            let new_health = t.attackable.health.saturating_sub(bullets[bi].damage);

                            let mut new_target = t;
                            new_target.attackable.health = new_health;
                            new_target.attackable.last_hit_by = Some(bullet_team);
                            targets.set(ti, new_target);
                            hurt.push(ti);
                            if !contains_usize(&touched, ti) {
                                touched.push(ti);
                            }
                            if new_health == 0 {
                                killed.push(ti);
                            }

                            let mut new_bullet = bullets[bi];
                            new_bullet.lifetime = 0;  // die on the next tick
                            new_bullet.status = BulletStatus::ResolvedThisTick;
                            bullets.set(bi, new_bullet);

                            // Player successfully hitting *something*
                            // cancels coherence loss.
                            if bullet_team == Team::Player {
                                coherence.adjust_permanent_clearing_temporary(0);
                            }
                        }
                    }
                }
                proof {
                    assert(ResolveState {
                        targets: targets@,
                        bullets: bullets@,
                        killed: killed@,
                        hurt: hurt@,
                        touched: touched@,
                        coherence: *coherence,
                    } =~= spec_resolve_pair(before, bi as int, ti));
                }
                ci = ci + 1;
            }
        }
        bi = bi + 1;
    }
    HitReport { hurt, killed, touched }
}

/// A side effect the caller must carry out for a dying entity.
#[derive(Clone, Copy, Debug, PartialEq, Eq, Structural)]
pub enum DeathCommand {
    /// Reparent the pickup the entity carries so it survives and drops.
    DropPickup(usize),
    /// Spawn a destruction-particle burst at the entity's position.
    SpawnParticles(usize),
    /// Remove the entity.
    Despawn(usize),
}

/// The fervor credited for one player kill: a flat part plus a share of
/// the current fervor stack (counted as at least [`KILL_COMBO_FLOOR`]),
/// so combo kills escalate.
pub open spec fn spec_kill_credit(fervor: Quantity) -> int {
    let counted = if fervor.stack() > KILL_COMBO_FLOOR {
        fervor.stack()
    } else {
        KILL_COMBO_FLOOR as int
    };
    KILL_FERVOR_BASE + spec_scale_mul(counted, KILL_FERVOR_RATE as int)
}

/// What the death sweep accumulates: commands emitted so far and the
/// fervor quantity it credits.
#[verifier::ext_equal]
pub struct SweepState {
    pub commands: Seq<DeathCommand>,
    pub fervor: Quantity,
}

/// Whether the entity at index `d` is due for the death sweep.
pub open spec fn spec_dead(targets: Seq<Target>, d: usize) -> bool {
    d < targets.len() && targets[d as int].attackable.health == 0
}

/// The death sweep's work for one dirty entity: nothing while it still
/// has health; otherwise drop its carried pickup, burst its particles,
/// credit fervor for a player kill made while fervor is active, and
/// despawn it.
///
/// A credit whose stack arithmetic would leave `i64` headroom is
/// discarded rather than applied, mirroring the policy of dropping
/// mutations on invalid numeric results.
pub open spec fn spec_sweep_one(
    s: SweepState,
    targets: Seq<Target>,
    fever: Quantity,
    coherence: Quantity,
    d: usize,
) -> SweepState {
    if !spec_dead(targets, d) {
        s
    } else {
        let t = targets[d as int];
        let c1 = if t.carried_pickup is Some {
            s.commands.push(DeathCommand::DropPickup(d))
        } else {
            s.commands
        };
        let c2 = if t.attackable.has_destruction_particle {
            c1.push(DeathCommand::SpawnParticles(d))
        } else {
            c1
        };
        let fervor2 = if t.attackable.last_hit_by == Some(Team::Player)
            && coherence.eff() > fever.eff() {
            let added = spec_kill_credit(s.fervor);
            if s.fervor.stack() + added <= STACK_LIMIT {
                Quantity::with_parts(s.fervor.base(), s.fervor.stack() + added)
            } else {
                s.fervor
            }
        } else {
            s.fervor
        };
        SweepState {
            commands: c2.push(DeathCommand::Despawn(d)),
            fervor: fervor2,
        }
    }
}

/// Fold of [`spec_sweep_one`] over the dirty list from index `k` on.
pub open spec fn spec_sweep_from(
    s: SweepState,
    targets: Seq<Target>,
    fever: Quantity,
    coherence: Quantity,
    dirty: Seq<usize>,
    k: int,
) -> SweepState
    decreases dirty.len() - k,
{
    if k < 0 || k >= dirty.len() {
        s
    } else {
        spec_sweep_from(
            spec_sweep_one(s, targets, fever, coherence, dirty[k]),
            targets,
            fever,
            coherence,
            dirty,
            k + 1,
        )
    }
}

/// The death sweep: walk the dirty set hit resolution produced, and for
/// every entity whose health is zero emit its side effects and despawn
/// it, crediting fervor for player kills made while fervor is active.
pub fn death_sweep(
    targets: &Vec<Target>,
    dirty: &Vec<usize>,
    fever: &Quantity,
    coherence: &Quantity,
    fervor: &mut Quantity,
) -> (commands: Vec<DeathCommand>)
    requires
        dirty@.no_duplicates(),
        fever.wf(),
        coherence.wf(),
        old(fervor).wf(),
    ensures
        ({
            let fin = spec_sweep_from(
                SweepState { commands: Seq::<DeathCommand>::empty(), fervor: *old(fervor) },
                targets@,
                *fever,
                *coherence,
                dirty@,
                0,
            );
            commands@ == fin.commands && *final(fervor) == fin.fervor
        }),
        final(fervor).wf(),
        forall|d: usize| spec_count_despawns(commands@, d)
            == if dirty@.contains(d) && spec_dead(targets@, d) { 1int } else { 0int },
{
    let ghost fin = spec_sweep_from(
        SweepState { commands: Seq::<DeathCommand>::empty(), fervor: *fervor },
        targets@,
        *fever,
        *coherence,
        dirty@,
        0,
    );
    let mut commands: Vec<DeathCommand> = Vec::new();
    let mut k: usize = 0;
    while k < dirty.len()
        invariant
            k <= dirty@.len(),
            fever.wf(),
            coherence.wf(),
            fervor.wf(),
            spec_sweep_from(
                SweepState { commands: commands@, fervor: *fervor },
                targets@,
                *fever,
                *coherence,
                dirty@,
                k as int,
            ) == fin,
        decreases dirty@.len() - k,
    {
        let ghost before = SweepState { commands: commands@, fervor: *fervor };
        let d = dirty[k];
        if d < targets.len() && targets[d].attackable.health == 0 {
            let t = targets[d];
            // Reparent a carried pickup so it survives the despawn.
            if t.carried_pickup.is_some() {
                commands.push(DeathCommand::DropPickup(d));
            }
            // Spawn debris.
            if t.attackable.has_destruction_particle {
                commands.push(DeathCommand::SpawnParticles(d));
            }
            // Increase fervor if the player made this kill while fervor
            // is active.  Adding some of the previous value makes big
            // boosts easier to get with combo kills.
            if matches!(t.attackable.last_hit_by, Some(Team::Player))
                && coherence.effective_value() > fever.effective_value() {
                let stack = fervor.temporary_stack();
                let counted = if stack > KILL_COMBO_FLOOR { stack } else { KILL_COMBO_FLOOR };
                proof {
                    lemma_unit_product_fits(counted as int, KILL_FERVOR_RATE as int);
                    lemma_scale_mul_bounds(counted as int, KILL_FERVOR_RATE as int);
                }
                let added = KILL_FERVOR_BASE + scale_mul(counted, KILL_FERVOR_RATE);
                if stack <= STACK_LIMIT - added {
                    fervor.adjust_temporary_stacking_with_previous(added);
                }
            }
            commands.push(DeathCommand::Despawn(d));
        }
        proof {
            assert(SweepState { commands: commands@, fervor: *fervor }
                =~= spec_sweep_one(before, targets@, *fever, *coherence, d));
        }
        k = k + 1;
    }
    proof {
        let whole = dirty@.subrange(0, dirty@.len() as int);
        assert(whole =~= dirty@);
        let init = SweepState {
            commands: Seq::<DeathCommand>::empty(),
            fervor: *old(fervor),
        };
        lemma_sweep_from_despawn_counts(init, targets@, *fever, *coherence, dirty@, 0);
        assert forall|d: usize| spec_count_despawns(commands@, d)
            == if dirty@.contains(d) && spec_dead(targets@, d) { 1int } else { 0int } by {
            assert(spec_count_despawns(
                spec_sweep_from(init, targets@, *fever, *coherence, dirty@, 0).commands, d)
                == spec_count_despawns(init.commands, d)
                   + if whole.contains(d) && spec_dead(targets@, d) { 1int } else { 0int });
            assert(spec_count_despawns(init.commands, d) == 0);
        }
    }
    commands
}

/// How many times the sweep ordered entity `d` despawned.
pub open spec fn spec_count_despawns(cs: Seq<DeathCommand>, d: usize) -> int
    decreases cs.len(),
{
    if cs.len() == 0 {
        0
    } else {
        spec_count_despawns(cs.drop_last(), d)
            + if cs.last() == DeathCommand::Despawn(d) { 1int } else { 0int }
    }
}

proof fn lemma_count_despawns_push(cs: Seq<DeathCommand>, c: DeathCommand, d: usize)
    ensures
        spec_count_despawns(cs.push(c), d) == spec_count_despawns(cs, d)
            + if c == DeathCommand::Despawn(d) { 1int } else { 0int },
{
    assert(cs.push(c).drop_last() =~= cs);
}

proof fn lemma_sweep_one_despawn_counts(
    s: SweepState,
    targets: Seq<Target>,
    fever: Quantity,
    coherence: Quantity,
    d0: usize,
    d: usize,
)
    ensures
        spec_count_despawns(spec_sweep_one(s, targets, fever, coherence, d0).commands, d)
            == spec_count_despawns(s.commands, d)
               + if d0 == d && spec_dead(targets, d0) { 1int } else { 0int },
{
    if spec_dead(targets, d0) {
        let t = targets[d0 as int];
        let c1 = if t.carried_pickup is Some {
            s.commands.push(DeathCommand::DropPickup(d0))
        } else {
            s.commands
        };
        let c2 = if t.attackable.has_destruction_particle {
            c1.push(DeathCommand::SpawnParticles(d0))
        } else {
            c1
        };
        if t.carried_pickup is Some {
            lemma_count_despawns_push(s.commands, DeathCommand::DropPickup(d0), d);
        }
        if t.attackable.has_destruction_particle {
            lemma_count_despawns_push(c1, DeathCommand::SpawnParticles(d0), d);
        }
        lemma_count_despawns_push(c2, DeathCommand::Despawn(d0), d);
    }
}

/// At most one kill is credited per entity: the sweep despawns each dead
/// entity of the (duplicate-free) dirty set exactly once, and everything
/// else not at all — so the kill-side-effect sequence that ends in each
/// despawn runs exactly once per kill.
proof fn lemma_sweep_from_despawn_counts(
    s: SweepState,
    targets: Seq<Target>,
    fever: Quantity,
    coherence: Quantity,
    dirty: Seq<usize>,
    k: int,
)
    requires
        dirty.no_duplicates(),
        0 <= k <= dirty.len(),
    ensures
        forall|d: usize|
            #[trigger] spec_count_despawns(
                spec_sweep_from(s, targets, fever, coherence, dirty, k).commands, d)
            == spec_count_despawns(s.commands, d)
               + if dirty.subrange(k, dirty.len() as int).contains(d) && spec_dead(targets, d) {
                   1int
               } else {
                   0int
               },
    decreases dirty.len() - k,
{
    let rest = dirty.subrange(k, dirty.len() as int);
    if k >= dirty.len() {
        assert(rest.len() == 0);
        assert(forall|d: usize| !rest.contains(d));
    } else {
        let s1 = spec_sweep_one(s, targets, fever, coherence, dirty[k]);
        lemma_sweep_from_despawn_counts(s1, targets, fever, coherence, dirty, k + 1);
        let rest1 = dirty.subrange(k + 1, dirty.len() as int);
        assert forall|d: usize|
            #[trigger] spec_count_despawns(
                spec_sweep_from(s, targets, fever, coherence, dirty, k).commands, d)
            == spec_count_despawns(s.commands, d)
               + if rest.contains(d) && spec_dead(targets, d) { 1int } else { 0int } by {
            assert(spec_sweep_from(s, targets, fever, coherence, dirty, k)
                == spec_sweep_from(s1, targets, fever, coherence, dirty, k + 1));
            assert(spec_count_despawns(
                spec_sweep_from(s1, targets, fever, coherence, dirty, k + 1).commands, d)
                == spec_count_despawns(s1.commands, d)
                   + if rest1.contains(d) && spec_dead(targets, d) { 1int } else { 0int });
            lemma_sweep_one_despawn_counts(s, targets, fever, coherence, dirty[k], d);
            // The element handled now cannot come back later: the dirty
            // set has no duplicates.
            if dirty[k] == d {
                assert(rest.contains(d)) by {
                    assert(rest[0] == dirty[k]);
                }
                assert(!rest1.contains(d)) by {
                    if rest1.contains(d) {
                        let j = choose|j: int| 0 <= j < rest1.len() && rest1[j] == d;
                        assert(dirty[k + 1 + j] == d);
                    }
                }
            } else {
                assert(rest.contains(d) <==> rest1.contains(d)) by {
                    if rest.contains(d) {
                        let j = choose|j: int| 0 <= j < rest.len() && rest[j] == d;
                        assert(j != 0);
                        assert(rest1[j - 1] == d);
                    }
                    if rest1.contains(d) {
                        let j = choose|j: int| 0 <= j < rest1.len() && rest1[j] == d;
                        assert(rest[j + 1] == d);
                    }
                }
            }
        }
    }
}

/// Convert the player's missing health into fever, once per tick.
///
/// The player cannot truly die from health depletion: any damage taken
/// becomes a fever increase and health resets to full — unless fever has
/// just reached its maximum, in which case health is forced to zero to
/// signal the terminal state.  Taking any damage also resets fervor.
pub fn player_health_is_fever(
    health: &mut u8,
    fever: &mut Quantity,
    fervor: &mut Quantity,
)
    requires
        old(fever).wf(),
        old(fervor).wf(),
    ensures
        ({
            let damage = u8::MAX - *old(health);
            if damage > 0 {
                let fever1 = Quantity::with_parts(
                    spec_clamp_unit(old(fever).eff() + damage * FEVER_PER_HEALTH),
                    0,
                );
                &&& *final(fever) == fever1
                &&& *final(fervor) == Quantity::with_parts(0, 0)
                &&& *final(health) == (if fever1.eff() == SCALE { 0u8 } else { u8::MAX })
            } else {
                &&& *final(fever) == *old(fever)
                &&& *final(fervor) == *old(fervor)
                &&& *final(health) == *old(health)
            }
        }),
        final(fever).wf(),
        final(fervor).wf(),
{
    let damage: u8 = u8::MAX - *health;
    if damage > 0 {
        fever.adjust_permanent_including_temporary((damage as i64) * FEVER_PER_HEALTH);
        if fever.effective_value() == SCALE {
            // cause death
            *health = 0;
        } else {
            *health = u8::MAX;
        }
        // Taking any damage also resets fervor.
        fervor.reset_to(0);
    }
}

} // verus!
