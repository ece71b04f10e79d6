//! The bounded quantity model: a committed base value in the unit
//! interval plus an unclamped pending "temporary stack".
//!
//! The base is clamped into `[0, SCALE]` after every mutation; the stack
//! may be negative or exceed the unit interval transiently.  Which of the
//! adjustment operations a rule uses decides whether pending state
//! commits, survives, or is discarded.
//!
//! Fixed-point integers admit no invalid number, so a real-valued
//! model's not-a-number case cannot arise here; the analogous policy —
//! a mutation whose arithmetic would be invalid is discarded rather
//! than applied — appears where a result could outgrow the stack's
//! headroom (the kill credit in the combat module).

use vstd::prelude::*;
use crate::fixed::{
    SCALE, STACK_LIMIT, spec_clamp_unit, spec_scale_mul, clamp_unit, scale_mul,
    lemma_scale_mul_bounds, lemma_unit_product_fits,
};

verus! {

/// Initial committed value of coherence at game start.
pub const COHERENCE_INITIAL: i64 = 0;

/// Initial committed value of fever at game start.
pub const FEVER_INITIAL: i64 = 5_000;

/// Initial committed value of fervor at game start.
pub const FERVOR_INITIAL: i64 = 0;

/// Fervor base value at or above which the game is won.
pub const WIN_THRESHOLD: i64 = 9_990;

/// Fraction of the fervor stack that migrates into the base per second.
pub const FERVOR_MIGRATION_RATE: i64 = 3_000;

/// Amount the fervor stack decays linearly per second.
pub const FERVOR_LINEAR_DECAY: i64 = 600;

/// Most negative value the fervor stack's linear decay may reach, unless
/// the (negated) base is higher still.
pub const FERVOR_STACK_FLOOR: i64 = -1_000;

/// A value between 0 and 1 displayed to the player as a bar, with a
/// pending adjustment that has not yet become permanent.
#[derive(Clone, Copy, Debug)]
pub struct Quantity {
    /// Base value of the quantity, persisting unless changed.
    base: i64,
    /// An adjustment which becomes permanent if committed before it is
    /// removed.  How removals happen depends on the specific quantity.
    temporary_stack: i64,
}

impl Quantity {
    /// The committed value, always kept in `[0, SCALE]`.
    pub closed spec fn base(self) -> int {
        self.base as int
    }

    /// The pending value, unclamped.
    pub closed spec fn stack(self) -> int {
        self.temporary_stack as int
    }

    /// Well-formedness: the base is clamped, and the stack has enough
    /// headroom that the arithmetic of every rule stays within `i64`.
    pub open spec fn wf(self) -> bool {
        &&& 0 <= self.base() <= SCALE
        &&& -STACK_LIMIT <= self.stack() <= STACK_LIMIT
    }

    /// The value gameplay acts on: base plus stack, clamped to the unit
    /// interval.
    pub open spec fn eff(self) -> int {
        spec_clamp_unit(self.base() + self.stack())
    }

    /// A quantity with the given raw parts; clamping is the caller's
    /// concern.  Spec-level counterpart of the constructors below.
    pub closed spec fn with_parts(base: int, stack: int) -> Quantity {
        Quantity { base: base as i64, temporary_stack: stack as i64 }
    }

    pub proof fn lemma_with_parts(base: int, stack: int)
        requires
            i64::MIN <= base <= i64::MAX,
            i64::MIN <= stack <= i64::MAX,
        ensures
            Quantity::with_parts(base, stack).base() == base,
            Quantity::with_parts(base, stack).stack() == stack,
    {
    }

    pub fn new(value: i64) -> (q: Quantity)
        requires
            0 <= value <= SCALE,
        ensures
            q.base() == value,
            q.stack() == 0,
            q.wf(),
    {
        Quantity { base: value, temporary_stack: 0 }
    }

    /// Folds any pending stack into the base, adds `delta`, clamps, and
    /// clears the stack: an immediate, irreversible change that respects
    /// whatever was pending.
    pub fn adjust_permanent_including_temporary(&mut self, delta: i64)
        requires
            old(self).wf(),
            -STACK_LIMIT <= delta <= STACK_LIMIT,
        ensures
            *final(self) == Quantity::with_parts(
                spec_clamp_unit(old(self).eff() + delta),
                0,
            ),
            *final(self) == spec_adjust(
                *old(self), Adjustment::PermanentIncludingTemporary(delta)),
            final(self).base() == spec_clamp_unit(old(self).eff() + delta),
            final(self).stack() == 0,
            final(self).wf(),
    {
        let effective = self.effective_value();
        self.reset_to_inner(effective + delta);
    }

    /// Adds `delta` to the base directly, clamps, and clears the stack:
    /// a new permanent change that overrides whatever was pending.
    pub fn adjust_permanent_clearing_temporary(&mut self, delta: i64)
        requires
            old(self).wf(),
            -STACK_LIMIT <= delta <= STACK_LIMIT,
        ensures
            *final(self) == Quantity::with_parts(
                spec_clamp_unit(old(self).base() + delta),
                0,
            ),
            *final(self) == spec_adjust(
                *old(self), Adjustment::PermanentClearingTemporary(delta)),
            final(self).base() == spec_clamp_unit(old(self).base() + delta),
            final(self).stack() == 0,
            final(self).wf(),
    {
        let base = self.base;
        self.reset_to_inner(base + delta);
    }

    /// Adds `delta` to the base only, clamps, and leaves the stack
    /// untouched.
    pub fn adjust_permanent_keeping_temporary(&mut self, delta: i64)
        requires
            old(self).wf(),
            -STACK_LIMIT <= delta <= STACK_LIMIT,
        ensures
            *final(self) == Quantity::with_parts(
                spec_clamp_unit(old(self).base() + delta),
                old(self).stack(),
            ),
            *final(self) == spec_adjust(
                *old(self), Adjustment::PermanentKeepingTemporary(delta)),
            final(self).base() == spec_clamp_unit(old(self).base() + delta),
            final(self).stack() == old(self).stack(),
            final(self).wf(),
    {
        let base = self.base;
        self.set_base_only(base + delta);
    }

    /// Moves `delta` from the stack into the base: the base gains `delta`
    /// (clamped) while the stack loses it, preserving `base + stack` as a
    /// near-invariant across the call.
    pub fn adjust_permanent_keeping_temporary_absolutely(&mut self, delta: i64)
        requires
            old(self).wf(),
            -STACK_LIMIT <= delta <= STACK_LIMIT,
            -STACK_LIMIT <= old(self).stack() - delta <= STACK_LIMIT,
        ensures
            *final(self) == Quantity::with_parts(
                spec_clamp_unit(old(self).base() + delta),
                old(self).stack() - delta,
            ),
            *final(self) == spec_adjust(
                *old(self), Adjustment::PermanentKeepingTemporaryAbsolutely(delta)),
            final(self).base() == spec_clamp_unit(old(self).base() + delta),
            final(self).stack() == old(self).stack() - delta,
            final(self).wf(),
    {
        let base = self.base;
        self.set_base_only(base + delta);
        self.temporary_stack = self.temporary_stack - delta;
    }

    /// Commits whatever stack exists into the base, then starts a fresh
    /// stack at `delta`: the previous pending bonus is locked in and a
    /// new temporary bonus begins.
    pub fn adjust_temporary_and_commit_previous_temporary(&mut self, delta: i64)
        requires
            old(self).wf(),
            -STACK_LIMIT <= delta <= STACK_LIMIT,
        ensures
            *final(self) == Quantity::with_parts(old(self).eff(), delta as int),
            *final(self) == spec_adjust(
                *old(self), Adjustment::TemporaryAndCommitPreviousTemporary(delta)),
            final(self).base() == old(self).eff(),
            final(self).stack() == delta,
            final(self).wf(),
    {
        let effective = self.effective_value();
        self.reset_to_inner(effective);
        self.temporary_stack = delta;
    }

    /// Adds `delta` onto the existing stack, with no clamping and no
    /// commit: combo-style stacking.
    pub fn adjust_temporary_stacking_with_previous(&mut self, delta: i64)
        requires
            old(self).wf(),
            -STACK_LIMIT <= old(self).stack() + delta <= STACK_LIMIT,
        ensures
            *final(self) == Quantity::with_parts(
                old(self).base(),
                old(self).stack() + delta,
            ),
            *final(self) == spec_adjust(
                *old(self), Adjustment::TemporaryStackingWithPrevious(delta)),
            final(self).base() == old(self).base(),
            final(self).stack() == old(self).stack() + delta,
            final(self).wf(),
    {
        self.temporary_stack = self.temporary_stack + delta;
    }

    /// Set the value and erase any temporary modifications.
    pub fn reset_to(&mut self, value: i64)
        requires
            old(self).wf(),
            -STACK_LIMIT <= value <= STACK_LIMIT,
        ensures
            *final(self) == Quantity::with_parts(spec_clamp_unit(value as int), 0),
            *final(self) == spec_adjust(*old(self), Adjustment::ResetTo(value)),
            final(self).base() == spec_clamp_unit(value as int),
            final(self).stack() == 0,
            final(self).wf(),
    {
        self.reset_to_inner(value);
    }

    fn reset_to_inner(&mut self, value: i64)
        ensures
            final(self).base() == spec_clamp_unit(value as int),
            final(self).stack() == 0,
            final(self).wf(),
            *final(self) == Quantity::with_parts(spec_clamp_unit(value as int), 0),
    {
        self.set_base_only(value);
        self.temporary_stack = 0;
    }

    fn set_base_only(&mut self, value: i64)
        ensures
            final(self).base() == spec_clamp_unit(value as int),
            final(self).stack() == old(self).stack(),
            *final(self) == Quantity::with_parts(
                spec_clamp_unit(value as int),
                old(self).stack(),
            ),
    {
        self.base = clamp_unit(value);
    }

    /// Value which should apply to gameplay effects (usually).
    pub fn effective_value(&self) -> (r: i64)
        requires
            self.wf(),
        ensures
            r == self.eff(),
            0 <= r <= SCALE,
    {
        clamp_unit(self.unclamped_effective_value())
    }

    /// Base plus stack without clamping, for displays where intentional
    /// overshoot beyond 1.0 should be visible.
    pub fn unclamped_effective_value(&self) -> (r: i64)
        requires
            self.wf(),
        ensures
            r == self.base() + self.stack(),
    {
        self.base + self.temporary_stack
    }

    pub fn temporary_stack(&self) -> (r: i64)
        ensures
            r == self.stack(),
    {
        self.temporary_stack
    }

    /// The committed value alone, as the win-threshold check and the bar
    /// displays read it.
    pub fn base_value(&self) -> (r: i64)
        ensures
            r == self.base(),
    {
        self.base
    }

    /// Overwrite the stack in place, for the decay laws that shrink it
    /// without touching the base.
    pub(crate) fn set_temporary(&mut self, value: i64)
        requires
            old(self).wf(),
            -STACK_LIMIT <= value <= STACK_LIMIT,
        ensures
            *final(self) == Quantity::with_parts(old(self).base(), value as int),
            final(self).base() == old(self).base(),
            final(self).stack() == value,
            final(self).wf(),
    {
        self.temporary_stack = value;
    }
}

/// The effective value of a well-formed quantity always lies in the unit
/// interval, and so does its base: no sequence of adjustments can escape
/// it, since every adjustment above returns a well-formed quantity.
pub proof fn lemma_quantity_clamp_invariant(q: Quantity)
    requires
        q.wf(),
    ensures
        0 <= q.eff() <= SCALE,
        0 <= q.base() <= SCALE,
{
}

/// One adjustment call, as a value, so that laws can quantify over
/// whole call sequences.  Each variant stands for the like-named
/// method, whose contract equates the call with [`spec_adjust`].
#[derive(Clone, Copy, Debug)]
pub enum Adjustment {
    PermanentIncludingTemporary(i64),
    PermanentClearingTemporary(i64),
    PermanentKeepingTemporary(i64),
    PermanentKeepingTemporaryAbsolutely(i64),
    TemporaryAndCommitPreviousTemporary(i64),
    TemporaryStackingWithPrevious(i64),
    ResetTo(i64),
}

/// What the adjustment's method does, per its contract.
pub open spec fn spec_adjust(q: Quantity, a: Adjustment) -> Quantity {
    match a {
        Adjustment::PermanentIncludingTemporary(d) =>
            Quantity::with_parts(spec_clamp_unit(q.eff() + d), 0),
        Adjustment::PermanentClearingTemporary(d) =>
            Quantity::with_parts(spec_clamp_unit(q.base() + d), 0),
        Adjustment::PermanentKeepingTemporary(d) =>
            Quantity::with_parts(spec_clamp_unit(q.base() + d), q.stack()),
        Adjustment::PermanentKeepingTemporaryAbsolutely(d) =>
            Quantity::with_parts(spec_clamp_unit(q.base() + d), q.stack() - d),
        Adjustment::TemporaryAndCommitPreviousTemporary(d) =>
            Quantity::with_parts(q.eff(), d as int),
        Adjustment::TemporaryStackingWithPrevious(d) =>
            Quantity::with_parts(q.base(), q.stack() + d),
        Adjustment::ResetTo(v) =>
            Quantity::with_parts(spec_clamp_unit(v as int), 0),
    }
}

/// The adjustment's precondition beyond well-formedness: the
/// fixed-point headroom its delta must leave (the like-named method's
/// `requires`).
pub open spec fn spec_adjust_admissible(q: Quantity, a: Adjustment) -> bool {
    match a {
        Adjustment::PermanentIncludingTemporary(d) => -STACK_LIMIT <= d <= STACK_LIMIT,
        Adjustment::PermanentClearingTemporary(d) => -STACK_LIMIT <= d <= STACK_LIMIT,
        Adjustment::PermanentKeepingTemporary(d) => -STACK_LIMIT <= d <= STACK_LIMIT,
        Adjustment::PermanentKeepingTemporaryAbsolutely(d) =>
            -STACK_LIMIT <= d <= STACK_LIMIT
            && -STACK_LIMIT <= q.stack() - d <= STACK_LIMIT,
        Adjustment::TemporaryAndCommitPreviousTemporary(d) => -STACK_LIMIT <= d <= STACK_LIMIT,
        Adjustment::TemporaryStackingWithPrevious(d) =>
            -STACK_LIMIT <= q.stack() + d <= STACK_LIMIT,
        Adjustment::ResetTo(v) => -STACK_LIMIT <= v <= STACK_LIMIT,
    }
}

/// The quantity after a whole sequence of adjustment calls.
pub open spec fn spec_adjust_seq(q: Quantity, ops: Seq<Adjustment>) -> Quantity
    decreases ops.len(),
{
    if ops.len() == 0 {
        q
    } else {
        spec_adjust_seq(spec_adjust(q, ops[0]), ops.drop_first())
    }
}

/// Whether every call of the sequence, run in order, meets its
/// precondition.
pub open spec fn spec_adjust_seq_admissible(q: Quantity, ops: Seq<Adjustment>) -> bool
    decreases ops.len(),
{
    if ops.len() == 0 {
        true
    } else {
        spec_adjust_admissible(q, ops[0])
        && spec_adjust_seq_admissible(spec_adjust(q, ops[0]), ops.drop_first())
    }
}

/// One admissible adjustment of a well-formed quantity yields a
/// well-formed quantity.
pub proof fn lemma_adjust_wf(q: Quantity, a: Adjustment)
    requires
        q.wf(),
        spec_adjust_admissible(q, a),
    ensures
        spec_adjust(q, a).wf(),
{
}

/// The clamp invariant, over every call sequence: however a well-formed
/// quantity is adjusted — any mix of the seven operations, any deltas
/// their preconditions admit — its base and its effective value stay in
/// the unit interval after every call.
pub proof fn lemma_clamp_invariant_for_all_sequences(q: Quantity, ops: Seq<Adjustment>)
    requires
        q.wf(),
        spec_adjust_seq_admissible(q, ops),
    ensures
        spec_adjust_seq(q, ops).wf(),
        0 <= spec_adjust_seq(q, ops).base() <= SCALE,
        0 <= spec_adjust_seq(q, ops).eff() <= SCALE,
    decreases ops.len(),
{
    if ops.len() > 0 {
        lemma_adjust_wf(q, ops[0]);
        lemma_clamp_invariant_for_all_sequences(spec_adjust(q, ops[0]), ops.drop_first());
    }
}

/// Commit semantics: committing `d1` and then committing `d2` folds the
/// first call's temporary value into the base.  After the second call the
/// base equals the first call's base plus `d1`, clamped, and the stack is
/// exactly `d2`.
pub proof fn lemma_commit_then_commit(q: Quantity, d1: int, d2: int)
    requires
        q.wf(),
        -STACK_LIMIT <= d1 <= STACK_LIMIT,
        -STACK_LIMIT <= d2 <= STACK_LIMIT,
    ensures
        ({
            let q1 = Quantity::with_parts(q.eff(), d1);
            let q2 = Quantity::with_parts(q1.eff(), d2);
            q2.base() == spec_clamp_unit(q1.base() + d1) && q2.stack() == d2
        }),
{
}

/// Stacking semantics: stacking `d1` and then `d2` yields a stack of
/// exactly `d1 + d2`, with no clamping of the stack itself and no change
/// to the base.
pub proof fn lemma_stack_then_stack(q: Quantity, d1: int, d2: int)
    requires
        q.wf(),
        -STACK_LIMIT <= q.stack() + d1 <= STACK_LIMIT,
        -STACK_LIMIT <= q.stack() + d1 + d2 <= STACK_LIMIT,
    ensures
        ({
            let q1 = Quantity::with_parts(q.base(), q.stack() + d1);
            let q2 = Quantity::with_parts(q1.base(), q1.stack() + d2);
            q2.stack() == q.stack() + d1 + d2 && q2.base() == q.base()
        }),
{
}

/// The three named quantities of the game, owned together so that every
/// rule that touches them takes the store by reference.
pub struct QuantityStore {
    /// Shot accuracy and focus; high values produce tighter, more
    /// powerful bullet spreads.  Decreases on sustained misses.
    pub coherence: Quantity,
    /// Overheating; reaching 1.0 is the game-over condition.
    pub fever: Quantity,
    /// Win-condition meter; fed by player kills, decays continuously.
    pub fervor: Quantity,
}

/// A terminal outcome of the per-tick threshold check.
#[derive(Clone, Copy, Debug, PartialEq, Eq, Structural)]
pub enum EndCondition {
    /// Fever reached its maximum.
    GameOver,
    /// Fervor's committed value reached the win threshold.
    Win,
}

/// Per-tick decay inputs.  The exponential laws of the quantities need
/// real powers of the timestep, which the caller computes and hands over
/// as fixed-point factors.
#[derive(Clone, Copy, Debug)]
pub struct DecayFactors {
    /// `K^dt - 1` for the coherence decay constant `K = 2`: the fraction
    /// of a pending coherence loss that becomes permanent this tick.
    pub coherence_growth: i64,
    /// `D^dt` for the fever decay constant `D = 0.3`: the fraction of
    /// the fever stack that survives this tick.
    pub fever_retention: i64,
    /// The timestep itself, in fixed-point seconds.
    pub dt: i64,
}

impl DecayFactors {
    /// The factors a timestep of at most one second can produce: both
    /// exponential factors lie in the unit interval.
    pub open spec fn wf(self) -> bool {
        &&& 0 <= self.coherence_growth <= SCALE
        &&& 0 <= self.fever_retention <= SCALE
        &&& 0 <= self.dt <= SCALE
    }
}

impl QuantityStore {
    pub open spec fn wf(self) -> bool {
        self.coherence.wf() && self.fever.wf() && self.fervor.wf()
    }

    /// The store at game start.
    pub fn new() -> (s: QuantityStore)
        ensures
            s.coherence == Quantity::with_parts(COHERENCE_INITIAL as int, 0),
            s.fever == Quantity::with_parts(FEVER_INITIAL as int, 0),
            s.fervor == Quantity::with_parts(FERVOR_INITIAL as int, 0),
            s.coherence.base() == COHERENCE_INITIAL && s.coherence.stack() == 0,
            s.fever.base() == FEVER_INITIAL && s.fever.stack() == 0,
            s.fervor.base() == FERVOR_INITIAL && s.fervor.stack() == 0,
            s.wf(),
    {
        QuantityStore {
            coherence: Quantity::new(COHERENCE_INITIAL),
            fever: Quantity::new(FEVER_INITIAL),
            fervor: Quantity::new(FERVOR_INITIAL),
        }
    }

    /// Start a new game: every quantity returns to its initial value
    /// with no pending state.
    pub fn reset(&mut self)
        requires
            old(self).wf(),
        ensures
            final(self).coherence == Quantity::with_parts(COHERENCE_INITIAL as int, 0),
            final(self).fever == Quantity::with_parts(FEVER_INITIAL as int, 0),
            final(self).fervor == Quantity::with_parts(FERVOR_INITIAL as int, 0),
            final(self).coherence.base() == COHERENCE_INITIAL && final(self).coherence.stack() == 0,
            final(self).fever.base() == FEVER_INITIAL && final(self).fever.stack() == 0,
            final(self).fervor.base() == FERVOR_INITIAL && final(self).fervor.stack() == 0,
            final(self).wf(),
    {
        self.coherence.reset_to(COHERENCE_INITIAL);
        self.fever.reset_to(FEVER_INITIAL);
        self.fervor.reset_to(FERVOR_INITIAL);
    }
}

/// Whether the player is "together" enough that kills feed fervor:
/// coherence's effective value exceeds fever's.
pub fn fervor_is_active(fever: &Quantity, coherence: &Quantity) -> (r: bool)
    requires
        fever.wf(),
        coherence.wf(),
    ensures
        r == (coherence.eff() > fever.eff()),
{
    coherence.effective_value() > fever.effective_value()
}

/// The terminal outcome the store calls for, if any: maximal fever ends
/// the game, and otherwise a fervor base at or above the win threshold
/// wins it.  The fever check short-circuits the fervor check.
pub open spec fn spec_end_condition(s: QuantityStore) -> Option<EndCondition> {
    if s.fever.eff() == SCALE {
        Some(EndCondition::GameOver)
    } else if s.fervor.base() >= WIN_THRESHOLD {
        Some(EndCondition::Win)
    } else {
        None
    }
}

/// Coherence decay: the fraction `growth` of the pending stack migrates
/// into the base, so an uncorrected loss gradually becomes permanent.
pub open spec fn spec_coherence_decay(q: Quantity, growth: int) -> Quantity {
    let change = spec_scale_mul(q.stack(), growth);
    Quantity::with_parts(spec_clamp_unit(q.base() + change), q.stack() - change)
}

/// Fever decay: the stack shrinks multiplicatively and never becomes
/// permanent.
pub open spec fn spec_fever_decay(q: Quantity, retention: int) -> Quantity {
    Quantity::with_parts(q.base(), spec_scale_mul(q.stack(), retention))
}

/// Fervor decay: part of the stack migrates into the base at a fixed
/// fractional rate, and the stack additionally decays linearly down to a
/// floor of the larger of `FERVOR_STACK_FLOOR` and the negated base.
pub open spec fn spec_fervor_decay(q: Quantity, dt: int) -> Quantity {
    let change = spec_scale_mul(spec_scale_mul(q.stack(), FERVOR_MIGRATION_RATE as int), dt);
    let base1 = spec_clamp_unit(q.base() + change);
    let stack1 = q.stack() - change;
    let floor1 = if -base1 > FERVOR_STACK_FLOOR { -base1 } else { FERVOR_STACK_FLOOR as int };
    let stack2 = stack1 - spec_scale_mul(FERVOR_LINEAR_DECAY as int, dt);
    Quantity::with_parts(base1, if stack2 > floor1 { stack2 } else { floor1 })
}

/// One scheduled pass over the store: apply each quantity's decay law,
/// then check the win and lose thresholds on the decayed values.
pub fn quantity_behaviors(store: &mut QuantityStore, factors: DecayFactors)
    -> (end: Option<EndCondition>)
    requires
        old(store).wf(),
        factors.wf(),
    ensures
        end == spec_end_condition(*final(store)),
        final(store).coherence == spec_coherence_decay(
            old(store).coherence, factors.coherence_growth as int),
        final(store).fever == spec_fever_decay(
            old(store).fever, factors.fever_retention as int),
        final(store).fervor == spec_fervor_decay(old(store).fervor, factors.dt as int),
        final(store).wf(),
        // The same decay laws, spelled out value by value.
        ({
            let coherence_change = spec_scale_mul(
                old(store).coherence.stack(), factors.coherence_growth as int);
            &&& final(store).coherence.base()
                    == spec_clamp_unit(old(store).coherence.base() + coherence_change)
            &&& final(store).coherence.stack()
                    == old(store).coherence.stack() - coherence_change
        }),
        final(store).fever.base() == old(store).fever.base(),
        final(store).fever.stack() == spec_scale_mul(
            old(store).fever.stack(), factors.fever_retention as int),
        ({
            let fervor_change = spec_scale_mul(
                spec_scale_mul(old(store).fervor.stack(), FERVOR_MIGRATION_RATE as int),
                factors.dt as int);
            let fervor_base = spec_clamp_unit(old(store).fervor.base() + fervor_change);
            let fervor_floor = if -fervor_base > FERVOR_STACK_FLOOR {
                -fervor_base
            } else {
                FERVOR_STACK_FLOOR as int
            };
            let fervor_stack = old(store).fervor.stack() - fervor_change
                - spec_scale_mul(FERVOR_LINEAR_DECAY as int, factors.dt as int);
            &&& final(store).fervor.base() == fervor_base
            &&& final(store).fervor.stack()
                    == if fervor_stack > fervor_floor { fervor_stack } else { fervor_floor }
        }),
{
    // Loss of coherence becomes permanent if not removed.
    let coherence_stack = store.coherence.temporary_stack();
    proof {
        lemma_unit_product_fits(coherence_stack as int, factors.coherence_growth as int);
        lemma_scale_mul_bounds(coherence_stack as int, factors.coherence_growth as int);
    }
    let coherence_change = scale_mul(coherence_stack, factors.coherence_growth);
    store.coherence.adjust_permanent_keeping_temporary_absolutely(coherence_change);

    // Excess fever goes away if not committed.
    let fever_stack = store.fever.temporary_stack();
    proof {
        lemma_unit_product_fits(fever_stack as int, factors.fever_retention as int);
        lemma_scale_mul_bounds(fever_stack as int, factors.fever_retention as int);
    }
    let fever_remaining = scale_mul(fever_stack, factors.fever_retention);
    store.fever.set_temporary(fever_remaining);

    // Fervor's permanent value moves towards its temporary value.
    let fervor_stack = store.fervor.temporary_stack();
    proof {
        lemma_unit_product_fits(fervor_stack as int, FERVOR_MIGRATION_RATE as int);
        lemma_scale_mul_bounds(fervor_stack as int, FERVOR_MIGRATION_RATE as int);
    }
    let fervor_migration = scale_mul(fervor_stack, FERVOR_MIGRATION_RATE);
    proof {
        lemma_unit_product_fits(fervor_migration as int, factors.dt as int);
        lemma_scale_mul_bounds(fervor_migration as int, factors.dt as int);
    }
    let fervor_change = scale_mul(fervor_migration, factors.dt);
    store.fervor.adjust_permanent_keeping_temporary_absolutely(fervor_change);

    // Temporary fervor goes down linearly until it hits a most-negative
    // value of FERVOR_STACK_FLOOR or the base value, whichever is higher.
    proof {
        lemma_unit_product_fits(FERVOR_LINEAR_DECAY as int, factors.dt as int);
        lemma_scale_mul_bounds(FERVOR_LINEAR_DECAY as int, factors.dt as int);
    }
    let linear = scale_mul(FERVOR_LINEAR_DECAY, factors.dt);
    let base = store.fervor.base_value();
    let floor1: i64 = if -base > FERVOR_STACK_FLOOR { -base } else { FERVOR_STACK_FLOOR };
    let stack2 = store.fervor.temporary_stack() - linear;
    store.fervor.set_temporary(if stack2 > floor1 { stack2 } else { floor1 });

    // Win and lose conditions, on the decayed values; their side
    // effects belong to the caller.
    if store.fever.effective_value() == SCALE {
        Some(EndCondition::GameOver)
    } else if store.fervor.base_value() >= WIN_THRESHOLD {
        Some(EndCondition::Win)
    } else {
        None
    }
}

} // verus!
