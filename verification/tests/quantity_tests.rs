//! Tests for the quantity model: adjustment semantics, decay laws, and
//! the win/lose thresholds.

use shmup_core::fixed::SCALE;
use shmup_core::quantity::{
    DecayFactors, EndCondition, Quantity, QuantityStore, COHERENCE_INITIAL, FEVER_INITIAL,
    FERVOR_INITIAL,
};

fn q(base: i64) -> Quantity {
    Quantity::new(base)
}

#[test]
fn new_quantity_has_no_stack() {
    let quantity = q(5_000);
    assert_eq!(quantity.base_value(), 5_000);
    assert_eq!(quantity.temporary_stack(), 0);
    assert_eq!(quantity.effective_value(), 5_000);
    assert_eq!(quantity.unclamped_effective_value(), 5_000);
}

#[test]
fn effective_value_clamps_overshoot() {
    let mut quantity = q(8_000);
    quantity.adjust_temporary_stacking_with_previous(5_000);
    assert_eq!(quantity.unclamped_effective_value(), 13_000);
    assert_eq!(quantity.effective_value(), SCALE);
    quantity.adjust_temporary_stacking_with_previous(-20_000);
    assert_eq!(quantity.unclamped_effective_value(), -7_000);
    assert_eq!(quantity.effective_value(), 0);
}

#[test]
fn clamp_invariant_over_adjustment_sequence() {
    // The base stays within [0, SCALE] through an arbitrary mix of
    // adjustments with large deltas.
    let mut quantity = q(5_000);
    quantity.adjust_permanent_including_temporary(1_000_000);
    assert_eq!(quantity.base_value(), SCALE);
    quantity.adjust_permanent_clearing_temporary(-2_000_000);
    assert_eq!(quantity.base_value(), 0);
    quantity.adjust_temporary_stacking_with_previous(123_456);
    quantity.adjust_permanent_keeping_temporary(700_000);
    assert_eq!(quantity.base_value(), SCALE);
    quantity.adjust_permanent_keeping_temporary_absolutely(-40_000);
    assert_eq!(quantity.base_value(), 0);
    quantity.adjust_temporary_and_commit_previous_temporary(-5);
    assert!(quantity.base_value() >= 0 && quantity.base_value() <= SCALE);
    assert!(quantity.effective_value() >= 0 && quantity.effective_value() <= SCALE);
}

#[test]
fn include_temporary_folds_stack_and_clears() {
    let mut quantity = q(3_000);
    quantity.adjust_temporary_stacking_with_previous(2_000);
    quantity.adjust_permanent_including_temporary(1_000);
    // clamp(clamp(3000 + 2000) + 1000)
    assert_eq!(quantity.base_value(), 6_000);
    assert_eq!(quantity.temporary_stack(), 0);
}

#[test]
fn clearing_temporary_ignores_stack() {
    let mut quantity = q(3_000);
    quantity.adjust_temporary_stacking_with_previous(2_000);
    quantity.adjust_permanent_clearing_temporary(1_000);
    assert_eq!(quantity.base_value(), 4_000);
    assert_eq!(quantity.temporary_stack(), 0);
}

#[test]
fn keeping_temporary_preserves_stack() {
    let mut quantity = q(3_000);
    quantity.adjust_temporary_stacking_with_previous(2_000);
    quantity.adjust_permanent_keeping_temporary(1_000);
    assert_eq!(quantity.base_value(), 4_000);
    assert_eq!(quantity.temporary_stack(), 2_000);
}

#[test]
fn keeping_temporary_absolutely_migrates_value() {
    let mut quantity = q(3_000);
    quantity.adjust_temporary_stacking_with_previous(2_000);
    quantity.adjust_permanent_keeping_temporary_absolutely(500);
    // base + stack is preserved across the migration
    assert_eq!(quantity.base_value(), 3_500);
    assert_eq!(quantity.temporary_stack(), 1_500);
}

#[test]
fn commit_semantics_two_calls() {
    // After two commit calls the first call's temporary value is folded
    // into the base and the stack is exactly the second delta.
    let mut quantity = q(2_000);
    let base_before = quantity.base_value();
    quantity.adjust_temporary_and_commit_previous_temporary(1_500);
    quantity.adjust_temporary_and_commit_previous_temporary(-700);
    assert_eq!(quantity.base_value(), base_before + 1_500);
    assert_eq!(quantity.temporary_stack(), -700);
}

#[test]
fn stacking_semantics_adds_exactly() {
    let mut quantity = q(2_000);
    quantity.adjust_temporary_stacking_with_previous(1_500);
    quantity.adjust_temporary_stacking_with_previous(4_200);
    assert_eq!(quantity.temporary_stack(), 5_700);
    assert_eq!(quantity.base_value(), 2_000);
    // No clamping on the stack itself, even far past 1.0.
    quantity.adjust_temporary_stacking_with_previous(100_000);
    assert_eq!(quantity.temporary_stack(), 105_700);
}

#[test]
fn reset_to_clamps_and_clears() {
    let mut quantity = q(2_000);
    quantity.adjust_temporary_stacking_with_previous(1_500);
    quantity.reset_to(99_999);
    assert_eq!(quantity.base_value(), SCALE);
    assert_eq!(quantity.temporary_stack(), 0);
    quantity.reset_to(-3);
    assert_eq!(quantity.base_value(), 0);
}

#[test]
fn store_initial_values() {
    let store = QuantityStore::new();
    assert_eq!(store.coherence.base_value(), COHERENCE_INITIAL);
    assert_eq!(store.fever.base_value(), FEVER_INITIAL);
    assert_eq!(store.fervor.base_value(), FERVOR_INITIAL);
    assert_eq!(store.fever.base_value(), 5_000);
}

#[test]
fn store_reset_restores_initial_values() {
    let mut store = QuantityStore::new();
    store.coherence.adjust_permanent_clearing_temporary(4_000);
    store.fever.adjust_temporary_stacking_with_previous(2_000);
    store.fervor.adjust_permanent_clearing_temporary(9_999);
    store.reset();
    assert_eq!(store.coherence.base_value(), COHERENCE_INITIAL);
    assert_eq!(store.fever.base_value(), FEVER_INITIAL);
    assert_eq!(store.fever.temporary_stack(), 0);
    assert_eq!(store.fervor.base_value(), FERVOR_INITIAL);
}

/// Factors for a full one-second step with the game's decay constants:
/// coherence `K = 2` gives `2^1 - 1 = 1.0`, fever `D = 0.3` gives `0.3`.
fn one_second_factors() -> DecayFactors {
    DecayFactors {
        coherence_growth: SCALE,
        fever_retention: 3_000,
        dt: SCALE,
    }
}

#[test]
fn coherence_miss_penalty_commits_in_one_second() {
    // A pending miss penalty of -0.2 on base 0.5, with K = 2 and
    // dt = 1: the whole penalty becomes permanent in one step.
    let mut store = QuantityStore::new();
    store.coherence.reset_to(5_000);
    store.coherence.adjust_temporary_stacking_with_previous(-2_000);
    let end = shmup_core::quantity::quantity_behaviors(&mut store, one_second_factors());
    assert!(end.is_none());
    assert_eq!(store.coherence.base_value(), 3_000);
    assert_eq!(store.coherence.temporary_stack(), 0);
}

#[test]
fn fever_stack_decays_multiplicatively() {
    let mut store = QuantityStore::new();
    store.fever.adjust_temporary_stacking_with_previous(2_000);
    shmup_core::quantity::quantity_behaviors(&mut store, one_second_factors());
    // 0.2 * 0.3 = 0.06, and the base is untouched.
    assert_eq!(store.fever.temporary_stack(), 600);
    assert_eq!(store.fever.base_value(), FEVER_INITIAL);
}

#[test]
fn fervor_stack_migrates_and_decays_linearly() {
    let mut store = QuantityStore::new();
    store.fervor.reset_to(5_000);
    store.fervor.adjust_temporary_stacking_with_previous(1_000);
    shmup_core::quantity::quantity_behaviors(&mut store, one_second_factors());
    // Migration: 0.1 * 0.3 = 0.03 moves into the base.
    assert_eq!(store.fervor.base_value(), 5_300);
    // Linear decay: 0.07 - 0.06 = 0.01 remains pending.
    assert_eq!(store.fervor.temporary_stack(), 100);
}

#[test]
fn fervor_stack_decay_stops_at_floor() {
    let mut store = QuantityStore::new();
    store.fervor.reset_to(5_000);
    // With no stack, the linear decay would go negative but stops at
    // the floor of -0.1.
    for _ in 0..5 {
        shmup_core::quantity::quantity_behaviors(&mut store, one_second_factors());
    }
    assert_eq!(store.fervor.temporary_stack(), -1_000);
}

#[test]
fn fervor_stack_floor_is_negated_base_when_base_is_low() {
    let mut store = QuantityStore::new();
    store.fervor.reset_to(500);
    shmup_core::quantity::quantity_behaviors(&mut store, one_second_factors());
    // The stack may not fall below -base = -0.05.
    assert_eq!(store.fervor.temporary_stack(), -500);
}

#[test]
fn maximal_fever_triggers_game_over() {
    // Fever at base 0.5 takes a +0.6 unmitigated increase: the result
    // clamps to exactly 1.0 and the next threshold check ends the game.
    let mut store = QuantityStore::new();
    store.fever.adjust_permanent_including_temporary(6_000);
    assert_eq!(store.fever.effective_value(), SCALE);
    assert_eq!(store.fever.temporary_stack(), 0);
    let end = shmup_core::quantity::quantity_behaviors(&mut store, one_second_factors());
    assert_eq!(end, Some(EndCondition::GameOver));
}

#[test]
fn pending_fever_dip_does_not_avert_game_over() {
    // Fever sits at 1.0 with a tiny pending dip.  The dip decays away
    // this very tick, and the threshold check runs on the decayed
    // values: the game ends now, not a tick late.
    let mut store = QuantityStore::new();
    store.fever.reset_to(SCALE);
    store.fever.adjust_temporary_stacking_with_previous(-1);
    assert!(store.fever.effective_value() < SCALE);
    let end = shmup_core::quantity::quantity_behaviors(&mut store, one_second_factors());
    assert_eq!(store.fever.effective_value(), SCALE);
    assert_eq!(end, Some(EndCondition::GameOver));
}

#[test]
fn high_fervor_base_wins() {
    let mut store = QuantityStore::new();
    store.fervor.reset_to(9_990);
    let end = shmup_core::quantity::quantity_behaviors(&mut store, one_second_factors());
    assert_eq!(end, Some(EndCondition::Win));
}

#[test]
fn fervor_win_needs_the_base_not_the_stack() {
    // The effective value tops the threshold, but the committed base
    // (0.95, and 0.98 after this tick's migration) does not: no win.
    let mut store = QuantityStore::new();
    store.fervor.reset_to(9_500);
    store.fervor.adjust_temporary_stacking_with_previous(1_000);
    let end = shmup_core::quantity::quantity_behaviors(&mut store, one_second_factors());
    assert!(end.is_none());
    assert_eq!(store.fervor.base_value(), 9_800);
}

#[test]
fn game_over_short_circuits_win() {
    let mut store = QuantityStore::new();
    store.fever.adjust_permanent_including_temporary(SCALE);
    store.fervor.reset_to(SCALE);
    let end = shmup_core::quantity::quantity_behaviors(&mut store, one_second_factors());
    assert_eq!(end, Some(EndCondition::GameOver));
}

#[test]
fn fervor_is_active_compares_effective_values() {
    let mut coherence = q(6_000);
    let fever = q(5_000);
    assert!(shmup_core::quantity::fervor_is_active(&fever, &coherence));
    coherence.reset_to(5_000);
    assert!(!shmup_core::quantity::fervor_is_active(&fever, &coherence));
    coherence.adjust_temporary_stacking_with_previous(1);
    assert!(shmup_core::quantity::fervor_is_active(&fever, &coherence));
}
