//! Tests for hit resolution, the death sweep, bullet lifecycle, and the
//! player-health-is-fever coupling.

use shmup_core::combat::{
    death_sweep, expire_bullets, player_health_is_fever, resolve_hits, tick_lifetime,
    Attackable, Bullet, BulletStatus, DeathCommand, Target, Team,
};
use shmup_core::fixed::SCALE;
use shmup_core::pickup::Pickup;
use shmup_core::quantity::Quantity;

fn bullet(team: Team, damage: u8) -> Bullet {
    Bullet {
        damage,
        team,
        lifetime: 20_000,
        status: BulletStatus::Flying,
    }
}

fn enemy_target(health: u8) -> Target {
    Target {
        team: Team::Enemy,
        attackable: Attackable::new(health, true),
        carried_pickup: Some(Pickup::Cool(1_000)),
    }
}

#[test]
fn should_hurt_covers_all_pairs() {
    assert!(!Team::Player.should_hurt(Team::Player));
    assert!(!Team::Enemy.should_hurt(Team::Enemy));
    assert!(Team::Player.should_hurt(Team::Enemy));
    assert!(Team::Enemy.should_hurt(Team::Player));
}

#[test]
fn hit_reduces_health_and_attributes() {
    let mut bullets = vec![bullet(Team::Player, 3)];
    let mut targets = vec![enemy_target(10)];
    let overlaps = vec![vec![0]];
    let mut coherence = Quantity::new(5_000);
    let report = resolve_hits(&mut bullets, &mut targets, &overlaps, &mut coherence);
    assert_eq!(targets[0].attackable.health, 7);
    assert_eq!(targets[0].attackable.last_hit_by, Some(Team::Player));
    assert_eq!(report.hurt, vec![0]);
    assert_eq!(report.touched, vec![0]);
    assert!(report.killed.is_empty());
    assert_eq!(bullets[0].lifetime, 0);
    assert_eq!(bullets[0].status, BulletStatus::ResolvedThisTick);
}

#[test]
fn friendly_fire_never_applies() {
    let mut bullets = vec![bullet(Team::Enemy, 3)];
    let mut targets = vec![enemy_target(10)];
    let overlaps = vec![vec![0]];
    let mut coherence = Quantity::new(5_000);
    let report = resolve_hits(&mut bullets, &mut targets, &overlaps, &mut coherence);
    assert_eq!(targets[0].attackable.health, 10);
    assert!(report.hurt.is_empty());
    assert_eq!(bullets[0].status, BulletStatus::Flying);
}

#[test]
fn saturating_damage_never_underflows() {
    let mut bullets = vec![bullet(Team::Player, 200)];
    let mut targets = vec![enemy_target(10)];
    let overlaps = vec![vec![0]];
    let mut coherence = Quantity::new(0);
    let report = resolve_hits(&mut bullets, &mut targets, &overlaps, &mut coherence);
    assert_eq!(targets[0].attackable.health, 0);
    assert_eq!(report.killed, vec![0]);
}

#[test]
fn wide_bullet_cleaves_several_targets() {
    // A single bullet overlapping two enemies damages both in one tick.
    let mut bullets = vec![bullet(Team::Player, 4)];
    let mut targets = vec![enemy_target(10), enemy_target(3)];
    let overlaps = vec![vec![0, 1]];
    let mut coherence = Quantity::new(0);
    let report = resolve_hits(&mut bullets, &mut targets, &overlaps, &mut coherence);
    assert_eq!(targets[0].attackable.health, 6);
    assert_eq!(targets[1].attackable.health, 0);
    assert_eq!(report.hurt, vec![0, 1]);
    assert_eq!(report.killed, vec![1]);
}

#[test]
fn player_hit_cancels_pending_coherence_loss() {
    let mut bullets = vec![bullet(Team::Player, 1)];
    let mut targets = vec![enemy_target(10)];
    let overlaps = vec![vec![0]];
    let mut coherence = Quantity::new(5_000);
    coherence.adjust_temporary_stacking_with_previous(-2_000);
    resolve_hits(&mut bullets, &mut targets, &overlaps, &mut coherence);
    assert_eq!(coherence.temporary_stack(), 0);
    assert_eq!(coherence.base_value(), 5_000);
}

#[test]
fn enemy_hit_leaves_coherence_alone() {
    let mut bullets = vec![bullet(Team::Enemy, 1)];
    let mut targets = vec![Target {
        team: Team::Player,
        attackable: Attackable::new(255, false),
        carried_pickup: None,
    }];
    let overlaps = vec![vec![0]];
    let mut coherence = Quantity::new(5_000);
    coherence.adjust_temporary_stacking_with_previous(-2_000);
    resolve_hits(&mut bullets, &mut targets, &overlaps, &mut coherence);
    assert_eq!(coherence.temporary_stack(), -2_000);
}

#[test]
fn invalid_collider_index_is_skipped() {
    let mut bullets = vec![bullet(Team::Player, 3)];
    let mut targets = vec![enemy_target(10)];
    let overlaps = vec![vec![7]];
    let mut coherence = Quantity::new(0);
    let report = resolve_hits(&mut bullets, &mut targets, &overlaps, &mut coherence);
    assert!(report.hurt.is_empty());
    assert_eq!(bullets[0].status, BulletStatus::Flying);
}

#[test]
fn two_bullets_one_kill_credit() {
    // Two bullets overlap the same low-health target the same tick:
    // only the first applies, and the sweep runs the kill side effects
    // exactly once.
    let mut bullets = vec![bullet(Team::Player, 5), bullet(Team::Player, 5)];
    let mut targets = vec![enemy_target(2)];
    let overlaps = vec![vec![0], vec![0]];
    let mut coherence = Quantity::new(8_000);
    let report = resolve_hits(&mut bullets, &mut targets, &overlaps, &mut coherence);
    assert_eq!(report.killed, vec![0]);
    assert_eq!(report.hurt, vec![0]);
    assert_eq!(report.touched, vec![0]);
    // The second bullet never applied a hit and flies on.
    assert_eq!(bullets[0].status, BulletStatus::ResolvedThisTick);
    assert_eq!(bullets[1].status, BulletStatus::Flying);

    let fever = Quantity::new(2_000);
    let mut fervor = Quantity::new(0);
    let commands = death_sweep(&targets, &report.touched, &fever, &coherence, &mut fervor);
    let despawns = commands
        .iter()
        .filter(|c| matches!(c, DeathCommand::Despawn(0)))
        .count();
    assert_eq!(despawns, 1);
    let bursts = commands
        .iter()
        .filter(|c| matches!(c, DeathCommand::SpawnParticles(0)))
        .count();
    assert_eq!(bursts, 1);
    // Fervor was credited exactly once: 0.0301 + 0.03 * max(0, 0.4).
    assert_eq!(fervor.temporary_stack(), 421);
}

#[test]
fn death_sweep_skips_living_targets() {
    let targets = vec![enemy_target(4)];
    let dirty = vec![0];
    let fever = Quantity::new(2_000);
    let coherence = Quantity::new(8_000);
    let mut fervor = Quantity::new(0);
    let commands = death_sweep(&targets, &dirty, &fever, &coherence, &mut fervor);
    assert!(commands.is_empty());
    assert_eq!(fervor.temporary_stack(), 0);
}

#[test]
fn death_sweep_orders_drop_particles_despawn() {
    let mut target = enemy_target(2);
    target.attackable.health = 0;
    target.attackable.last_hit_by = Some(Team::Player);
    let targets = vec![target];
    let dirty = vec![0];
    let fever = Quantity::new(2_000);
    let coherence = Quantity::new(8_000);
    let mut fervor = Quantity::new(0);
    let commands = death_sweep(&targets, &dirty, &fever, &coherence, &mut fervor);
    assert_eq!(
        commands,
        vec![
            DeathCommand::DropPickup(0),
            DeathCommand::SpawnParticles(0),
            DeathCommand::Despawn(0),
        ]
    );
}

#[test]
fn no_fervor_credit_without_active_fervor() {
    // Coherence does not exceed fever: the kill pays nothing.
    let mut target = enemy_target(2);
    target.attackable.health = 0;
    target.attackable.last_hit_by = Some(Team::Player);
    let targets = vec![target];
    let dirty = vec![0];
    let fever = Quantity::new(8_000);
    let coherence = Quantity::new(2_000);
    let mut fervor = Quantity::new(0);
    death_sweep(&targets, &dirty, &fever, &coherence, &mut fervor);
    assert_eq!(fervor.temporary_stack(), 0);
}

#[test]
fn no_fervor_credit_for_enemy_kills() {
    let mut target = Target {
        team: Team::Player,
        attackable: Attackable::new(255, false),
        carried_pickup: None,
    };
    target.attackable.health = 0;
    target.attackable.last_hit_by = Some(Team::Enemy);
    let targets = vec![target];
    let dirty = vec![0];
    let fever = Quantity::new(2_000);
    let coherence = Quantity::new(8_000);
    let mut fervor = Quantity::new(0);
    let commands = death_sweep(&targets, &dirty, &fever, &coherence, &mut fervor);
    assert_eq!(fervor.temporary_stack(), 0);
    assert_eq!(commands, vec![DeathCommand::Despawn(0)]);
}

#[test]
fn combo_kills_escalate_fervor() {
    // Two kills in one sweep: the second credit reads the stack the
    // first one left, but the combo floor still dominates below 0.4.
    let mut dead = enemy_target(1);
    dead.attackable.health = 0;
    dead.attackable.last_hit_by = Some(Team::Player);
    let targets = vec![dead, dead];
    let dirty = vec![0, 1];
    let fever = Quantity::new(2_000);
    let coherence = Quantity::new(8_000);
    let mut fervor = Quantity::new(0);
    death_sweep(&targets, &dirty, &fever, &coherence, &mut fervor);
    assert_eq!(fervor.temporary_stack(), 842);

    // With a tall stack the credit scales with it: 0.0301 + 0.03 * 0.5.
    let mut fervor_high = Quantity::new(0);
    fervor_high.adjust_temporary_stacking_with_previous(5_000);
    death_sweep(&targets, &vec![0], &fever, &coherence, &mut fervor_high);
    assert_eq!(fervor_high.temporary_stack(), 5_000 + 301 + 150);
}

#[test]
fn kill_credit_is_discarded_without_stack_headroom() {
    // A fervor stack already at the representable limit cannot take the
    // credit: the mutation is dropped, as invalid numeric results are.
    let mut dead = enemy_target(1);
    dead.attackable.health = 0;
    dead.attackable.last_hit_by = Some(Team::Player);
    let targets = vec![dead];
    let dirty = vec![0];
    let fever = Quantity::new(2_000);
    let coherence = Quantity::new(8_000);
    let mut fervor = Quantity::new(0);
    fervor.adjust_temporary_stacking_with_previous(10_000_000_000);
    let commands = death_sweep(&targets, &dirty, &fever, &coherence, &mut fervor);
    assert_eq!(fervor.temporary_stack(), 10_000_000_000);
    // The rest of the kill sequence still runs.
    assert!(commands.contains(&DeathCommand::Despawn(0)));
}

#[test]
fn hit_bullet_lives_out_the_tick_and_sweeps_next() {
    let mut bullets = vec![bullet(Team::Player, 3)];
    let mut targets = vec![enemy_target(10)];
    let overlaps = vec![vec![0]];
    let mut coherence = Quantity::new(0);
    resolve_hits(&mut bullets, &mut targets, &overlaps, &mut coherence);
    // End of the hit tick: the bullet is resolved, not yet removed.
    assert_eq!(bullets[0].status, BulletStatus::ResolvedThisTick);
    assert_eq!(bullets[0].lifetime, 0);
    // Start of the following tick: the expiry pass removes it.
    let removed = expire_bullets(&mut bullets, 156);
    assert_eq!(removed, vec![0]);
    assert_eq!(bullets[0].status, BulletStatus::PendingRemoval);
}

#[test]
fn flying_bullets_expire_by_lifetime() {
    let mut bullets = vec![bullet(Team::Player, 1), bullet(Team::Enemy, 1)];
    bullets[1].lifetime = 100;
    let removed = expire_bullets(&mut bullets, 156);
    assert_eq!(removed, vec![1]);
    assert_eq!(bullets[0].lifetime, 20_000 - 156);
    assert_eq!(bullets[0].status, BulletStatus::Flying);
}

#[test]
fn lifetime_ticks_down_and_expires() {
    let mut lifetime: i64 = 400;
    assert!(!tick_lifetime(&mut lifetime, 156));
    assert_eq!(lifetime, 244);
    assert!(tick_lifetime(&mut lifetime, 244));
    // A zero timestep keeps a live entity alive but still sweeps one
    // whose lifetime was forced to zero.
    let mut spent: i64 = 0;
    assert!(tick_lifetime(&mut spent, 0));
    assert!(!tick_lifetime(&mut lifetime, 0));
}

#[test]
fn register_hurt_reports_lethal_and_pulses_once() {
    let mut attackable = Attackable::new(5, false);
    assert!(!attackable.register_hurt());
    assert_eq!(attackable.hurt_animation_cooldown, 1_000);
    // A second hit within the window does not restart the pulse.
    attackable.tick_hurt_animation(300);
    assert!(!attackable.register_hurt());
    assert_eq!(attackable.hurt_animation_cooldown, 700);
    attackable.health = 0;
    assert!(attackable.register_hurt());
}

#[test]
fn hurt_animation_flash_decays_to_zero() {
    let mut attackable = Attackable::new(5, false);
    attackable.register_hurt();
    assert!(attackable.tick_hurt_animation(600));
    assert!(attackable.tick_hurt_animation(600));
    assert_eq!(attackable.hurt_animation_cooldown, 0);
    assert!(!attackable.tick_hurt_animation(600));
}

#[test]
fn player_damage_becomes_fever() {
    let mut health: u8 = 254;
    let mut fever = Quantity::new(5_000);
    let mut fervor = Quantity::new(3_000);
    player_health_is_fever(&mut health, &mut fever, &mut fervor);
    // One missing health point is 0.1 fever, health refills, fervor
    // is fully cancelled.
    assert_eq!(health, u8::MAX);
    assert_eq!(fever.base_value(), 6_000);
    assert_eq!(fervor.base_value(), 0);
    assert_eq!(fervor.temporary_stack(), 0);
}

#[test]
fn player_at_full_health_is_untouched() {
    let mut health: u8 = u8::MAX;
    let mut fever = Quantity::new(5_000);
    let mut fervor = Quantity::new(3_000);
    player_health_is_fever(&mut health, &mut fever, &mut fervor);
    assert_eq!(health, u8::MAX);
    assert_eq!(fever.base_value(), 5_000);
    assert_eq!(fervor.base_value(), 3_000);
}

#[test]
fn massive_damage_at_fever_cap_forces_death() {
    // A 255-point damage event at the tick fever reaches exactly 1.0:
    // health is forced to zero instead of refilling.
    let mut health: u8 = 0;
    let mut fever = Quantity::new(5_000);
    let mut fervor = Quantity::new(3_000);
    player_health_is_fever(&mut health, &mut fever, &mut fervor);
    assert_eq!(fever.effective_value(), SCALE);
    assert_eq!(health, 0);
    assert_eq!(fervor.base_value(), 0);
}

#[test]
fn damage_over_three_ticks_then_death() {
    // Health 10 takes 3, 3, then 5: the sequence is 10, 7, 4, 0, and
    // the following sweep despawns the target.
    let mut targets = vec![enemy_target(10)];
    let mut coherence = Quantity::new(0);
    for expected in [7u8, 4u8] {
        let mut bullets = vec![bullet(Team::Player, 3)];
        let overlaps = vec![vec![0]];
        resolve_hits(&mut bullets, &mut targets, &overlaps, &mut coherence);
        assert_eq!(targets[0].attackable.health, expected);
    }
    let mut bullets = vec![bullet(Team::Player, 5)];
    let overlaps = vec![vec![0]];
    let report = resolve_hits(&mut bullets, &mut targets, &overlaps, &mut coherence);
    assert_eq!(targets[0].attackable.health, 0);
    assert_eq!(report.killed, vec![0]);
    let fever = Quantity::new(5_000);
    let mut fervor = Quantity::new(0);
    let commands = death_sweep(&targets, &report.touched, &fever, &coherence, &mut fervor);
    assert!(commands.contains(&DeathCommand::Despawn(0)));
}
