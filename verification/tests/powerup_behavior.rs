use arcade_core::geometry::Vec2i;
use arcade_core::humanoid::{Humanoid, HumanoidType};
use arcade_core::powerup::{PowerUp, PowerUpKind, PowerUpManager};

fn player_at(x: i64, y: i64) -> Humanoid {
    Humanoid::new(
        Vec2i { x, y },
        Vec2i { x: 500, y: 500 },
        HumanoidType::Player,
    )
}

#[test]
fn powerup_spawn_gate_follows_interval() {
    let mut m = PowerUpManager::new(0);
    m.spawn_power_up_at(0, Vec2i { x: 0, y: 0 }, PowerUpKind::AdditionalHeart);
    assert!(!m.can_spawn(0));
    assert!(!m.can_spawn(5000));
    assert!(m.can_spawn(5001));
}

#[test]
fn heart_powerup_is_consumed_applied_and_removed() {
    let mut m = PowerUpManager::new(0);
    m.spawn_power_up_at(
        0,
        Vec2i { x: 100_000, y: 100_000 },
        PowerUpKind::AdditionalHeart,
    );
    let mut player = player_at(100_000, 100_000);
    assert_eq!(player.hearts, 0);
    m.check_for_collision(&mut player);
    assert!(m.power_ups_ref()[0].was_consumed);
    assert_eq!(player.hearts, 1);
    m.update(0);
    assert_eq!(m.power_ups_ref().len(), 0);
}

#[test]
fn consumed_powerup_never_applies_twice() {
    let mut m = PowerUpManager::new(0);
    m.spawn_power_up_at(
        0,
        Vec2i { x: 100_000, y: 100_000 },
        PowerUpKind::AdditionalHeart,
    );
    let mut player = player_at(100_000, 100_000);
    m.check_for_collision(&mut player);
    m.check_for_collision(&mut player);
    assert_eq!(player.hearts, 1);
}

#[test]
fn faster_shooting_is_a_recognized_no_op() {
    let mut m = PowerUpManager::new(0);
    m.spawn_power_up_at(
        0,
        Vec2i { x: 100_000, y: 100_000 },
        PowerUpKind::FasterShooting,
    );
    let mut player = player_at(100_000, 100_000);
    m.check_for_collision(&mut player);
    assert!(m.power_ups_ref()[0].was_consumed);
    assert_eq!(player.hearts, 0);
}

#[test]
fn distant_powerup_is_not_collected() {
    let mut m = PowerUpManager::new(0);
    m.spawn_power_up_at(0, Vec2i { x: 0, y: 0 }, PowerUpKind::AdditionalHeart);
    // The player square starts exactly where the power-up's ends.
    let mut player = player_at(32_000, 0);
    m.check_for_collision(&mut player);
    assert!(!m.power_ups_ref()[0].was_consumed);
    assert_eq!(player.hearts, 0);
}

#[test]
fn expired_powerup_is_removed_regardless_of_state() {
    let mut m = PowerUpManager::new(0);
    m.spawn_power_up_at(0, Vec2i { x: 0, y: 0 }, PowerUpKind::FasterShooting);
    // At exactly the expiry age it survives.
    m.update(10_000);
    assert_eq!(m.power_ups_ref().len(), 1);
    // Strictly past it, it goes.
    m.update(10_001);
    assert_eq!(m.power_ups_ref().len(), 0);
}

#[test]
fn young_powerup_survives_update_unchanged() {
    let mut m = PowerUpManager::new(0);
    m.spawn_power_up_at(0, Vec2i { x: 7, y: 9 }, PowerUpKind::AdditionalHeart);
    m.update(8_000);
    let p = &m.power_ups_ref()[0];
    assert_eq!(p.flickering, 0);
    assert_eq!(p.position, Vec2i { x: 7, y: 9 });
    assert!(!p.was_consumed);
}

#[test]
fn powerup_past_warning_age_flickers_after_update() {
    let mut m = PowerUpManager::new(0);
    m.spawn_power_up_at(0, Vec2i { x: 0, y: 0 }, PowerUpKind::AdditionalHeart);
    m.update(8_001);
    assert_eq!(m.power_ups_ref()[0].flickering, 121);
    assert_eq!(m.power_ups_ref().len(), 1);
}

#[test]
fn flicker_counter_decrements_per_draw_and_blinks() {
    let mut m = PowerUpManager::new(0);
    m.spawn_power_up_at(0, Vec2i { x: 3, y: 4 }, PowerUpKind::AdditionalHeart);
    m.update(8_001);
    assert_eq!(m.power_ups_ref()[0].flickering, 121);
    // 121 -> 120, even: skipped on this call.
    let cmds = m.draw();
    assert_eq!(cmds.len(), 0);
    assert_eq!(m.power_ups_ref()[0].flickering, 120);
    // 120 -> 119, odd: shown.
    let cmds = m.draw();
    assert_eq!(cmds.len(), 1);
    assert_eq!(cmds[0], (PowerUpKind::AdditionalHeart, Vec2i { x: 3, y: 4 }));
    assert_eq!(m.power_ups_ref()[0].flickering, 119);
}

#[test]
fn non_flickering_powerup_is_always_drawn() {
    let mut m = PowerUpManager::new(0);
    m.spawn_power_up_at(0, Vec2i { x: 1, y: 2 }, PowerUpKind::FasterShooting);
    let cmds = m.draw();
    assert_eq!(cmds.len(), 1);
    assert_eq!(cmds[0], (PowerUpKind::FasterShooting, Vec2i { x: 1, y: 2 }));
    assert_eq!(m.power_ups_ref()[0].flickering, 0);
}

#[test]
fn powerup_age_queries_are_strict() {
    let mut p = PowerUp {
        kind: PowerUpKind::AdditionalHeart,
        spawned_ms: 0,
        position: Vec2i { x: 0, y: 0 },
        was_consumed: false,
        flickering: 0,
    };
    assert!(!p.is_expired(10_000));
    assert!(p.is_expired(10_001));
    p.flicker_if_almost_expiring(8_000);
    assert_eq!(p.flickering, 0);
    p.flicker_if_almost_expiring(8_001);
    assert_eq!(p.flickering, 121);
}

#[test]
fn random_spawns_stay_inside_play_bounds() {
    let mut m = PowerUpManager::new(0);
    for i in 0..20u64 {
        m.spawn_power_up(i);
    }
    let spawned = m.power_ups_ref();
    assert_eq!(spawned.len(), 20);
    for p in spawned.iter() {
        assert!(p.position.x >= 0 && p.position.x < 800_000);
        assert!(p.position.y >= 0 && p.position.y < 800_000);
        assert!(!p.was_consumed);
        assert_eq!(p.flickering, 0);
    }
    // Twenty independent uniform draws over 800000 values never all
    // coincide unless the generator is broken.
    let first = spawned[0].position;
    assert!(spawned.iter().any(|p| p.position != first) || spawned.len() < 2);
}
