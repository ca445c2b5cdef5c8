use arcade_core::enemy::{EnemyManager, Fireball};
use arcade_core::geometry::{Rect, Vec2i};
use arcade_core::humanoid::{Humanoid, HumanoidType};
use arcade_core::timing::cooldown_elapsed;

#[test]
fn cooldown_gate_is_strict() {
    assert!(!cooldown_elapsed(10, 10, 1500));
    assert!(!cooldown_elapsed(10, 1510, 1500));
    assert!(cooldown_elapsed(10, 1511, 1500));
    // A clock reading earlier than the last action reports "not ready".
    assert!(!cooldown_elapsed(10, 5, 1500));
}

#[test]
fn enemy_spawn_gate_follows_interval() {
    let mut m = EnemyManager::new(0);
    assert!(!m.can_spawn(0));
    assert!(m.can_spawn(1501));
    m.spawn_enemy(HumanoidType::BasicEnemy, 100);
    assert!(!m.can_spawn(100));
    assert!(!m.can_spawn(1600));
    assert!(m.can_spawn(1601));
}

#[test]
fn running_average_drifts_up_with_each_spawn() {
    let mut m = EnemyManager::new(0);
    // First spawn: average is 1000, so the velocity is roll + 1000 and
    // the average gains (1500 + 1500) / 16 = 187.
    m.spawn_enemy_from_rolls(HumanoidType::BasicEnemy, 10, 500, 500);
    // Second spawn: average is 1187, velocity 999 + 1187 = 2186 per
    // axis, and the average gains (2186 + 2186) / 16 = 273.
    m.spawn_enemy_from_rolls(HumanoidType::BasicEnemy, 20, 999, 999);
    // Third spawn: average is 1460.
    m.spawn_enemy_from_rolls(HumanoidType::BasicEnemy, 30, 500, 700);
    let enemies = m.enemies_ref();
    assert_eq!(enemies[0].velocity, Vec2i { x: 1500, y: 1500 });
    assert_eq!(enemies[1].velocity, Vec2i { x: 2186, y: 2186 });
    assert_eq!(enemies[2].velocity, Vec2i { x: 1960, y: 2160 });
    // With the minimum roll repeated, each enemy is still at least as
    // fast as its predecessor was at the same roll: the drift never
    // goes down.
    assert!(enemies[1].velocity.x - 999 >= enemies[0].velocity.x - 500);
    assert!(enemies[2].velocity.x - 500 >= enemies[1].velocity.x - 999);
}

#[test]
fn random_spawn_velocity_stays_in_range() {
    let mut m = EnemyManager::new(0);
    m.spawn_enemy(HumanoidType::BasicEnemy, 5);
    let e = &m.enemies_ref()[0];
    assert_eq!(e.kind, HumanoidType::BasicEnemy);
    assert_eq!(e.position, Vec2i { x: 0, y: 0 });
    assert_eq!(e.anim_frame, 0);
    assert_eq!(e.hearts, 0);
    // Roll in [500, 1000) plus the initial average of 1000.
    assert!(e.velocity.x >= 1500 && e.velocity.x < 2000);
    assert!(e.velocity.y >= 1500 && e.velocity.y < 2000);
}

#[test]
fn update_advances_animation_and_heads_toward_target() {
    let mut m = EnemyManager::new(0);
    m.spawn_enemy_from_rolls(HumanoidType::BasicEnemy, 0, 500, 500);
    m.update(Vec2i { x: 100_000, y: 100_000 });
    {
        let e = &m.enemies_ref()[0];
        assert_eq!(e.position, Vec2i { x: 1500, y: 1500 });
        assert_eq!(e.anim_frame, 1);
    }
    m.update(Vec2i { x: 0, y: 0 });
    {
        let e = &m.enemies_ref()[0];
        assert_eq!(e.position, Vec2i { x: 0, y: 0 });
        assert_eq!(e.anim_frame, 2);
    }
    // A target closer than one velocity step is reached, not overshot.
    m.update(Vec2i { x: 1000, y: 1000 });
    {
        let e = &m.enemies_ref()[0];
        assert_eq!(e.position, Vec2i { x: 1000, y: 1000 });
        assert_eq!(e.anim_frame, 3);
    }
}

#[test]
fn humanoid_moves_toward_target_per_axis() {
    let mut h = Humanoid::new(
        Vec2i { x: 0, y: 0 },
        Vec2i { x: 600, y: 700 },
        HumanoidType::Player,
    );
    h.head_to(Vec2i { x: 10_000, y: -10_000 });
    assert_eq!(h.get_position(), Vec2i { x: 600, y: -700 });
}

#[test]
fn fireball_collision_relocates_hit_enemy_only() {
    let mut m = EnemyManager::new(0);
    m.spawn_enemy_from_rolls(HumanoidType::BasicEnemy, 0, 500, 500);
    m.spawn_enemy_from_rolls(HumanoidType::BasicEnemy, 0, 500, 500);
    let rects = vec![
        Rect::new(0, 0, 32_000, 32_000),
        Rect::new(200_000, 200_000, 32_000, 32_000),
    ];
    let fireballs = vec![Fireball { position: Vec2i { x: 10_000, y: 10_000 } }];
    m.check_for_fireball_collisions(&rects, &fireballs);
    assert_eq!(
        m.enemies_ref()[0].position,
        Vec2i { x: 5_000_000, y: 5_000_000 }
    );
    assert_eq!(m.enemies_ref()[1].position, Vec2i { x: 0, y: 0 });
    assert_eq!(m.enemies_ref().len(), 2);

    // A second pass with the same inputs neither errors nor moves
    // anything further: relocation is idempotent.
    m.check_for_fireball_collisions(&rects, &fireballs);
    assert_eq!(
        m.enemies_ref()[0].position,
        Vec2i { x: 5_000_000, y: 5_000_000 }
    );
    assert_eq!(m.enemies_ref()[1].position, Vec2i { x: 0, y: 0 });
}

#[test]
fn touching_rectangles_do_not_collide() {
    let mut m = EnemyManager::new(0);
    m.spawn_enemy_from_rolls(HumanoidType::BasicEnemy, 0, 500, 500);
    let rects = vec![Rect::new(0, 0, 32_000, 32_000)];
    // The projectile rectangle starts exactly where the enemy's ends:
    // 27000 + 5000 = 32000. Strict overlap means no hit.
    let fireballs = vec![Fireball { position: Vec2i { x: 27_000, y: 0 } }];
    m.check_for_fireball_collisions(&rects, &fireballs);
    assert_eq!(m.enemies_ref()[0].position, Vec2i { x: 0, y: 0 });
}

#[test]
fn draw_lists_every_enemy_in_order() {
    let mut m = EnemyManager::new(0);
    m.spawn_enemy_from_rolls(HumanoidType::BasicEnemy, 0, 500, 500);
    m.spawn_enemy_from_rolls(HumanoidType::BasicEnemy, 0, 600, 600);
    m.update(Vec2i { x: 50_000, y: 50_000 });
    let cmds = m.draw();
    assert_eq!(cmds.len(), 2);
    assert_eq!(cmds[0], (1, Vec2i { x: 1500, y: 1500 }));
    assert_eq!(cmds[1], (1, Vec2i { x: 1787, y: 1787 }));
}
