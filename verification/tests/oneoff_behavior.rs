use arcade_core::geometry::Vec2i;
use arcade_core::oneoffanim::OneOffAnimationManager;

#[test]
fn new_manager_draws_nothing() {
    let m = OneOffAnimationManager::new(0, 10);
    assert_eq!(m.draw().len(), 0);
}

#[test]
fn explosion_lives_exactly_frame_count_gated_updates() {
    let mut m = OneOffAnimationManager::new(0, 10);
    m.add_explosion(Vec2i { x: 42, y: 7 });
    for k in 1..=10u64 {
        // Each call comes strictly more than the cadence interval
        // after the previous advance, so every one is gated open.
        m.update(k * 101);
        let cmds = m.draw();
        if k < 10 {
            // Never removed earlier: still there, on frame k.
            assert_eq!(cmds.len(), 1);
            assert_eq!(cmds[0], (k as u8, Vec2i { x: 42, y: 7 }));
        } else {
            // Removed exactly on the update that finds it on the
            // final frame, never later.
            assert_eq!(cmds.len(), 0);
        }
    }
}

#[test]
fn update_before_cadence_only_cleans_up() {
    let mut m = OneOffAnimationManager::new(0, 10);
    m.add_explosion(Vec2i { x: 0, y: 0 });
    // Only 50 ms have passed: no frame advance.
    m.update(50);
    let cmds = m.draw();
    assert_eq!(cmds.len(), 1);
    assert_eq!(cmds[0].0, 0);

    // The sweep itself is not gated: with a one-frame definition the
    // instance already stands on the final frame and goes at once.
    let mut short = OneOffAnimationManager::new(0, 1);
    short.add_explosion(Vec2i { x: 0, y: 0 });
    short.update(50);
    assert_eq!(short.draw().len(), 0);
}

#[test]
fn instances_added_apart_stay_frame_synchronized() {
    let mut m = OneOffAnimationManager::new(0, 10);
    m.add_explosion(Vec2i { x: 1, y: 1 });
    m.update(101);
    m.add_explosion(Vec2i { x: 2, y: 2 });
    let frames_now: Vec<u8> = m.draw().iter().map(|c| c.0).collect();
    assert_eq!(frames_now, vec![1, 0]);
    m.update(202);
    m.update(303);
    let frames_later: Vec<u8> = m.draw().iter().map(|c| c.0).collect();
    // Both advanced in lockstep: the gap between them never changes.
    assert_eq!(frames_later, vec![3, 2]);
}

#[test]
fn draw_lists_instances_in_pool_order() {
    let mut m = OneOffAnimationManager::new(0, 10);
    m.add_explosion(Vec2i { x: 5, y: 6 });
    m.add_explosion(Vec2i { x: 7, y: 8 });
    let cmds = m.draw();
    assert_eq!(cmds.len(), 2);
    assert_eq!(cmds[0], (0, Vec2i { x: 5, y: 6 }));
    assert_eq!(cmds[1], (0, Vec2i { x: 7, y: 8 }));
}
