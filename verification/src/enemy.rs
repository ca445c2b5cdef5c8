//! Enemy lifecycle: time-gated spawning with a drifting velocity
//! average, per-tick animation and heading updates, and resolution of
//! projectile hits by sentinel relocation.

use vstd::prelude::*;

use crate::geometry::{Rect, Vec2i, rects_intersect};
use crate::humanoid::{Humanoid, HumanoidType, POS_LIMIT_MILLI};
use crate::rng::{fresh_rng, gen_range_u64};
use crate::timing::{cooldown_elapsed, spawn_ready};

verus! {

/// Milliseconds that must pass, strictly, between two enemy spawns.
pub const ENEMY_SPAWN_INTERVAL_MS: u64 = 1500;

/// A fresh velocity component is rolled uniformly from this half-open
/// range of milli-pixels per tick (half a pixel up to one pixel).
pub const VEL_ROLL_MIN_MILLI: u64 = 500;
pub const VEL_ROLL_MAX_MILLI: u64 = 1000;

/// Cap on the running average above which `spawn_enemy` may no longer
/// be called; it only keeps the velocity arithmetic inside `i64`.
pub const AVG_VEL_CAP_MILLI: u64 = 1_000_000_000;

/// A hit enemy is relocated to this far-away coordinate on both axes
/// and left for the external out-of-bounds cull to remove.
pub const SENTINEL_MILLI: i64 = 5_000_000;

/// A projectile's hit-rectangle is its position offset by this margin
/// on both axes...
pub const FIREBALL_OFFSET_MILLI: i64 = 5_000;

/// ...with this fixed width and height (32 pixels).
pub const FIREBALL_SIZE_MILLI: i64 = 32_000;

/// A projectile; only its position matters to collision resolution.
#[derive(Clone, Copy, Debug, PartialEq, Eq, Structural)]
pub struct Fireball {
    pub position: Vec2i,
}

impl Fireball {
    /// Where the projectile currently is.
    pub fn get_position(&self) -> (p: Vec2i)
        ensures
            p == self.position,
    {
        self.position
    }
}

/// The hit-rectangle built for a projectile: position plus the fixed
/// margin, with the fixed 32-by-32-pixel size.
pub open spec fn fireball_rect(f: Fireball) -> Rect {
    Rect {
        x: (f.position.x + FIREBALL_OFFSET_MILLI) as i64,
        y: (f.position.y + FIREBALL_OFFSET_MILLI) as i64,
        w: FIREBALL_SIZE_MILLI,
        h: FIREBALL_SIZE_MILLI,
    }
}

/// Whether an enemy's hit-rectangle overlaps any projectile's.
pub open spec fn hit_by_any(r: Rect, fs: Seq<Fireball>) -> bool {
    exists|j: int| 0 <= j < fs.len() && rects_intersect(r, fireball_rect(fs[j]))
}

/// The enemy as it stands after sentinel relocation.
pub open spec fn relocated(e: Humanoid) -> Humanoid {
    Humanoid { position: Vec2i { x: SENTINEL_MILLI, y: SENTINEL_MILLI }, ..e }
}

/// What one collision pass leaves of the enemy list: every enemy whose
/// externally supplied hit-rectangle overlaps some projectile rectangle
/// is relocated, everyone else is untouched. The pass never removes.
pub open spec fn collide_spec(s: Seq<Humanoid>, rects: Seq<Rect>, fs: Seq<Fireball>) -> Seq<
    Humanoid,
> {
    Seq::new(s.len(), |i: int| if hit_by_any(rects[i], fs) { relocated(s[i]) } else { s[i] })
}

/// The enemy a spawn with the given rolls creates: at the origin, with
/// each velocity component the roll plus the running average.
pub open spec fn spawned_enemy(
    avg_milli: u64,
    vx_roll: u64,
    vy_roll: u64,
    kind: HumanoidType,
) -> Humanoid {
    Humanoid {
        position: Vec2i { x: 0, y: 0 },
        velocity: Vec2i {
            x: (avg_milli + vx_roll) as i64,
            y: (avg_milli + vy_roll) as i64,
        },
        anim_frame: 0,
        hearts: 0,
        kind,
    }
}

/// Owns the live enemies, the spawn cooldown, and the running average
/// velocity that ramps difficulty up with every spawn.
pub struct EnemyManager {
    enemies: Vec<Humanoid>,
    last_spawn_ms: u64,
    avg_enemy_vel_milli: u64,
}

impl EnemyManager {
    /// The live enemies, in spawn order.
    pub closed spec fn enemy_seq(&self) -> Seq<Humanoid> {
        self.enemies@
    }

    /// The instant of the last spawn, in milliseconds.
    pub closed spec fn last_spawn(&self) -> u64 {
        self.last_spawn_ms
    }

    /// The running average velocity, in milli-pixels per tick.
    pub closed spec fn avg_vel(&self) -> u64 {
        self.avg_enemy_vel_milli
    }

    /// Every live enemy is a valid entity.
    pub open spec fn wf(&self) -> bool {
        forall|i: int| 0 <= i < self.enemy_seq().len() ==> self.enemy_seq()[i].valid()
    }

    /// An empty manager whose cooldown starts at `now_ms` and whose
    /// running average starts at one pixel per tick.
    pub fn new(now_ms: u64) -> (m: EnemyManager)
        ensures
            m.enemy_seq() == Seq::<Humanoid>::empty(),
            m.last_spawn() == now_ms,
            m.avg_vel() == 1000,
            m.wf(),
    {
        let m = EnemyManager { enemies: Vec::new(), last_spawn_ms: now_ms, avg_enemy_vel_milli: 1000 };
        proof {
            assert(m.enemy_seq() =~= Seq::<Humanoid>::empty());
        }
        m
    }

    /// The running average velocity as a value, so that a caller can
    /// test the spawn precondition before asking for a spawn.
    pub fn avg_vel_milli(&self) -> (r: u64)
        ensures
            r == self.avg_vel(),
    {
        self.avg_enemy_vel_milli
    }

    /// True iff strictly more than the spawn interval has elapsed since
    /// the last spawn. Reads time, mutates nothing.
    pub fn can_spawn(&self, now_ms: u64) -> (r: bool)
        ensures
            r == spawn_ready(self.last_spawn(), now_ms, ENEMY_SPAWN_INTERVAL_MS),
    {
        cooldown_elapsed(self.last_spawn_ms, now_ms, ENEMY_SPAWN_INTERVAL_MS)
    }

    /// The spawn with its velocity rolls fixed: appends the new enemy,
    /// restarts the cooldown at `now_ms`, and feeds the new velocity
    /// back into the running average, which never decreases.
    pub fn spawn_enemy_from_rolls(
        &mut self,
        kind: HumanoidType,
        now_ms: u64,
        vx_roll: u64,
        vy_roll: u64,
    )
        requires
            old(self).wf(),
            kind == HumanoidType::BasicEnemy,
            VEL_ROLL_MIN_MILLI <= vx_roll < VEL_ROLL_MAX_MILLI,
            VEL_ROLL_MIN_MILLI <= vy_roll < VEL_ROLL_MAX_MILLI,
            old(self).avg_vel() <= AVG_VEL_CAP_MILLI,
        ensures
            final(self).wf(),
            final(self).enemy_seq() == old(self).enemy_seq().push(
                spawned_enemy(old(self).avg_vel(), vx_roll, vy_roll, kind),
            ),
            final(self).last_spawn() == now_ms,
            final(self).avg_vel() == old(self).avg_vel() + (vx_roll + vy_roll + 2 * old(
                self,
            ).avg_vel()) / 16,
            final(self).avg_vel() >= old(self).avg_vel(),
    {
        self.last_spawn_ms = now_ms;
        let vx: u64 = self.avg_enemy_vel_milli + vx_roll;
        let vy: u64 = self.avg_enemy_vel_milli + vy_roll;
        self.avg_enemy_vel_milli = self.avg_enemy_vel_milli + (vx + vy) / 16;
        let enemy = Humanoid::new(
            Vec2i { x: 0, y: 0 },
            Vec2i { x: vx as i64, y: vy as i64 },
            kind,
        );
        self.enemies.push(enemy);
        proof {
            assert forall|i: int| 0 <= i < self.enemy_seq().len() implies self.enemy_seq()[i].valid() by {
                if i < old(self).enemy_seq().len() {
                    assert(old(self).enemy_seq()[i].valid());
                } else {
                    assert(self.enemy_seq()[i] == enemy);
                }
            }
        }
    }

    /// Spawns one enemy of the supported kind: rolls each velocity
    /// component uniformly from the fixed range and adds the running
    /// average, appends the enemy at the origin, restarts the cooldown,
    /// and drifts the average up by a sixteenth of the new velocity
    /// sum. Asking for any other kind is a contract violation and is
    /// excluded here; the caller must refuse it loudly.
    pub fn spawn_enemy(&mut self, kind: HumanoidType, now_ms: u64)
        requires
            old(self).wf(),
            kind == HumanoidType::BasicEnemy,
            old(self).avg_vel() <= AVG_VEL_CAP_MILLI,
        ensures
            final(self).wf(),
            final(self).last_spawn() == now_ms,
            final(self).enemy_seq().len() == old(self).enemy_seq().len() + 1,
            forall|i: int|
                0 <= i < old(self).enemy_seq().len() ==> final(self).enemy_seq()[i] == old(
                    self,
                ).enemy_seq()[i],
            ({
                let e = final(self).enemy_seq().last();
                &&& e.kind == kind
                &&& e.position == (Vec2i { x: 0, y: 0 })
                &&& e.anim_frame == 0
                &&& e.hearts == 0
                &&& old(self).avg_vel() + VEL_ROLL_MIN_MILLI <= e.velocity.x < old(self).avg_vel()
                    + VEL_ROLL_MAX_MILLI
                &&& old(self).avg_vel() + VEL_ROLL_MIN_MILLI <= e.velocity.y < old(self).avg_vel()
                    + VEL_ROLL_MAX_MILLI
                &&& final(self).avg_vel() == old(self).avg_vel() + (e.velocity.x + e.velocity.y)
                    / 16
            }),
            final(self).avg_vel() >= old(self).avg_vel(),
    {
        let mut rng = fresh_rng();
        let vx_roll: u64 = gen_range_u64(&mut rng, VEL_ROLL_MIN_MILLI, VEL_ROLL_MAX_MILLI);
        let vy_roll: u64 = gen_range_u64(&mut rng, VEL_ROLL_MIN_MILLI, VEL_ROLL_MAX_MILLI);
        self.spawn_enemy_from_rolls(kind, now_ms, vx_roll, vy_roll);
    }

    /// One frame of motion: every live enemy advances its animation
    /// tick and then steps toward `heading_to`, independently of the
    /// others. Cooldown and average are untouched.
    pub fn update(&mut self, heading_to: Vec2i)
        requires
            old(self).wf(),
            heading_to.within(POS_LIMIT_MILLI),
        ensures
            final(self).wf(),
            final(self).enemy_seq() == old(self).enemy_seq().map_values(
                |e: Humanoid| e.advanced().headed_to(heading_to),
            ),
            final(self).last_spawn() == old(self).last_spawn(),
            final(self).avg_vel() == old(self).avg_vel(),
    {
        let n: usize = self.enemies.len();
        let mut i: usize = 0;
        while i < n
            invariant
                i <= n,
                n == self.enemies.len(),
                self.enemies.len() == old(self).enemy_seq().len(),
                self.last_spawn_ms == old(self).last_spawn(),
                self.avg_enemy_vel_milli == old(self).avg_vel(),
                heading_to.within(POS_LIMIT_MILLI),
                forall|j: int|
                    i <= j < n ==> self.enemies@[j] == old(self).enemy_seq()[j],
                forall|j: int| i <= j < n ==> self.enemies@[j].valid(),
                forall|j: int|
                    0 <= j < i ==> self.enemies@[j] == old(self).enemy_seq()[j].advanced().headed_to(
                        heading_to,
                    ),
                forall|j: int| 0 <= j < i ==> self.enemies@[j].valid(),
            decreases n - i,
        {
            let mut e = self.enemies[i];
            e.advance_animation();
            e.head_to(heading_to);
            self.enemies.set(i, e);
            i = i + 1;
        }
        proof {
            assert(self.enemies@ =~= old(self).enemy_seq().map_values(
                |e: Humanoid| e.advanced().headed_to(heading_to),
            ));
        }
    }

    /// One collision pass: builds each projectile's hit-rectangle and
    /// relocates every enemy whose supplied hit-rectangle overlaps one
    /// of them to the far-away sentinel, deferring removal to the
    /// external out-of-bounds cull. Quadratic in enemies times
    /// projectiles, which the expected entity counts keep small.
    pub fn check_for_fireball_collisions(&mut self, enemy_rects: &Vec<Rect>, fireballs: &Vec<Fireball>)
        requires
            old(self).wf(),
            enemy_rects@.len() == old(self).enemy_seq().len(),
            forall|i: int| 0 <= i < enemy_rects@.len() ==> (#[trigger] enemy_rects@[i]).in_bounds(),
            forall|j: int|
                0 <= j < fireballs@.len() ==> (#[trigger] fireballs@[j]).position.within(
                    POS_LIMIT_MILLI,
                ),
        ensures
            final(self).wf(),
            final(self).enemy_seq() == collide_spec(old(self).enemy_seq(), enemy_rects@, fireballs@),
            final(self).last_spawn() == old(self).last_spawn(),
            final(self).avg_vel() == old(self).avg_vel(),
    {
        let mut fireball_rects: Vec<Rect> = Vec::new();
        let mut j: usize = 0;
        while j < fireballs.len()
            invariant
                j <= fireballs@.len(),
                fireball_rects@.len() == j,
                forall|k: int|
                    0 <= k < fireballs@.len() ==> (#[trigger] fireballs@[k]).position.within(
                        POS_LIMIT_MILLI,
                    ),
                forall|k: int|
                    0 <= k < j ==> fireball_rects@[k] == fireball_rect(fireballs@[k]),
            decreases fireballs@.len() - j,
        {
            let p = fireballs[j].get_position();
            fireball_rects.push(
                Rect::new(
                    p.x + FIREBALL_OFFSET_MILLI,
                    p.y + FIREBALL_OFFSET_MILLI,
                    FIREBALL_SIZE_MILLI,
                    FIREBALL_SIZE_MILLI,
                ),
            );
            j = j + 1;
        }

        let thrown_away_pos = Vec2i { x: SENTINEL_MILLI, y: SENTINEL_MILLI };
        let n: usize = self.enemies.len();
        let mut i: usize = 0;
        while i < n
            invariant
                i <= n,
                n == self.enemies.len(),
                self.enemies.len() == old(self).enemy_seq().len(),
                self.last_spawn_ms == old(self).last_spawn(),
                self.avg_enemy_vel_milli == old(self).avg_vel(),
                enemy_rects@.len() == old(self).enemy_seq().len(),
                forall|k: int| 0 <= k < enemy_rects@.len() ==> (#[trigger] enemy_rects@[k]).in_bounds(),
                fireball_rects@.len() == fireballs@.len(),
                forall|k: int|
                    0 <= k < fireballs@.len() ==> fireball_rects@[k] == fireball_rect(fireballs@[k]),
                forall|k: int|
                    0 <= k < fireballs@.len() ==> (#[trigger] fireballs@[k]).position.within(
                        POS_LIMIT_MILLI,
                    ),
                thrown_away_pos == (Vec2i { x: SENTINEL_MILLI, y: SENTINEL_MILLI }),
                forall|k: int| i <= k < n ==> self.enemies@[k] == old(self).enemy_seq()[k],
                forall|k: int| i <= k < n ==> self.enemies@[k].valid(),
                forall|k: int|
                    0 <= k < i ==> self.enemies@[k] == (if hit_by_any(
                        enemy_rects@[k],
                        fireballs@,
                    ) {
                        relocated(old(self).enemy_seq()[k])
                    } else {
                        old(self).enemy_seq()[k]
                    }),
                forall|k: int| 0 <= k < i ==> self.enemies@[k].valid(),
            decreases n - i,
        {
            let enemy_rect = enemy_rects[i];
            let mut hit = false;
            let mut f: usize = 0;
            while f < fireball_rects.len()
                invariant
                    f <= fireball_rects@.len(),
                    enemy_rect.in_bounds(),
                    fireball_rects@.len() == fireballs@.len(),
                    forall|k: int|
                        0 <= k < fireballs@.len() ==> fireball_rects@[k] == fireball_rect(
                            fireballs@[k],
                        ),
                    forall|k: int|
                        0 <= k < fireballs@.len() ==> (#[trigger] fireballs@[k]).position.within(
                            POS_LIMIT_MILLI,
                        ),
                    hit == exists|k: int|
                        0 <= k < f && rects_intersect(enemy_rect, fireball_rect(fireballs@[k])),
                decreases fireball_rects@.len() - f,
            {
                if enemy_rect.intersects(&fireball_rects[f]) {
                    hit = true;
                }
                f = f + 1;
            }
            if hit {
                let mut e = self.enemies[i];
                e.set_position(thrown_away_pos);
                self.enemies.set(i, e);
                proof {
                    assert(self.enemies@[i as int] == relocated(old(self).enemy_seq()[i as int]));
                }
            }
            i = i + 1;
        }
        proof {
            assert(self.enemies@ =~= collide_spec(old(self).enemy_seq(), enemy_rects@, fireballs@));
        }
    }

    /// Read-only view of the live enemies for external passes such as
    /// rendering and off-screen culling; there is no mutation path
    /// through it.
    pub fn enemies_ref(&self) -> (r: &Vec<Humanoid>)
        ensures
            r@ == self.enemy_seq(),
    {
        &self.enemies
    }

    /// What the renderer must draw this frame: each live enemy's
    /// animation tick and position, in list order.
    pub fn draw(&self) -> (cmds: Vec<(u64, Vec2i)>)
        ensures
            cmds@ == self.enemy_seq().map_values(|e: Humanoid| (e.anim_frame, e.position)),
    {
        let mut cmds: Vec<(u64, Vec2i)> = Vec::new();
        let mut i: usize = 0;
        let n: usize = self.enemies.len();
        while i < n
            invariant
                i <= n,
                n == self.enemies.len(),
                cmds@.len() == i,
                forall|j: int|
                    0 <= j < i ==> cmds@[j] == (self.enemies@[j].anim_frame, self.enemies@[j].position),
            decreases n - i,
        {
            cmds.push((self.enemies[i].anim_frame, self.enemies[i].position));
            i = i + 1;
        }
        proof {
            assert(cmds@ =~= self.enemy_seq().map_values(
                |e: Humanoid| (e.anim_frame, e.position),
            ));
        }
        cmds
    }
}

/// Collision idempotence law: a second pass with the same
/// hit-rectangles and projectiles changes nothing, because relocation
/// is driven by the supplied rectangles alone and relocating an
/// already relocated enemy moves it to the same sentinel.
pub proof fn lemma_fireball_collision_idempotent(
    s: Seq<Humanoid>,
    rects: Seq<Rect>,
    fs: Seq<Fireball>,
)
    ensures
        collide_spec(collide_spec(s, rects, fs), rects, fs) == collide_spec(s, rects, fs),
{
    assert(collide_spec(collide_spec(s, rects, fs), rects, fs) =~= collide_spec(s, rects, fs));
}

} // verus!
