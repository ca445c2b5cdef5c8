//! The movable game entity: a position, a per-axis velocity, an
//! animation tick, a heart count, and a kind tag telling the player
//! apart from the enemy tiers.

use vstd::prelude::*;

use crate::geometry::Vec2i;

verus! {

/// Velocity components never fall below this floor (half a pixel per
/// tick), so an entity always advances.
pub const VEL_FLOOR_MILLI: i64 = 500;

/// Upper bound on a velocity component: the spawn-roll maximum plus the
/// cap the enemy manager keeps on its running average.
pub const VEL_LIMIT_MILLI: i64 = 1_000_001_000;

/// Positions stay within this box; it dwarfs any play area yet leaves
/// room for every coordinate sum the crate forms to fit in `i64`.
pub const POS_LIMIT_MILLI: i64 = 1_000_000_000_000;

/// Which entity a `Humanoid` stands for. Only `Player` and `BasicEnemy`
/// are implemented; the remaining tiers are reserved and must be
/// refused loudly by whoever is asked to spawn them.
#[derive(Clone, Copy, Debug, PartialEq, Eq, Structural)]
pub enum HumanoidType {
    Player,
    BasicEnemy,
    StrongerEnemy,
    BadassEnemy,
    Boss,
}

/// A movable entity. Coordinates and velocities are in milli-pixels.
#[derive(Clone, Copy, Debug, PartialEq, Eq, Structural)]
pub struct Humanoid {
    pub position: Vec2i,
    pub velocity: Vec2i,
    pub anim_frame: u64,
    pub hearts: u64,
    pub kind: HumanoidType,
}

/// One axis of a step toward a target: move by the velocity, stopping
/// at the target rather than overshooting it.
pub open spec fn approach(pos: int, vel: int, target: int) -> int {
    if pos < target {
        if pos + vel <= target {
            pos + vel
        } else {
            target
        }
    } else if pos > target {
        if pos - vel >= target {
            pos - vel
        } else {
            target
        }
    } else {
        pos
    }
}

/// The animation tick after one advance; the counter wraps rather than
/// overflowing.
pub open spec fn next_anim_frame(f: u64) -> u64 {
    if f == u64::MAX {
        0
    } else {
        (f + 1) as u64
    }
}

impl Humanoid {
    /// Velocity sits between the floor and the limit and the position
    /// inside the coordinate box.
    pub open spec fn valid(self) -> bool {
        VEL_FLOOR_MILLI <= self.velocity.x <= VEL_LIMIT_MILLI
            && VEL_FLOOR_MILLI <= self.velocity.y <= VEL_LIMIT_MILLI
            && self.position.within(POS_LIMIT_MILLI)
    }

    /// The entity after one animation advance.
    pub open spec fn advanced(self) -> Humanoid {
        Humanoid { anim_frame: next_anim_frame(self.anim_frame), ..self }
    }

    /// The entity after one velocity-driven step toward `target`.
    pub open spec fn headed_to(self, target: Vec2i) -> Humanoid {
        Humanoid {
            position: Vec2i {
                x: approach(self.position.x as int, self.velocity.x as int, target.x as int) as i64,
                y: approach(self.position.y as int, self.velocity.y as int, target.y as int) as i64,
            },
            ..self
        }
    }

    /// Builds an entity with a fresh animation tick and no hearts.
    pub fn new(position: Vec2i, velocity: Vec2i, kind: HumanoidType) -> (h: Humanoid)
        requires
            VEL_FLOOR_MILLI <= velocity.x <= VEL_LIMIT_MILLI,
            VEL_FLOOR_MILLI <= velocity.y <= VEL_LIMIT_MILLI,
            position.within(POS_LIMIT_MILLI),
        ensures
            h == (Humanoid { position, velocity, anim_frame: 0, hearts: 0, kind }),
            h.valid(),
    {
        Humanoid { position, velocity, anim_frame: 0, hearts: 0, kind }
    }

    /// Where the entity stands.
    pub fn get_position(&self) -> (p: Vec2i)
        ensures
            p == self.position,
    {
        self.position
    }

    /// Relocates the entity; everything else is untouched.
    pub fn set_position(&mut self, p: Vec2i)
        requires
            p.within(POS_LIMIT_MILLI),
        ensures
            *final(self) == (Humanoid { position: p, ..*old(self) }),
    {
        self.position = p;
    }

    /// Ticks the animation counter by one, wrapping at the top.
    pub fn advance_animation(&mut self)
        ensures
            *final(self) == old(self).advanced(),
    {
        if self.anim_frame == u64::MAX {
            self.anim_frame = 0;
        } else {
            self.anim_frame = self.anim_frame + 1;
        }
    }

    /// Steps toward `target` by the velocity on each axis, stopping at
    /// the target; a valid entity stays valid when the target lies in
    /// the coordinate box.
    pub fn head_to(&mut self, target: Vec2i)
        requires
            old(self).valid(),
            target.within(POS_LIMIT_MILLI),
        ensures
            *final(self) == old(self).headed_to(target),
            final(self).valid(),
    {
        if self.position.x < target.x {
            if target.x - self.position.x >= self.velocity.x {
                self.position.x = self.position.x + self.velocity.x;
            } else {
                self.position.x = target.x;
            }
        } else if self.position.x > target.x {
            if self.position.x - target.x >= self.velocity.x {
                self.position.x = self.position.x - self.velocity.x;
            } else {
                self.position.x = target.x;
            }
        }
        if self.position.y < target.y {
            if target.y - self.position.y >= self.velocity.y {
                self.position.y = self.position.y + self.velocity.y;
            } else {
                self.position.y = target.y;
            }
        } else if self.position.y > target.y {
            if self.position.y - target.y >= self.velocity.y {
                self.position.y = self.position.y - self.velocity.y;
            } else {
                self.position.y = target.y;
            }
        }
    }
}

} // verus!
