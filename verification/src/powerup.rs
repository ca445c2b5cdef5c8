//! Power-up lifecycle: independently gated spawning, player collision
//! with immediate effect application, and an expiry state machine that
//! warns by flickering before a power-up disappears.

use vstd::prelude::*;

use crate::geometry::{Rect, Vec2i, rects_intersect};
use crate::humanoid::{Humanoid, POS_LIMIT_MILLI};
use crate::rng::{fresh_rng, gen_range_u64};
use crate::timing::{cooldown_elapsed, spawn_ready};

verus! {

/// Milliseconds that must pass, strictly, between two power-up spawns.
pub const POWER_UP_SPAWN_INTERVAL_MS: u64 = 5000;

/// Age, in milliseconds, beyond which a power-up starts flickering.
pub const FLICKER_AGE_MS: u64 = 8000;

/// Age, in milliseconds, beyond which a power-up is removed.
pub const EXPIRY_AGE_MS: u64 = 10000;

/// The value the flicker counter is set to when the warning starts.
pub const FLICKER_START: u8 = 121;

/// Spawn positions are drawn uniformly from `0..800` pixels per axis.
pub const PLAY_AREA_MILLI: u64 = 800_000;

/// Side of the square rectangle a power-up occupies (32 pixels).
pub const POWER_UP_SIZE_MILLI: i64 = 32_000;

/// Side of the square rectangle the player occupies (16 pixels).
pub const PLAYER_SIZE_MILLI: i64 = 16_000;

/// What a power-up grants. `FasterShooting` is recognized but its
/// effect is deliberately still a no-op, distinct from the heart case.
#[derive(Clone, Copy, Debug, PartialEq, Eq, Structural)]
pub enum PowerUpKind {
    AdditionalHeart,
    FasterShooting,
}

/// Which kind a uniform roll over `0..2` selects.
pub open spec fn kind_from_roll(roll: u64) -> PowerUpKind {
    if roll == 0 {
        PowerUpKind::AdditionalHeart
    } else {
        PowerUpKind::FasterShooting
    }
}

impl PowerUpKind {
    /// Maps a uniform roll to a kind: zero gives the heart, anything
    /// else the scroll.
    pub fn from_roll(roll: u64) -> (k: PowerUpKind)
        ensures
            k == kind_from_roll(roll),
    {
        if roll == 0 {
            PowerUpKind::AdditionalHeart
        } else {
            PowerUpKind::FasterShooting
        }
    }
}

/// A spawned power-up: kind, birth instant, position, whether the
/// player consumed it, and the decrementing flicker counter.
#[derive(Clone, Copy, Debug, PartialEq, Eq, Structural)]
pub struct PowerUp {
    pub kind: PowerUpKind,
    pub spawned_ms: u64,
    pub position: Vec2i,
    pub was_consumed: bool,
    pub flickering: u8,
}

/// Strictly older than the expiry age.
pub open spec fn expired(p: PowerUp, now_ms: u64) -> bool {
    now_ms > p.spawned_ms + EXPIRY_AGE_MS
}

/// Strictly older than the warning age.
pub open spec fn flicker_due(p: PowerUp, now_ms: u64) -> bool {
    now_ms > p.spawned_ms + FLICKER_AGE_MS
}

/// One expiry-check step: a power-up past the warning age has its
/// flicker counter set to the warning value; a younger one is left
/// alone.
pub open spec fn flicker_step(p: PowerUp, now_ms: u64) -> PowerUp {
    if flicker_due(p, now_ms) {
        PowerUp { flickering: FLICKER_START, ..p }
    } else {
        p
    }
}

/// A power-up survives the removal pass iff it is neither consumed nor
/// expired; the two triggers are independent.
pub open spec fn keeps(p: PowerUp, now_ms: u64) -> bool {
    !p.was_consumed && !expired(p, now_ms)
}

/// The flicker step, as a function to map over the collection.
pub open spec fn flicker_fn(now_ms: u64) -> spec_fn(PowerUp) -> PowerUp {
    |p: PowerUp| flicker_step(p, now_ms)
}

/// The survival test, as a predicate to filter the collection with.
pub open spec fn keeps_fn(now_ms: u64) -> spec_fn(PowerUp) -> bool {
    |p: PowerUp| keeps(p, now_ms)
}

/// What one `update` leaves of the collection: every power-up takes
/// the flicker step, then consumed and expired ones are dropped.
pub open spec fn update_spec(s: Seq<PowerUp>, now_ms: u64) -> Seq<PowerUp> {
    s.map_values(flicker_fn(now_ms)).filter(keeps_fn(now_ms))
}

/// The square a power-up occupies.
pub open spec fn powerup_rect(pos: Vec2i) -> Rect {
    Rect { x: pos.x, y: pos.y, w: POWER_UP_SIZE_MILLI, h: POWER_UP_SIZE_MILLI }
}

/// The square the player occupies.
pub open spec fn player_rect(pos: Vec2i) -> Rect {
    Rect { x: pos.x, y: pos.y, w: PLAYER_SIZE_MILLI, h: PLAYER_SIZE_MILLI }
}

/// A power-up is collected when its square overlaps the player's and
/// it has not been consumed before: a consumed power-up never applies
/// its effect twice.
pub open spec fn hits_player(p: PowerUp, player_pos: Vec2i) -> bool {
    !p.was_consumed && rects_intersect(powerup_rect(p.position), player_rect(player_pos))
}

/// One collision step: a collected power-up is marked consumed, any
/// other is left alone.
pub open spec fn consume_step(p: PowerUp, player_pos: Vec2i) -> PowerUp {
    if hits_player(p, player_pos) {
        PowerUp { was_consumed: true, ..p }
    } else {
        p
    }
}

/// The collision step, as a function to map over the collection.
pub open spec fn consume_fn(player_pos: Vec2i) -> spec_fn(PowerUp) -> PowerUp {
    |p: PowerUp| consume_step(p, player_pos)
}

/// How many hearts one collision pass grants: one per collected
/// power-up of the heart kind.
pub open spec fn heart_gain(s: Seq<PowerUp>, player_pos: Vec2i) -> nat
    decreases s.len(),
{
    if s.len() == 0 {
        0
    } else {
        heart_gain(s.drop_last(), player_pos) + (if hits_player(s.last(), player_pos)
            && s.last().kind == PowerUpKind::AdditionalHeart {
            1nat
        } else {
            0nat
        })
    }
}

/// The heart gain never exceeds the number of power-ups.
pub proof fn lemma_heart_gain_le_len(s: Seq<PowerUp>, player_pos: Vec2i)
    ensures
        heart_gain(s, player_pos) <= s.len(),
    decreases s.len(),
{
    if s.len() > 0 {
        lemma_heart_gain_le_len(s.drop_last(), player_pos);
    }
}

/// One draw step: a positive flicker counter is decremented on every
/// draw call; once at zero it stays there until the expiry check
/// rearms it.
pub open spec fn draw_step(p: PowerUp) -> PowerUp {
    if p.flickering > 0 {
        PowerUp { flickering: (p.flickering - 1) as u8, ..p }
    } else {
        p
    }
}

/// The draw step, as a function to map over the collection.
pub open spec fn draw_fn() -> spec_fn(PowerUp) -> PowerUp {
    |p: PowerUp| draw_step(p)
}

/// Whether a power-up is shown on this draw call: one that is not
/// flickering always is; a flickering one is shown only when its
/// decremented counter is odd, which makes it blink at the draw-call
/// cadence.
pub open spec fn visible_in_draw(p: PowerUp) -> bool {
    ||| p.flickering == 0
    ||| (p.flickering - 1) % 2 == 1
}

/// The visibility test, as a predicate to filter the collection with.
pub open spec fn visible_fn() -> spec_fn(PowerUp) -> bool {
    |p: PowerUp| visible_in_draw(p)
}

/// The sprite request a drawn power-up produces.
pub open spec fn sprite_fn() -> spec_fn(PowerUp) -> (PowerUpKind, Vec2i) {
    |p: PowerUp| (p.kind, p.position)
}

/// Owns the spawned power-ups and their shared spawn cooldown.
pub struct PowerUpManager {
    powerups: Vec<PowerUp>,
    last_spawned_ms: u64,
}

impl PowerUp {
    /// True iff the power-up is strictly older than the expiry age.
    pub fn is_expired(&self, now_ms: u64) -> (r: bool)
        ensures
            r == expired(*self, now_ms),
    {
        cooldown_elapsed(self.spawned_ms, now_ms, EXPIRY_AGE_MS)
    }

    /// Arms the flicker warning once the power-up is strictly older
    /// than the warning age; younger ones are untouched.
    pub fn flicker_if_almost_expiring(&mut self, now_ms: u64)
        ensures
            *final(self) == flicker_step(*old(self), now_ms),
    {
        if cooldown_elapsed(self.spawned_ms, now_ms, FLICKER_AGE_MS) {
            self.flickering = FLICKER_START;
        }
    }
}

impl PowerUpManager {
    /// The spawned power-ups, in spawn order.
    pub closed spec fn powerup_seq(&self) -> Seq<PowerUp> {
        self.powerups@
    }

    /// The instant of the last spawn, in milliseconds.
    pub closed spec fn last_spawned(&self) -> u64 {
        self.last_spawned_ms
    }

    /// Every power-up sits inside the coordinate box, so its square
    /// can be intersected without overflow.
    pub open spec fn wf(&self) -> bool {
        forall|i: int|
            0 <= i < self.powerup_seq().len() ==> (#[trigger] self.powerup_seq()[i]).position.within(
                POS_LIMIT_MILLI,
            )
    }

    /// An empty manager whose cooldown starts at `now_ms`.
    pub fn new(now_ms: u64) -> (m: PowerUpManager)
        ensures
            m.powerup_seq() == Seq::<PowerUp>::empty(),
            m.last_spawned() == now_ms,
            m.wf(),
    {
        let m = PowerUpManager { powerups: Vec::new(), last_spawned_ms: now_ms };
        proof {
            assert(m.powerup_seq() =~= Seq::<PowerUp>::empty());
        }
        m
    }

    /// True iff strictly more than the spawn interval has elapsed
    /// since the last spawn. Reads time, mutates nothing.
    pub fn can_spawn(&self, now_ms: u64) -> (r: bool)
        ensures
            r == spawn_ready(self.last_spawned(), now_ms, POWER_UP_SPAWN_INTERVAL_MS),
    {
        cooldown_elapsed(self.last_spawned_ms, now_ms, POWER_UP_SPAWN_INTERVAL_MS)
    }

    /// The spawn with position and kind fixed: restarts the cooldown
    /// at `now_ms` and appends a fresh, unconsumed, non-flickering
    /// power-up born at that instant.
    pub fn spawn_power_up_at(&mut self, now_ms: u64, position: Vec2i, kind: PowerUpKind)
        requires
            old(self).wf(),
            position.within(POS_LIMIT_MILLI),
        ensures
            final(self).wf(),
            final(self).powerup_seq() == old(self).powerup_seq().push(
                PowerUp { kind, spawned_ms: now_ms, position, was_consumed: false, flickering: 0 },
            ),
            final(self).last_spawned() == now_ms,
    {
        self.last_spawned_ms = now_ms;
        let power_up = PowerUp {
            kind,
            spawned_ms: now_ms,
            position,
            was_consumed: false,
            flickering: 0,
        };
        self.powerups.push(power_up);
        proof {
            assert forall|i: int|
                0 <= i < self.powerup_seq().len() implies (
            #[trigger] self.powerup_seq()[i]).position.within(POS_LIMIT_MILLI) by {
                if i < old(self).powerup_seq().len() {
                    assert(old(self).powerup_seq()[i].position.within(POS_LIMIT_MILLI));
                }
            }
        }
    }

    /// Spawns one power-up: restarts the cooldown, draws a uniform
    /// position inside the play bounds and a uniform kind, and appends
    /// the fresh power-up born at `now_ms`.
    pub fn spawn_power_up(&mut self, now_ms: u64)
        requires
            old(self).wf(),
        ensures
            final(self).wf(),
            final(self).last_spawned() == now_ms,
            final(self).powerup_seq().len() == old(self).powerup_seq().len() + 1,
            forall|i: int|
                0 <= i < old(self).powerup_seq().len() ==> final(self).powerup_seq()[i] == old(
                    self,
                ).powerup_seq()[i],
            ({
                let p = final(self).powerup_seq().last();
                &&& p.spawned_ms == now_ms
                &&& !p.was_consumed
                &&& p.flickering == 0
                &&& 0 <= p.position.x < PLAY_AREA_MILLI
                &&& 0 <= p.position.y < PLAY_AREA_MILLI
            }),
    {
        let mut rng = fresh_rng();
        let x: u64 = gen_range_u64(&mut rng, 0, PLAY_AREA_MILLI);
        let y: u64 = gen_range_u64(&mut rng, 0, PLAY_AREA_MILLI);
        let roll: u64 = gen_range_u64(&mut rng, 0, 2);
        let kind = PowerUpKind::from_roll(roll);
        let position = Vec2i { x: x as i64, y: y as i64 };
        self.spawn_power_up_at(now_ms, position, kind);
    }

    /// One collision pass against the player: every collected power-up
    /// is marked consumed and applies its effect at once — the heart
    /// kind grants the player one heart, the scroll kind is its
    /// recognized no-op. The player moves nowhere and nothing is
    /// removed here; removal belongs to `update`.
    pub fn check_for_collision(&mut self, player: &mut Humanoid)
        requires
            old(self).wf(),
            old(player).position.within(POS_LIMIT_MILLI),
            old(player).hearts + old(self).powerup_seq().len() <= u64::MAX,
        ensures
            final(self).wf(),
            final(self).powerup_seq() == old(self).powerup_seq().map_values(
                consume_fn(old(player).position),
            ),
            final(self).last_spawned() == old(self).last_spawned(),
            final(player).hearts == old(player).hearts + heart_gain(
                old(self).powerup_seq(),
                old(player).position,
            ),
            *final(player) == (Humanoid { hearts: final(player).hearts, ..*old(player) }),
    {
        let player_pos = player.get_position();
        let player_sq = Rect::new(player_pos.x, player_pos.y, PLAYER_SIZE_MILLI, PLAYER_SIZE_MILLI);
        let n: usize = self.powerups.len();
        let mut i: usize = 0;
        while i < n
            invariant
                i <= n,
                n == self.powerups.len(),
                self.powerups.len() == old(self).powerup_seq().len(),
                self.last_spawned_ms == old(self).last_spawned(),
                player_pos == old(player).position,
                player_pos.within(POS_LIMIT_MILLI),
                player_sq == player_rect(player_pos),
                old(player).hearts + old(self).powerup_seq().len() <= u64::MAX,
                forall|k: int| i <= k < n ==> self.powerups@[k] == old(self).powerup_seq()[k],
                forall|k: int|
                    0 <= k < i ==> self.powerups@[k] == consume_step(
                        old(self).powerup_seq()[k],
                        player_pos,
                    ),
                forall|k: int|
                    0 <= k < n ==> (#[trigger] self.powerups@[k]).position.within(POS_LIMIT_MILLI),
                player.hearts == old(player).hearts + heart_gain(
                    old(self).powerup_seq().take(i as int),
                    player_pos,
                ),
                *player == (Humanoid { hearts: player.hearts, ..*old(player) }),
            decreases n - i,
        {
            proof {
                lemma_heart_gain_le_len(old(self).powerup_seq().take(i as int), player_pos);
                old(self).powerup_seq().lemma_take_succ_push(i as int);
                assert(old(self).powerup_seq().take(i as int + 1).drop_last() =~= old(
                    self,
                ).powerup_seq().take(i as int));
            }
            let mut p = self.powerups[i];
            let powerup_sq = Rect::new(
                p.position.x,
                p.position.y,
                POWER_UP_SIZE_MILLI,
                POWER_UP_SIZE_MILLI,
            );
            if !p.was_consumed && powerup_sq.intersects(&player_sq) {
                p.was_consumed = true;
                match p.kind {
                    PowerUpKind::AdditionalHeart => {
                        player.hearts = player.hearts + 1;
                    },
                    PowerUpKind::FasterShooting => {
                        // Recognized but deliberately without an effect yet.
                    },
                }
                self.powerups.set(i, p);
            }
            i = i + 1;
        }
        proof {
            assert(old(self).powerup_seq().take(n as int) =~= old(self).powerup_seq());
            assert(self.powerups@ =~= old(self).powerup_seq().map_values(
                consume_fn(old(player).position),
            ));
        }
    }

    /// One expiry pass: every power-up takes the flicker step, then
    /// consumed and expired ones are dropped, each trigger on its own.
    pub fn update(&mut self, now_ms: u64)
        requires
            old(self).wf(),
        ensures
            final(self).wf(),
            final(self).powerup_seq() == update_spec(old(self).powerup_seq(), now_ms),
            final(self).last_spawned() == old(self).last_spawned(),
    {
        let n: usize = self.powerups.len();
        let mut out: Vec<PowerUp> = Vec::new();
        let mut i: usize = 0;
        while i < n
            invariant
                i <= n,
                n == self.powerups.len(),
                self.powerups@ == old(self).powerup_seq(),
                self.last_spawned_ms == old(self).last_spawned(),
                old(self).wf(),
                out@ == update_spec(old(self).powerup_seq().take(i as int), now_ms),
                forall|k: int|
                    0 <= k < out@.len() ==> (#[trigger] out@[k]).position.within(POS_LIMIT_MILLI),
            decreases n - i,
        {
            let ghost s = old(self).powerup_seq();
            let ghost t = s.take(i as int);
            let mut p = self.powerups[i];
            proof {
                assert(p == s[i as int]);
                assert(s[i as int].position.within(POS_LIMIT_MILLI));
            }
            p.flicker_if_almost_expiring(now_ms);
            let keep = !p.was_consumed && !p.is_expired(now_ms);
            if keep {
                out.push(p);
            }
            proof {
                s.lemma_take_succ_push(i as int);
                t.lemma_push_map_commute(flicker_fn(now_ms), s[i as int]);
                t.map_values(flicker_fn(now_ms)).lemma_filter_push(
                    flicker_step(s[i as int], now_ms),
                    keeps_fn(now_ms),
                );
                assert(out@ == update_spec(s.take(i as int + 1), now_ms));
            }
            i = i + 1;
        }
        self.powerups = out;
        proof {
            assert(old(self).powerup_seq().take(n as int) =~= old(self).powerup_seq());
        }
    }

    /// One draw pass: every flickering power-up has its counter
    /// decremented, and the pass reports, in order, the kind and
    /// position of each power-up shown on this call — the blink is
    /// tied to draw-call frequency, not to wall-clock time.
    pub fn draw(&mut self) -> (cmds: Vec<(PowerUpKind, Vec2i)>)
        requires
            old(self).wf(),
        ensures
            final(self).wf(),
            final(self).powerup_seq() == old(self).powerup_seq().map_values(draw_fn()),
            cmds@ == old(self).powerup_seq().filter(visible_fn()).map_values(sprite_fn()),
            final(self).last_spawned() == old(self).last_spawned(),
    {
        let mut cmds: Vec<(PowerUpKind, Vec2i)> = Vec::new();
        let n: usize = self.powerups.len();
        let mut i: usize = 0;
        while i < n
            invariant
                i <= n,
                n == self.powerups.len(),
                self.powerups.len() == old(self).powerup_seq().len(),
                self.last_spawned_ms == old(self).last_spawned(),
                forall|k: int| i <= k < n ==> self.powerups@[k] == old(self).powerup_seq()[k],
                forall|k: int|
                    0 <= k < i ==> self.powerups@[k] == draw_step(old(self).powerup_seq()[k]),
                forall|k: int|
                    0 <= k < n ==> (#[trigger] self.powerups@[k]).position.within(POS_LIMIT_MILLI),
                cmds@ == old(self).powerup_seq().take(i as int).filter(visible_fn()).map_values(
                    sprite_fn(),
                ),
            decreases n - i,
        {
            let ghost s = old(self).powerup_seq();
            let ghost t = s.take(i as int);
            let mut p = self.powerups[i];
            let mut shown = true;
            if p.flickering > 0 {
                p.flickering = p.flickering - 1;
                self.powerups.set(i, p);
                if p.flickering % 2 == 0 {
                    shown = false;
                }
            }
            if shown {
                cmds.push((p.kind, p.position));
            }
            proof {
                s.lemma_take_succ_push(i as int);
                t.lemma_filter_push(s[i as int], visible_fn());
                t.filter(visible_fn()).lemma_push_map_commute(sprite_fn(), s[i as int]);
                assert(shown == visible_in_draw(s[i as int]));
                assert(cmds@ == s.take(i as int + 1).filter(visible_fn()).map_values(sprite_fn()));
            }
            i = i + 1;
        }
        proof {
            assert(old(self).powerup_seq().take(n as int) =~= old(self).powerup_seq());
            assert(self.powerups@ =~= old(self).powerup_seq().map_values(draw_fn()));
        }
        cmds
    }

    /// Read-only view of the spawned power-ups for rendering and for
    /// inspection; there is no mutation path through it.
    pub fn power_ups_ref(&self) -> (r: &Vec<PowerUp>)
        ensures
            r@ == self.powerup_seq(),
    {
        &self.powerups
    }
}

/// Every element a filtered sequence holds comes from the base
/// sequence and satisfies the predicate.
proof fn lemma_filter_elem_of(s: Seq<PowerUp>, pred: spec_fn(PowerUp) -> bool, p: PowerUp)
    requires
        s.filter(pred).contains(p),
    ensures
        s.contains(p),
        pred(p),
    decreases s.len(),
{
    reveal(Seq::filter);
    if s.len() > 0 {
        if pred(s.last()) && p == s.last() {
            assert(s[s.len() - 1] == p);
        } else {
            lemma_filter_elem_of(s.drop_last(), pred, p);
            let j = choose|j: int| 0 <= j < s.drop_last().len() && s.drop_last()[j] == p;
            assert(s[j] == p);
        }
    }
}

/// Removal and flicker law for the expiry pass. After `update` at
/// `now_ms`: no surviving power-up is consumed or past the expiry age,
/// whatever its other state; every survivor past the warning age
/// carries the positive warning counter; and a power-up at or under
/// the warning age that survives does so unchanged, its counter
/// untouched.
pub proof fn lemma_update_removal_and_flicker(s: Seq<PowerUp>, now_ms: u64)
    ensures
        forall|p: PowerUp|
            #[trigger] update_spec(s, now_ms).contains(p) ==> !p.was_consumed && !expired(p, now_ms),
        forall|p: PowerUp|
            #[trigger] update_spec(s, now_ms).contains(p) && flicker_due(p, now_ms)
                ==> p.flickering == FLICKER_START,
        forall|i: int|
            0 <= i < s.len() && !flicker_due(#[trigger] s[i], now_ms) && keeps(s[i], now_ms)
                ==> update_spec(s, now_ms).contains(s[i]),
{
    let mapped = s.map_values(flicker_fn(now_ms));
    assert forall|p: PowerUp| #[trigger] update_spec(s, now_ms).contains(p) implies !p.was_consumed
        && !expired(p, now_ms) && (flicker_due(p, now_ms) ==> p.flickering == FLICKER_START) by {
        lemma_filter_elem_of(mapped, keeps_fn(now_ms), p);
        assert(keeps(p, now_ms));
        let j = choose|j: int| 0 <= j < mapped.len() && mapped[j] == p;
        assert(p == flicker_step(s[j], now_ms));
    }
    assert forall|i: int|
        0 <= i < s.len() && !flicker_due(#[trigger] s[i], now_ms) && keeps(s[i], now_ms) implies
        update_spec(s, now_ms).contains(s[i]) by {
        assert(mapped[i] == flicker_step(s[i], now_ms));
        assert(mapped[i] == s[i]);
        mapped.lemma_filter_contains(keeps_fn(now_ms), i);
    }
}

} // verus!
