//! Fire-and-forget visual effects: a pool of animation instances that
//! share one animation definition and one cadence timer, advance their
//! frames in lockstep, and are swept away on reaching the final frame.

use vstd::prelude::*;

use crate::geometry::Vec2i;
use crate::timing::{cooldown_elapsed, spawn_ready};

verus! {

/// Milliseconds that must pass, strictly, between two frame advances;
/// one gate is shared by every instance of the effect.
pub const FRAME_INTERVAL_MS: u64 = 100;

/// One effect instance: its position and its current frame index into
/// the shared animation definition.
#[derive(Clone, Copy, Debug, PartialEq, Eq, Structural)]
pub struct OneOffAnimation {
    pub current_frame: u8,
    pub position: Vec2i,
}

/// An instance survives the cleanup sweep iff it has not reached the
/// final frame of the shared definition.
pub open spec fn live_fn(frame_count: u8) -> spec_fn(OneOffAnimation) -> bool {
    |e: OneOffAnimation| e.current_frame != frame_count - 1
}

/// One frame advance of a surviving instance.
pub open spec fn bump_fn() -> spec_fn(OneOffAnimation) -> OneOffAnimation {
    |e: OneOffAnimation| OneOffAnimation { current_frame: (e.current_frame + 1) as u8, ..e }
}

/// What the cleanup sweep leaves: every instance short of the final
/// frame, in order.
pub open spec fn cleaned_spec(s: Seq<OneOffAnimation>, frame_count: u8) -> Seq<OneOffAnimation> {
    s.filter(live_fn(frame_count))
}

/// What one gated update leaves: the cleanup sweep, then one frame
/// advance for every remaining instance.
pub open spec fn advance_spec(s: Seq<OneOffAnimation>, frame_count: u8) -> Seq<OneOffAnimation> {
    cleaned_spec(s, frame_count).map_values(bump_fn())
}

/// Owns the effect pool, the shared frame count of the animation
/// definition, and the shared cadence timer.
pub struct OneOffAnimationManager {
    last_updated_ms: u64,
    explosion_anim_frames: u8,
    explosions: Vec<OneOffAnimation>,
}

impl OneOffAnimationManager {
    /// The live instances, in the order they were added.
    pub closed spec fn explosion_seq(&self) -> Seq<OneOffAnimation> {
        self.explosions@
    }

    /// The instant of the last frame advance, in milliseconds.
    pub closed spec fn last_updated(&self) -> u64 {
        self.last_updated_ms
    }

    /// How many frames the shared animation definition has.
    pub closed spec fn frames(&self) -> u8 {
        self.explosion_anim_frames
    }

    /// The definition has at least one frame and every instance's
    /// frame index lies inside it.
    pub open spec fn wf(&self) -> bool {
        &&& self.frames() >= 1
        &&& forall|i: int|
            0 <= i < self.explosion_seq().len() ==> (#[trigger] self.explosion_seq()[i]).current_frame
                < self.frames()
    }

    /// An empty pool over a definition with `frame_count` frames,
    /// whose cadence timer starts at `now_ms`.
    pub fn new(now_ms: u64, frame_count: u8) -> (m: OneOffAnimationManager)
        requires
            frame_count >= 1,
        ensures
            m.explosion_seq() == Seq::<OneOffAnimation>::empty(),
            m.last_updated() == now_ms,
            m.frames() == frame_count,
            m.wf(),
    {
        let m = OneOffAnimationManager {
            last_updated_ms: now_ms,
            explosion_anim_frames: frame_count,
            explosions: Vec::new(),
        };
        proof {
            assert(m.explosion_seq() =~= Seq::<OneOffAnimation>::empty());
        }
        m
    }

    /// Appends one instance at frame zero.
    pub fn add_explosion(&mut self, position: Vec2i)
        requires
            old(self).wf(),
        ensures
            final(self).wf(),
            final(self).explosion_seq() == old(self).explosion_seq().push(
                OneOffAnimation { current_frame: 0, position },
            ),
            final(self).last_updated() == old(self).last_updated(),
            final(self).frames() == old(self).frames(),
    {
        let explosion_anim = OneOffAnimation { current_frame: 0, position };
        self.explosions.push(explosion_anim);
        proof {
            assert forall|i: int|
                0 <= i < self.explosion_seq().len() implies (
            #[trigger] self.explosion_seq()[i]).current_frame < self.frames() by {
                if i < old(self).explosion_seq().len() {
                    assert(old(self).explosion_seq()[i].current_frame < old(self).frames());
                }
            }
        }
    }

    /// The cleanup sweep: removes every instance standing on the final
    /// frame. It runs before any frame advance, so an instance lives
    /// for exactly one update per frame of the definition.
    fn clean_up_finished_animations(&mut self)
        requires
            old(self).wf(),
        ensures
            final(self).wf(),
            final(self).explosion_seq() == cleaned_spec(old(self).explosion_seq(), old(self).frames()),
            final(self).last_updated() == old(self).last_updated(),
            final(self).frames() == old(self).frames(),
            forall|i: int|
                0 <= i < final(self).explosion_seq().len()
                    ==> (#[trigger] final(self).explosion_seq()[i]).current_frame
                    < final(self).frames() - 1,
    {
        let explosion_final_frame: u8 = self.explosion_anim_frames - 1;
        let n: usize = self.explosions.len();
        let mut out: Vec<OneOffAnimation> = Vec::new();
        let mut i: usize = 0;
        while i < n
            invariant
                i <= n,
                n == self.explosions.len(),
                self.explosions@ == old(self).explosion_seq(),
                self.explosion_anim_frames == old(self).frames(),
                self.last_updated_ms == old(self).last_updated(),
                explosion_final_frame == old(self).frames() - 1,
                old(self).wf(),
                out@ == cleaned_spec(old(self).explosion_seq().take(i as int), old(self).frames()),
                forall|k: int|
                    0 <= k < out@.len() ==> (#[trigger] out@[k]).current_frame < old(self).frames()
                        - 1,
            decreases n - i,
        {
            let ghost s = old(self).explosion_seq();
            let e = self.explosions[i];
            proof {
                assert(e == s[i as int]);
                assert(s[i as int].current_frame < old(self).frames());
                s.lemma_take_succ_push(i as int);
                s.take(i as int).lemma_filter_push(s[i as int], live_fn(old(self).frames()));
            }
            if e.current_frame != explosion_final_frame {
                out.push(e);
            }
            i = i + 1;
        }
        self.explosions = out;
        proof {
            assert(old(self).explosion_seq().take(n as int) =~= old(self).explosion_seq());
        }
    }

    /// True iff strictly more than the cadence interval has elapsed
    /// since the last frame advance.
    fn can_update_frames(&self, now_ms: u64) -> (r: bool)
        ensures
            r == spawn_ready(self.last_updated(), now_ms, FRAME_INTERVAL_MS),
    {
        cooldown_elapsed(self.last_updated_ms, now_ms, FRAME_INTERVAL_MS)
    }

    /// One tick of the pool: finished instances are swept away first;
    /// then, only if the shared cadence gate is open, the timer
    /// restarts at `now_ms` and every remaining instance advances one
    /// frame — all of them together, which keeps instances of the same
    /// effect frame-synchronized.
    pub fn update(&mut self, now_ms: u64)
        requires
            old(self).wf(),
        ensures
            final(self).wf(),
            final(self).frames() == old(self).frames(),
            spawn_ready(old(self).last_updated(), now_ms, FRAME_INTERVAL_MS)
                ==> final(self).explosion_seq() == advance_spec(
                old(self).explosion_seq(),
                old(self).frames(),
            ) && final(self).last_updated() == now_ms,
            !spawn_ready(old(self).last_updated(), now_ms, FRAME_INTERVAL_MS)
                ==> final(self).explosion_seq() == cleaned_spec(
                old(self).explosion_seq(),
                old(self).frames(),
            ) && final(self).last_updated() == old(self).last_updated(),
    {
        self.clean_up_finished_animations();

        if !self.can_update_frames(now_ms) {
            return ;
        }

        self.last_updated_ms = now_ms;

        let ghost cleaned = self.explosions@;
        let n: usize = self.explosions.len();
        let mut i: usize = 0;
        while i < n
            invariant
                i <= n,
                n == self.explosions.len(),
                self.explosion_anim_frames == old(self).frames(),
                self.last_updated_ms == now_ms,
                cleaned == cleaned_spec(old(self).explosion_seq(), old(self).frames()),
                cleaned.len() == n,
                forall|k: int|
                    0 <= k < n ==> (#[trigger] cleaned[k]).current_frame < old(self).frames() - 1,
                forall|k: int| i <= k < n ==> self.explosions@[k] == cleaned[k],
                forall|k: int| 0 <= k < i ==> self.explosions@[k] == bump_fn()(cleaned[k]),
            decreases n - i,
        {
            let mut e = self.explosions[i];
            proof {
                assert(e == cleaned[i as int]);
                assert(cleaned[i as int].current_frame < old(self).frames() - 1);
            }
            e.current_frame = e.current_frame + 1;
            self.explosions.set(i, e);
            i = i + 1;
        }
        proof {
            assert(self.explosions@ =~= advance_spec(old(self).explosion_seq(), old(self).frames()));
            assert forall|k: int|
                0 <= k < self.explosion_seq().len() implies (
            #[trigger] self.explosion_seq()[k]).current_frame < self.frames() by {
                assert(self.explosions@[k] == bump_fn()(cleaned[k]));
            }
        }
    }

    /// What the renderer must draw this frame, in pool order: each
    /// instance's frame index to set on the shared animation resource,
    /// and the position to draw it at. Because every command retargets
    /// the one shared resource, the commands must be issued in order.
    pub fn draw(&self) -> (cmds: Vec<(u8, Vec2i)>)
        ensures
            cmds@ == self.explosion_seq().map_values(
                |e: OneOffAnimation| (e.current_frame, e.position),
            ),
    {
        let mut cmds: Vec<(u8, Vec2i)> = Vec::new();
        let n: usize = self.explosions.len();
        let mut i: usize = 0;
        while i < n
            invariant
                i <= n,
                n == self.explosions.len(),
                cmds@.len() == i,
                forall|j: int|
                    0 <= j < i ==> cmds@[j] == (
                        self.explosions@[j].current_frame,
                        self.explosions@[j].position,
                    ),
            decreases n - i,
        {
            cmds.push((self.explosions[i].current_frame, self.explosions[i].position));
            i = i + 1;
        }
        proof {
            assert(cmds@ =~= self.explosion_seq().map_values(
                |e: OneOffAnimation| (e.current_frame, e.position),
            ));
        }
        cmds
    }
}

/// The pool after `n` gated updates.
pub open spec fn advance_n(s: Seq<OneOffAnimation>, frame_count: u8, n: nat) -> Seq<OneOffAnimation>
    decreases n,
{
    if n == 0 {
        s
    } else {
        advance_spec(advance_n(s, frame_count, (n - 1) as nat), frame_count)
    }
}

/// Frame law for a single instance: added at frame zero, it stands on
/// frame `n` after `n` gated updates for every `n` short of the frame
/// count, and the update whose sweep finds it on the final frame — the
/// `frame_count`-th — removes it: never earlier, never later.
pub proof fn lemma_one_off_frame_law(position: Vec2i, frame_count: u8, n: nat)
    requires
        frame_count >= 1,
        n <= frame_count,
    ensures
        n < frame_count ==> advance_n(
            seq![OneOffAnimation { current_frame: 0, position }],
            frame_count,
            n,
        ) == seq![OneOffAnimation { current_frame: n as u8, position }],
        n == frame_count ==> advance_n(
            seq![OneOffAnimation { current_frame: 0, position }],
            frame_count,
            n,
        ) == Seq::<OneOffAnimation>::empty(),
    decreases n,
{
    reveal(Seq::filter);
    let s0 = seq![OneOffAnimation { current_frame: 0, position }];
    if n > 0 {
        lemma_one_off_frame_law(position, frame_count, (n - 1) as nat);
        let prev = seq![OneOffAnimation { current_frame: (n - 1) as u8, position }];
        assert(advance_n(s0, frame_count, (n - 1) as nat) == prev);
        assert(prev.drop_last() =~= Seq::<OneOffAnimation>::empty());
        if n < frame_count {
            assert(live_fn(frame_count)(prev.last()));
            assert(cleaned_spec(prev, frame_count) =~= prev);
            assert(advance_spec(prev, frame_count) =~= seq![
                OneOffAnimation { current_frame: n as u8, position },
            ]);
        } else {
            assert(!live_fn(frame_count)(prev.last()));
            assert(prev.drop_last() == Seq::<OneOffAnimation>::empty());
            assert(Seq::<OneOffAnimation>::empty().filter(live_fn(frame_count))
                =~= Seq::<OneOffAnimation>::empty());
            assert(prev =~= Seq::<OneOffAnimation>::empty().push(prev.last()));
            Seq::<OneOffAnimation>::empty().lemma_filter_push(prev.last(), live_fn(frame_count));
            assert(cleaned_spec(prev, frame_count) =~= Seq::<OneOffAnimation>::empty());
            assert(advance_spec(prev, frame_count) =~= Seq::<OneOffAnimation>::empty());
        }
    }
}

/// Lockstep law: in one gated update every surviving instance advances
/// by exactly one frame, so the frame distance between any two
/// survivors never changes — instances of the same effect stay
/// frame-synchronized however far apart they were added.
pub proof fn lemma_frames_locked(s: Seq<OneOffAnimation>, frame_count: u8)
    ensures
        advance_spec(s, frame_count).len() == cleaned_spec(s, frame_count).len(),
        forall|i: int|
            0 <= i < advance_spec(s, frame_count).len() ==> (#[trigger] advance_spec(
                s,
                frame_count,
            )[i]).current_frame == (cleaned_spec(s, frame_count)[i].current_frame + 1) as u8,
{
}

} // verus!
