//! The time gate that both spawn cooldowns share: an action is allowed
//! again only once strictly more than a fixed interval has passed since
//! the instant it last ran.

use vstd::prelude::*;

verus! {

/// A gate opened at `last_ms` is ready again at `now_ms` iff strictly
/// more than `interval_ms` milliseconds lie between the two instants.
pub open spec fn spawn_ready(last_ms: u64, now_ms: u64, interval_ms: u64) -> bool {
    now_ms > last_ms + interval_ms
}

/// Compares the two clock values without overflowing; if `now_ms`
/// lies before `last_ms`, the answer is `false`.
pub fn cooldown_elapsed(last_ms: u64, now_ms: u64, interval_ms: u64) -> (r: bool)
    ensures
        r == spawn_ready(last_ms, now_ms, interval_ms),
{
    now_ms > last_ms && now_ms - last_ms > interval_ms
}

/// Cooldown law: `spawn_ready(t, t, d)` is `false` for every `t` and
/// `d`, and `spawn_ready(t, n, d)` holds exactly when `n > t + d`.
pub proof fn lemma_cooldown_after_action(t: u64, now_ms: u64, interval_ms: u64)
    ensures
        !spawn_ready(t, t, interval_ms),
        spawn_ready(t, now_ms, interval_ms) <==> now_ms > t + interval_ms,
{
}

} // verus!
