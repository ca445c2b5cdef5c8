//! Entity-lifecycle core of a fixed-tick arcade game loop: spawning,
//! timing, per-frame updates, collision resolution, and expiry-driven
//! removal of enemies, power-ups, and one-shot visual effects.
//!
//! All quantities are integers: wall-clock instants and durations are
//! milliseconds, and spatial coordinates, sizes, and velocities are
//! thousandths of a pixel ("milli-pixels"), so that sub-pixel motion
//! is represented exactly. Rendering, asset loading, and the window
//! loop live outside this crate; the managers here hand the renderer
//! plain draw commands and read the clock through millisecond values
//! supplied by the caller.

pub mod enemy;
pub mod geometry;
pub mod humanoid;
pub mod oneoffanim;
pub mod powerup;
mod rng;
pub mod timing;
