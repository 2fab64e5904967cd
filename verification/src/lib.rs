//! A verified frame-tick transition engine.
//!
//! The crate models the time-driven core of a small exploration game: a
//! countdown timer with fraction-based progress queries, easing curves, a
//! generic delayed-event queue with at-most-once delivery, fade and volume
//! transition state machines that detach themselves on completion, a
//! multi-segment camera path follower, and the supporting zone, world and
//! terminal state machines that feed them.
//!
//! All time is measured in integer milliseconds and all interpolated scalars
//! (opacities, volumes, coordinates) are fixed-point values, so every update
//! rule is exact and provable.

pub mod boot;
pub mod delayed;
pub mod easing;
pub mod fixed;
pub mod path;
pub mod sound;
pub mod terminal;
pub mod timer;
pub mod transition;
pub mod world;
pub mod zone;
