//! Combat targeting and tower behaviour for a tower-defense game.
//!
//! World positions are integer points, durations are nanoseconds, and every
//! decision a tower makes in a tick (whether it fires, at which enemy, with
//! which projectile) is computed by verified code.
pub mod geometry;
pub mod attack_timer;
pub mod targeting_priority;
pub mod tower;
pub mod tower_type;
