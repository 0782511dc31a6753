//! Stage scheduling for a small arcade shooter: wave scripts, the orchestrator
//! that runs them tick by tick, and the combat rules around it.
//!
//! Everything here works on plain values. Times are whole nanoseconds,
//! positions are whole pixels and entities are identified by their bits.

pub mod clock;
pub mod collision;
pub mod components;
pub mod enemy;
pub mod health;
pub mod player;
pub mod projectile;
pub mod random;
pub mod stage;
pub mod state;

