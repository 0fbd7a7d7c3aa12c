//! Gameplay rules of a third-person shooter: what every controllable
//! entity decides on each simulation tick, and the layered animation
//! state machines that follow those decisions.
//!
//! The library holds no scene, no physics world and no clock. The host
//! samples them, hands the samples over as plain values, and carries out
//! the commands and messages that come back.
//!
//! Continuous quantities are fixed-point integers in thousandths
//! ([`math::UNIT`]): a length of `750` is three quarters of a world unit,
//! a duration of `300` is three tenths of a second, an angle of `45_000`
//! is forty-five degrees.

pub mod actor;
pub mod bot;
pub mod character;
pub mod container;
pub mod control_scheme;
pub mod handle;
pub mod level;
pub mod machine;
pub mod math;
pub mod message;
pub mod player;
pub mod random;
pub mod signal;
pub mod text;
