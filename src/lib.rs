//! The per-frame core of a player-controlled body whose thrust spawns
//! short-lived particle emitters.
//!
//! All quantities are integers: lengths and speeds in thousandths of a
//! world unit, times in microseconds. The host engine converts to and from
//! its own floating-point types at the edge.
pub mod vector;
pub mod input;
pub mod channel;
pub mod body;
pub mod effects;
pub mod frame;
pub mod orbit;
