//! Deterministic core of a two-player rollback platformer: input decoding,
//! the attackers' and defender's behaviour, the round lifecycle, the
//! broad-phase pair order, contact queries and per-body checksums. Every
//! frame step is a function of the previous state and the frame's events,
//! so peers that agree on inputs agree on state.

pub mod checksum;
pub mod input;
pub mod contacts;
pub mod behavior;
pub mod cake;
pub mod round;
pub mod simulation;
pub mod session;
pub mod broad_phase;
