//! Engine for a two-player, turn-based duel driven by interaction events.
//!
//! The engine keeps one duel per session key in an in-memory store, advances
//! each duel through a pure state machine, and answers every event with a
//! render instruction for an external presentation layer. All platform I/O
//! (delivering events, drawing the instructions) lives outside this crate.

pub mod config;
pub mod dispatch;
pub mod duel;
pub mod laws;
pub mod store;
