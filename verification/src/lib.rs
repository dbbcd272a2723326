//! Verified core of a small game server: live two-player chess sessions over
//! persistent connections, together with the pure decision logic of the
//! surrounding account and blog endpoints.
//!
//! The session core owns matchmaking, the per-game state machine (turn
//! enforcement, repetition bookkeeping, draw and win detection) and the wire
//! protocol. Move legality and outcome classification are delegated to an
//! outside rules engine behind a narrow, trusted capability interface.

pub mod admin;
pub mod auth;
pub mod blog;
pub mod directory;
pub mod engine;
pub mod general;
pub mod protocol;
pub mod repetition;
pub mod session;
pub mod table;
