//! Core model of a bot process that plays a simulated, tick-driven ball game
//! against an engine process over a single-slot shared-memory channel.
//!
//! The crate covers three concerns:
//! - the per-match configuration and per-tick game state that the two
//!   processes exchange (`config`, `state`, `util`);
//! - the mirroring transform between the engine's absolute frame and the
//!   canonical frame in which the bot's own team always occupies the low
//!   player identifiers and a fixed side of the field (`state`);
//! - the request/response discipline of the shared channel: the handshake
//!   gate, the dispatch of reset and tick requests, the ownership flag, and
//!   the adaptive wait policy (`ipc`).
//!
//! Coordinates are exact integer scalars here. The process boundary that
//! maps the shared region owns the engine's wire representation of scalars
//! and performs the conversion; every transform and every protocol decision
//! in this crate is over plain integers and is verified.

pub mod config;
pub mod ipc;
pub mod state;
pub mod util;
