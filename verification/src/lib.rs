//! A client-side reconciliation engine that keeps a live game session
//! consistent with a remote multiworld coordination server.
//!
//! The engine is organised as a collection of pure state machines that are
//! driven once per host tick. All interaction with the outside world (the
//! connection facade, the game-memory provider, persistence) happens through
//! plain values: the host hands in snapshots and events, and the engine hands
//! back a list of [`actions::Action`]s to perform, together with its updated
//! state.

pub mod actions;
pub mod commands;
pub mod config;
pub mod deathlink;
pub mod delivery;
pub mod engine;
pub mod errors;
pub mod events;
pub mod goal;
pub mod hints;
pub mod identity;
pub mod input_blocker;
pub mod locations;
pub mod log_buffer;
pub mod parse;
pub mod save_data;
pub mod session;
pub mod slot_data;
pub mod snapshot;
