//! Client-side clock/tick synchronization and redundant per-tick input
//! buffering for a client/server simulation.
//!
//! The crate has two cores. [`sync::SyncManager`] maps local wall-clock time
//! onto the server's logical timeline: a one-shot handshake snaps the local
//! tick forward, and a steady-state governor nudges a playback-speed
//! multiplier so that client packets for tick `T` keep arriving just before
//! the server simulates tick `T`. [`input_buffer::InputBuffer`] stores one
//! optional action per tick in a sliding window and serializes a redundant,
//! change-run-encoded slice of it, so the server can recover recent inputs
//! after losing several consecutive packets.

pub mod input;
pub mod input_buffer;
pub mod interpolation;
pub mod message;
pub mod plugin;
pub mod sync;
pub mod tick;
pub mod time;
