//! Streaming job adapter for a callback-driven speech-synthesis engine.
//!
//! The engine delivers partial results through callbacks that fire on a
//! thread of its own choosing while the submitting call has already
//! returned.  This crate gives that protocol a well-defined shape: a
//! parameter record sized at runtime, a per-job state machine, a drain
//! loop that accumulates chunks in arrival order, a single-use completion
//! gate, and a collector for timestamped synthesis events.

pub mod codes;
pub mod config;
pub mod drain;
pub mod error;
pub mod events;
pub mod gate;
pub mod job;
pub mod orchestrator;
pub mod param;

use vstd::prelude::*;

verus! {

/// Largest scratch capacity for a text-buffer drain, in bytes.
pub const LEN_TEXT_BUF_MAX: u32 = 65536;

/// Largest scratch capacity for a raw-audio drain, in bytes.
pub const LEN_RAW_BUF_MAX_BYTES: u32 = 1048576;

} // verus!
