//! Core of a live command monitor: a polling/diff engine that owns the most
//! recent output of a shell command, recomputes which lines changed on every
//! poll, and hands the changed lines (plus a few control payloads) to a push
//! layer for display.
//!
//! The engine itself is synchronous and free of transport concerns: the host
//! application spawns the process, hands the raw outcome in, and forwards the
//! resulting messages to its clients.

pub mod cmd;
pub mod conf;
pub mod msg;
pub mod runner;
pub mod text;

mod clock;
