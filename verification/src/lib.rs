//! Core of an asynchronous log-delivery pipeline.
//!
//! Call sites hand log events to a bounded first-in-first-out channel; a single
//! consumer formats and prints them. This crate holds every decision of that
//! pipeline as sequential, verified code over plain values: which events are
//! admitted, what the channel does on each operation, what each output line
//! looks like, and how shutdown drains what is buffered. Threads, locks and the
//! output streams belong to the embedding program.
//!
//! - `severity`: severities, the threshold and its textual configuration
//! - `filter`: the allowlist of module paths
//! - `event`, `clock`: the log event and its time of day
//! - `channel`: the bounded hand-off
//! - `render`, `paint`, `text`: the output line
//! - `pipeline`: submitting, consuming and shutting down, one step at a time
//! - `logger`: the pipeline in one piece
//! - `model`: the pipeline as a state machine, and the laws of its runs
//! - `fault`: the emergency report of an unrecoverable fault
//! - `encoding`: texts and their bytes

pub mod channel;
pub mod clock;
pub mod encoding;
pub mod event;
pub mod fault;
pub mod filter;
pub mod logger;
pub mod model;
pub mod paint;
pub mod pipeline;
pub mod render;
pub mod severity;
pub mod text;

pub use logger::{init, AsyncLogger};
