//! A single-instance, single-spawn run controller.
//!
//! The controller owns one configured asynchronous service and drives it
//! through four operations: `create`, `spawn` (begin and conclude a run),
//! `reload` (a fire-and-forget signal into the running service) and `stop`
//! (a one-shot signal that races against the run's natural completion).
//! Exactly one spawn can ever take the run's parts from an instance; reload
//! tokens sent before the run starts are queued and none is lost; stop can be
//! requested at most once and an early stop is kept for the coming run.

pub mod channels;
pub mod config;
pub mod errors;
pub mod instance;
