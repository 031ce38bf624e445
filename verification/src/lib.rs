//! Fires up to four relay-driven cables at configured times of day.
//!
//! The crate holds the rules of the controller: the schedule and its textual
//! form, the per-channel trigger state machine, and what the configuration
//! page and the status display show. Reading the clock, the durable slot and
//! the output lines is left to the caller.

pub mod bytes;
pub mod clock;
pub mod codec;
pub mod document;
pub mod endpoint;
pub mod engine;
pub mod presenter;
pub mod run;
pub mod schedule;
pub mod store;
pub mod time;
