//! Cadence model and click scheduling for a pointer-button auto clicker.
//!
//! The crate turns a chosen cadence (a fixed time interval or a target rate,
//! with optional humanising jitter) into the decisions of a cancellable click
//! loop. Waiting, event injection and the user interface belong to the host
//! program; everything decided here is stated in contracts and proved.

pub mod accessibility;
pub mod app;
pub mod click;
pub mod input;
pub mod interval;
pub mod jitter;
pub mod session;
