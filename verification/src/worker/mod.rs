//! The worker: owner of one sandbox, and the machine that drives it.
//!
//! A worker does no I/O itself. [`machine::Worker::step`] takes what came of the last
//! [`machine::Action`] and returns the next one; whoever runs the worker performs the
//! actions and reports back. [`model`] says what each step does, [`laws`] what holds of
//! all of them.

pub mod error;
pub mod handles;
pub mod ids;
pub mod issuer;
pub mod laws;
pub mod machine;
pub mod messages;
pub mod model;
pub mod outcomes;
pub mod reply;
pub mod types;
