//! Sandboxes that are Firecracker micro virtual machines.

pub mod api;
pub mod boot;
pub mod config;
pub mod error;
pub mod files;
pub mod info;
pub mod kernel;
pub mod process;
pub mod registry;
pub mod requests;
pub mod runtime;
pub mod sandbox;
