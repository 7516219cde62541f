//! Micro virtual machines of firecracker-containerd.

pub mod config;
pub mod create;
pub mod destroy;
pub mod error;
pub mod images;
pub mod info;
pub mod register;
pub mod requests;
pub mod runtime;
pub mod sandbox;
