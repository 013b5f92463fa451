//! The lifecycle and command-dispatch layer of a host-driven effect plug-in.
//!
//! A host application loads one module, drives it through a sequence of
//! numbered commands and unloads it again. This crate holds the rules of that
//! conversation: which block of host memory a command may touch, who owns it
//! afterwards, which plug-in callback runs, and which status the host is
//! given. The host's memory is an explicit arena of blocks, so every rule is
//! a statement about plain values.

pub mod command;
pub mod dispatch;
pub mod error;
pub mod global;
pub mod handle;
pub mod layer;
pub mod memory;
pub mod params;
pub mod plugin;
pub mod sequence;
pub mod serializer;
pub mod suites;
