//! Run a command again whenever watched files change.
//!
//! The library decides and leaves the doing to its caller. `filter` says
//! which changed paths matter, `gate` keeps restarts an interval apart,
//! `supervisor` says which process to terminate and what to start, and
//! `watcher` ties the three into one state machine, `Fwatcher`. `config`
//! makes a watcher from the arguments of an invocation. Patterns are those of
//! the `glob` crate, which `pattern` wraps.

pub mod config;
pub mod filter;
pub mod gate;
pub mod number;
pub mod pattern;
pub mod supervisor;
pub mod text;
pub mod watcher;

pub use watcher::Fwatcher;
