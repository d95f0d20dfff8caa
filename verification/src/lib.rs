//! Bridges a desktop environment's declarative input configuration store
//! to the live control surface of whichever compositor is running.
//!
//! The core is a diff-to-event translation engine plus a capability-based
//! dispatch layer: successive snapshots of a configuration domain are
//! diffed into a minimal, ordered sequence of atomic events, and each
//! event is routed to a backend adapter that expresses it in the
//! backend's own protocol, degrading gracefully when a backend cannot
//! express it.

pub mod compositor;
pub mod diff;
pub mod error;
pub mod event;
pub mod identifier;
pub mod model;
pub mod numfmt;
pub mod options;
pub mod strutil;
pub mod watcher;
