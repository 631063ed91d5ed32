//! Coordination core of a language server for a configuration language.
//!
//! The crate models the subsystem that reacts to editor events: it keeps a
//! virtual filesystem with a pending-change queue, discovers and retires
//! per-workspace compilation contexts, tracks which workspaces own each open
//! file, schedules compiles, diffs and publishes diagnostics, and services
//! client requests through a request queue.  Every decision the event loop
//! makes is a verified function from state and event to next state and a list
//! of actions; the surrounding process (channels, worker threads, the compiler
//! itself) performs the actions and feeds the results back in as events.

pub mod analysis;
pub mod assoc;
pub mod changed;
pub mod compile;
pub mod diagnostics;
pub mod events;
pub mod laws;
pub mod requests;
pub mod selector;
pub mod service;
pub mod state;
pub mod types;
pub mod version;
pub mod vfs;
