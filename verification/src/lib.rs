//! Assembly and lifecycle coordination for the components of a full node.
//!
//! The library brings up the subsystems of a long-running server process —
//! a persistent data store, a pending-work pool, a core processing engine, a
//! synchronization service, a background producer, and optional network
//! front-ends — wires their dependencies in order, and returns a single
//! bundle of handles, or fails atomically with a descriptive error.

pub mod bundle;
pub mod config;
pub mod errors;
pub mod exit;
pub mod full;
pub mod policy;
mod shared;
pub mod subsystems;
