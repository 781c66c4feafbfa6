//! Bootstrap information provider for an embedded script-execution engine.
//!
//! A hosting process constructs an immutable [`options::BootstrapOptions`]
//! record before the engine starts; the queries in this crate answer the
//! just-started script environment's questions about that record, about the
//! process-wide [`state::BootstrapState`] (snapshot metadata and runtime
//! origin), about terminal color capability, and about enabled unstable
//! features. Every query is a pure read of already-resolved data; the one
//! stateful operation is the one-shot consumption of snapshot metadata.

pub mod color;
pub mod features;
pub mod options;
pub mod snapshot;
pub mod state;
