//! Execution engine for a networked code-execution service: the job data
//! model, language adapters as command plans, the driver's decision logic,
//! the FIFO scheduler state, the client registry, and the outbound frame
//! encoding.

pub mod adapter;
pub mod clock;
pub mod config;
pub mod driver;
pub mod exec;
pub mod ids;
pub mod json;
pub mod lang;
pub mod pool;
pub mod runner;
pub mod sandbox;
pub mod text;

use vstd::prelude::*;

verus! {

/// A wall-clock timestamp, in nanoseconds since the Unix epoch.
pub type Nanos = i64;

} // verus!
