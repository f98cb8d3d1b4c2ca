//! An admission-controlled load-generation core: a bounded pool of
//! concurrency permits, aggregate outcome counters, and the run state
//! machine that launches a fixed number of requests while never admitting
//! more than the pool's capacity in flight at once.

pub mod admission;
pub mod run;
pub mod stats;
