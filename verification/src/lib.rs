//! A minimal task-spawning facade over a worker thread pool.
//!
//! The facade wraps one [`futures::executor::ThreadPool`] and exposes two
//! submission operations: fire-and-forget (`spawn`) and spawn-and-await-result
//! (`spawn_res`). Each submission yields a completion handle that resolves
//! exactly once with the work's result.
mod error;
mod pool;
mod spawner;

pub use error::PoolCreationError;
pub use error::SubmissionError;
pub use spawner::TaskSpawner;
pub use spawner::creation_outcome;
pub use spawner::lemma_from_into_pool_round_trip;
pub use spawner::submission_outcome;
pub use spawner::wrap_pool_creation;
pub use spawner::wrap_submission;
