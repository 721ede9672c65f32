//! The task-spawning facade itself.
use vstd::prelude::*;

use crate::error::{PoolCreationError, SubmissionError};
use crate::pool::{clone_pool, make_default_pool, submit_to_pool};
use futures::executor::ThreadPool;
use futures::future::RemoteHandle;
use futures::task::{FutureObj, SpawnError};

verus! {

/// A task-spawning facade that owns (a handle to) one worker pool and submits
/// asynchronous units of work to it.
///
/// The facade has no state beyond the pool handle. It may be duplicated
/// freely; every duplicate is backed by the same underlying pool.
pub struct TaskSpawner {
    /// The handle to the worker pool this facade submits to.
    pub pool_handle: ThreadPool,
}

/// Compile-time assertion that the facade is safe to hand to and share with
/// other threads, as its concurrency contract demands.
#[allow(dead_code)]
trait AssertSendSync: Send + Sync {

}

impl AssertSendSync for TaskSpawner {

}

/// What the facade makes of a pool-creation outcome: a successful allocation
/// becomes a spawner wrapping the fresh pool, and a failure surfaces as a
/// `PoolCreationError` carrying the platform error — never as a spawner
/// without a working pool.
pub open spec fn creation_outcome(outcome: Result<ThreadPool, std::io::Error>) -> Result<
    TaskSpawner,
    PoolCreationError,
> {
    match outcome {
        Ok(pool) => Ok(TaskSpawner { pool_handle: pool }),
        Err(e) => Err(PoolCreationError { source: e }),
    }
}

/// What the facade makes of one submission outcome: an accepted submission
/// hands the completion handle through unchanged, and a rejected one surfaces
/// as a `SubmissionError` carrying the pool's own error.
pub open spec fn submission_outcome<T>(
    outcome: Result<RemoteHandle<T>, SpawnError>,
) -> Result<RemoteHandle<T>, SubmissionError> {
    match outcome {
        Ok(handle) => Ok(handle),
        Err(e) => Err(SubmissionError { source: e }),
    }
}

/// Turn the outcome of a pool allocation into the facade's own result type,
/// exactly as `creation_outcome` states.
pub fn wrap_pool_creation(outcome: Result<ThreadPool, std::io::Error>) -> (r: Result<
    TaskSpawner,
    PoolCreationError,
>)
    ensures
        r == creation_outcome(outcome),
{
    match outcome {
        Ok(pool) => Ok(TaskSpawner { pool_handle: pool }),
        Err(e) => Err(PoolCreationError { source: e }),
    }
}

/// Turn the outcome of one pool submission into the facade's own result type,
/// exactly as `submission_outcome` states.
pub fn wrap_submission<T>(outcome: Result<RemoteHandle<T>, SpawnError>) -> (r: Result<
    RemoteHandle<T>,
    SubmissionError,
>)
    ensures
        r == submission_outcome(outcome),
{
    match outcome {
        Ok(handle) => Ok(handle),
        Err(e) => Err(SubmissionError { source: e }),
    }
}

impl TaskSpawner {
    /// Construct a spawner backed by a freshly created default-configuration
    /// worker pool. This is the facade's only fallible operation: when the
    /// runtime cannot allocate the worker threads, the platform error is
    /// surfaced as a `PoolCreationError` rather than a non-functional spawner.
    pub fn new() -> (r: Result<TaskSpawner, PoolCreationError>) {
        wrap_pool_creation(make_default_pool())
    }

    /// Extract the underlying pool handle, consuming the facade. The pool
    /// itself survives and may be reused directly or wrapped again.
    pub fn into_pool(self) -> (r: ThreadPool)
        ensures
            r == self.pool_handle,
    {
        self.pool_handle
    }

    /// Submit a fire-and-forget unit of work (one whose result is the unit
    /// value) and return its completion handle. The submission is accepted:
    /// the pool enqueues every unit handed to it while it is alive.
    ///
    /// Awaiting the handle yields the unit value once the work has finished.
    /// Dropping the handle before completion signals cooperative cancellation
    /// of the work; call `forget` on the handle first to let it run on
    /// unobserved.
    pub fn spawn(&self, work: FutureObj<'static, ()>) -> (r: Result<
        RemoteHandle<()>,
        SubmissionError,
    >)
        ensures
            r matches Ok(_),
    {
        self.spawn_res(work)
    }

    /// Submit a result-bearing unit of work and return its completion handle,
    /// which resolves exactly once, to the work's own result. The submission
    /// is accepted: the pool enqueues every unit handed to it while it is
    /// alive.
    ///
    /// Dropping the handle before completion signals cooperative cancellation
    /// of the work.
    pub fn spawn_res<T: Send + 'static>(&self, work: FutureObj<'static, T>) -> (r: Result<
        RemoteHandle<T>,
        SubmissionError,
    >)
        ensures
            r matches Ok(_),
    {
        wrap_submission(submit_to_pool(&self.pool_handle, work))
    }
}

impl Clone for TaskSpawner {
    /// Duplicate the facade. The duplicate is backed by the very pool of the
    /// original: duplication shares the pool, it never creates a new one.
    fn clone(&self) -> (r: Self)
        ensures
            r == *self,
    {
        TaskSpawner { pool_handle: clone_pool(&self.pool_handle) }
    }
}

impl From<ThreadPool> for TaskSpawner {
    /// Wrap an already-constructed pool. This conversion cannot fail: the
    /// caller guarantees pool validity by handing one over.
    fn from(pool: ThreadPool) -> (r: TaskSpawner) {
        TaskSpawner { pool_handle: pool }
    }
}

impl vstd::std_specs::convert::FromSpecImpl<ThreadPool> for TaskSpawner {
    open spec fn obeys_from_spec() -> bool {
        true
    }

    open spec fn from_spec(pool: ThreadPool) -> TaskSpawner {
        TaskSpawner { pool_handle: pool }
    }
}

/// Law: wrapping a pool and then extracting it yields the original pool
/// handle — `TaskSpawner::from` followed by `into_pool` is the identity on
/// pools, so the extracted handle refers to the same underlying worker set.
pub proof fn lemma_from_into_pool_round_trip(pool: ThreadPool)
    ensures
        <TaskSpawner as vstd::std_specs::convert::FromSpec<ThreadPool>>::from_spec(
            pool,
        ).pool_handle == pool,
{
}

} // verus!
