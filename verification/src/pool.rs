//! The trusted boundary to the worker-pool capability.
//!
//! Everything the facade needs from the `futures` crate crosses through this
//! module: the opaque pool, handle and error types, and one wrapper per pool
//! primitive (allocate a default pool, submit one unit of work).
use vstd::prelude::*;

verus! {

/// The worker pool this facade wraps. A `ThreadPool` value is a handle to the
/// pool itself: cloning it creates a new reference to the same pool, not a new
/// pool.
#[verifier::external_type_specification]
#[verifier::external_body]
pub struct ExThreadPool(futures::executor::ThreadPool);

/// The platform error reported when the runtime cannot allocate the pool's
/// worker threads.
#[verifier::external_type_specification]
#[verifier::external_body]
pub struct ExIoError(std::io::Error);

/// One unit of asynchronous work, already boxed for submission, together with
/// the proof obligation (carried by the type itself) that it is safe to hand
/// across worker-thread boundaries.
#[verifier::external_type_specification]
#[verifier::external_body]
#[verifier::reject_recursive_types(T)]
pub struct ExFutureObj<'a, T>(futures::task::FutureObj<'a, T>);

/// The completion handle for one submitted unit of work: awaiting it yields
/// the unit's eventual result, and dropping it signals cooperative
/// cancellation to the pool.
#[verifier::external_type_specification]
#[verifier::external_body]
#[verifier::reject_recursive_types(T)]
pub struct ExRemoteHandle<T>(futures::future::RemoteHandle<T>);

/// The error a pool reports when it cannot accept a submission (it has been
/// shut down).
#[verifier::external_type_specification]
#[verifier::external_body]
pub struct ExSpawnError(futures::task::SpawnError);

/// Relies on `futures::executor::ThreadPool::clone`: a `ThreadPool` value is
/// a handle to the pool, and cloning it creates a new reference to the same
/// pool, never a new pool, so the clone stands for the same pool.
#[verifier::external_body]
pub(crate) fn clone_pool(pool: &futures::executor::ThreadPool) -> (r:
    futures::executor::ThreadPool)
    ensures
        r == *pool,
{
    pool.clone()
}

/// Relies on `futures::executor::ThreadPool::new`: it builds a pool with the
/// default configuration, or reports the platform error when the runtime
/// cannot allocate the worker threads.
#[verifier::external_body]
pub(crate) fn make_default_pool() -> Result<futures::executor::ThreadPool, std::io::Error> {
    futures::executor::ThreadPool::new()
}

/// Relies on `futures::task::SpawnExt::spawn_with_handle` on a `ThreadPool`:
/// it enqueues the unit of work and returns its completion handle. Success is
/// promised because `ThreadPool`'s `Spawn` impl (`spawn_obj`) unconditionally
/// returns `Ok`, and `spawn_with_handle` fails only when that call does; the
/// pool's submission channel lives inside the shared pool state, so the
/// enqueue cannot fail while a handle to the pool is alive.
#[verifier::external_body]
pub(crate) fn submit_to_pool<T: Send + 'static>(
    pool: &futures::executor::ThreadPool,
    work: futures::task::FutureObj<'static, T>,
) -> (r: Result<futures::future::RemoteHandle<T>, futures::task::SpawnError>)
    ensures
        r matches Ok(_),
{
    futures::task::SpawnExt::spawn_with_handle(pool, work)
}

} // verus!
