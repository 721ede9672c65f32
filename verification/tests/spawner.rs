use futures::executor::{block_on, ThreadPool};
use futures::task::{FutureObj, SpawnError, SpawnExt};
use std::sync::atomic::{AtomicBool, Ordering};
use std::sync::Arc;
use task_spawner::{wrap_pool_creation, wrap_submission, TaskSpawner};

#[test]
fn test_result() {
    let pool = ThreadPool::new().unwrap();
    let ev = TaskSpawner::from(pool);
    let ev = ev.clone();
    let runner = async move {
        let res = ev
            .spawn_res(FutureObj::new(Box::new(async { 5 + 5 })))
            .ok()
            .unwrap()
            .await;
        res
    };
    let t = block_on(runner);
    assert_eq!(t, 10);
}

#[test]
fn round_trip_values() {
    let ev = TaskSpawner::new().ok().unwrap();
    let n: u64 = block_on(
        ev.spawn_res(FutureObj::new(Box::new(async { 42u64 })))
            .ok()
            .unwrap(),
    );
    assert_eq!(n, 42u64);
    let s: String = block_on(
        ev.spawn_res(FutureObj::new(Box::new(async { String::from("hello") })))
            .ok()
            .unwrap(),
    );
    assert_eq!(s, "hello");
}

#[test]
fn fire_and_forget_completion_signal() {
    let ev = TaskSpawner::new().ok().unwrap();
    let ran = Arc::new(AtomicBool::new(false));
    let flag = ran.clone();
    let handle = ev
        .spawn(FutureObj::new(Box::new(async move {
            flag.store(true, Ordering::SeqCst);
        })))
        .ok()
        .unwrap();
    let unit: () = block_on(handle);
    assert_eq!(unit, ());
    assert!(ran.load(Ordering::SeqCst));
}

#[test]
fn independent_units_keep_their_own_results() {
    let ev = TaskSpawner::new().ok().unwrap();
    let mut handles = Vec::new();
    for i in 0..16u64 {
        handles.push(
            ev.spawn_res(FutureObj::new(Box::new(async move { i * i })))
                .ok()
                .unwrap(),
        );
    }
    for (i, handle) in handles.into_iter().enumerate() {
        let expected = (i as u64) * (i as u64);
        assert_eq!(block_on(handle), expected);
    }
}

#[test]
fn submission_from_another_thread() {
    // The duplicated spawner is moved into a unit of work that runs on one of
    // the pool's own worker threads, and submits from there.
    let ev = TaskSpawner::new().ok().unwrap();
    let dup = ev.clone();
    let outer = ev
        .spawn_res(FutureObj::new(Box::new(async move {
            let inner = dup
                .spawn_res(FutureObj::new(Box::new(async { 7u32 + 8 })))
                .ok()
                .unwrap();
            inner.await
        })))
        .ok()
        .unwrap();
    assert_eq!(block_on(outer), 15);
}

#[test]
fn creation_failure_surfaces() {
    let denied = std::io::Error::new(std::io::ErrorKind::PermissionDenied, "no worker threads");
    let r = wrap_pool_creation(Err(denied));
    match r {
        Ok(_) => panic!("a failed allocation must not yield a spawner"),
        Err(e) => assert_eq!(e.source.kind(), std::io::ErrorKind::PermissionDenied),
    }
}

#[test]
fn successful_creation_wraps_the_pool() {
    let pool = ThreadPool::new().unwrap();
    let r = wrap_pool_creation(Ok(pool));
    let ev = r.ok().unwrap();
    let v: u8 = block_on(
        ev.spawn_res(FutureObj::new(Box::new(async { 1u8 + 2 })))
            .ok()
            .unwrap(),
    );
    assert_eq!(v, 3);
}

#[test]
fn rejected_submission_surfaces() {
    let r = wrap_submission::<u8>(Err(SpawnError::shutdown()));
    match r {
        Ok(_) => panic!("a rejected submission must not yield a handle"),
        Err(e) => assert!(e.source.is_shutdown()),
    }
}

#[test]
fn accepted_submission_hands_the_handle_through() {
    let pool = ThreadPool::new().unwrap();
    let handle = pool.spawn_with_handle(async { 9u8 }).unwrap();
    let r = wrap_submission(Ok(handle));
    assert_eq!(block_on(r.ok().unwrap()), 9u8);
}

#[test]
fn extraction_round_trip() {
    let pool = ThreadPool::new().unwrap();
    let ev = TaskSpawner::from(pool);
    let pool = ev.into_pool();
    // the extracted handle still drives the same worker set
    let ev = TaskSpawner::from(pool);
    let v: u8 = block_on(
        ev.spawn_res(FutureObj::new(Box::new(async { 3u8 + 4 })))
            .ok()
            .unwrap(),
    );
    assert_eq!(v, 7);
}
