use minirt::executor::{Executor, NotRunning, PollOutcome, SpawnError, WorkerStep};
use minirt::reactor::{Reactor, RegisterError};
use minirt::tables::SLOT_LIMIT;
use minirt::task::TaskHandle;

#[test]
fn spawn_fails_when_the_table_is_full() {
    let mut exec = Executor::new();
    for id in 0..SLOT_LIMIT {
        let handle: TaskHandle<()> = exec.spawn().unwrap();
        assert_eq!(handle.task_id(), id as u64);
    }
    assert!(matches!(exec.spawn::<()>(), Err(SpawnError::TableFull)));
    assert_eq!(exec.worker_backlog(), SLOT_LIMIT);
    assert!(exec.task(SLOT_LIMIT as u64 - 1).is_some());
    assert!(exec.task(SLOT_LIMIT as u64).is_none());
    // A task that completes makes room again.
    assert_eq!(exec.worker_step(), WorkerStep::Poll(0));
    assert!(matches!(exec.finish_poll(0, true), PollOutcome::Completed(_)));
    let again: TaskHandle<()> = exec.spawn().unwrap();
    assert_eq!(again.task_id(), 0);
    assert!(matches!(exec.spawn::<()>(), Err(SpawnError::TableFull)));
}

#[test]
fn register_fails_when_the_table_is_full() {
    let mut reactor = Reactor::new();
    for token in 0..SLOT_LIMIT {
        assert_eq!(reactor.register::<()>(Ok(())).unwrap(), token);
    }
    assert_eq!(reactor.vacant_token(), None);
    assert!(matches!(reactor.register::<()>(Ok(())), Err(RegisterError::Full)));
    assert!(matches!(reactor.register(Err(7u8)), Err(RegisterError::Full)));
    assert!(reactor.is_registered(SLOT_LIMIT - 1));
    assert!(!reactor.is_registered(SLOT_LIMIT));
}

#[test]
fn executor_is_built_once() {
    let mut slot = None;
    assert_eq!(Executor::get(&slot).err(), Some(NotRunning));
    assert!(Executor::get_mut(&mut slot).is_err());
    assert!(Executor::build(&mut slot));
    let _h: TaskHandle<()> = Executor::get_mut(&mut slot).unwrap().spawn().unwrap();
    // A second build leaves the running executor as it is.
    assert!(!Executor::build(&mut slot));
    let exec = Executor::get(&slot).unwrap();
    assert_eq!(exec.worker_backlog(), 1);
    assert!(exec.task(0).is_some());
}

#[test]
fn cancel_removes_a_task_in_any_state() {
    let mut exec = Executor::new();
    let _a: TaskHandle<()> = exec.spawn().unwrap();
    let _b: TaskHandle<()> = exec.spawn().unwrap();
    assert_eq!(exec.worker_step(), WorkerStep::Poll(0));
    let gone = exec.cancel(0).unwrap();
    assert_eq!(gone.id, 0);
    assert!(exec.task(0).is_none());
    assert!(exec.cancel(0).is_none());
    assert!(exec.cancel(99).is_none());
    let gone = exec.cancel(1).unwrap();
    assert_eq!(gone.id, 1);
    // The notification of a cancelled task calls for nothing.
    assert_eq!(exec.worker_step(), WorkerStep::Skip(1));
    let next: TaskHandle<()> = exec.spawn().unwrap();
    assert_eq!(next.task_id(), 1);
}
