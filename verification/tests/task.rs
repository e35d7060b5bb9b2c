use minirt::note::{Notification, SenderId};
use minirt::task::{Poll, Task, TaskHandle, TaskState};
use minirt::waker::Waker;

fn fresh(id: u64) -> Task {
    let (task, _note, _handle) = Task::new::<()>(id, SenderId::Worker);
    task
}

#[test]
fn new_task_is_created() {
    let (task, note, handle) = Task::new::<String>(4, SenderId::Main);
    assert_eq!(
        task,
        Task { id: 4, sender: SenderId::Main, state: TaskState::Created, rewake: false, waker: None }
    );
    assert_eq!(note, Notification { id: 4 });
    assert_eq!(handle.task_id(), 4);
    assert!(!handle.is_ready());
    assert!(!task.is_completed());
}

#[test]
fn lifecycle_created_idle_polling_completed() {
    let mut task = fresh(1);
    assert!(task.begin_poll());
    assert_eq!(task.state, TaskState::Polling);
    assert!(!task.end_poll(false));
    assert_eq!(task.state, TaskState::Idle);
    assert!(task.begin_poll());
    assert_eq!(task.state, TaskState::Polling);
    assert!(!task.end_poll(true));
    assert_eq!(task.state, TaskState::Completed);
    assert!(task.is_completed());
    // Completed is terminal.
    assert!(!task.begin_poll());
    assert_eq!(task.state, TaskState::Completed);
    assert!(!task.rewake);
}

#[test]
fn no_second_poll_while_polling() {
    let mut task = fresh(1);
    assert!(task.begin_poll());
    assert!(!task.begin_poll());
    assert!(!task.begin_poll());
    assert_eq!(task.state, TaskState::Polling);
    assert!(task.rewake);
    // The wake that came in is owed a poll.
    assert!(task.end_poll(false));
    assert!(!task.rewake);
    assert_eq!(task.state, TaskState::Idle);
    assert!(task.begin_poll());
    assert!(!task.end_poll(false));
}

#[test]
fn completion_cancels_the_owed_wake() {
    let mut task = fresh(1);
    assert!(task.begin_poll());
    assert!(!task.begin_poll());
    assert!(!task.end_poll(true));
    assert_eq!(task.state, TaskState::Completed);
    assert!(!task.rewake);
}

#[test]
fn attach_waker_hands_back_the_old_one() {
    let mut task = fresh(2);
    assert_eq!(task.attach_waker(Waker { id: 2, sender: SenderId::Worker }), None);
    assert_eq!(task.waker, Some(Waker { id: 2, sender: SenderId::Worker }));
    assert_eq!(
        task.attach_waker(Waker { id: 2, sender: SenderId::Main }),
        Some(Waker { id: 2, sender: SenderId::Worker })
    );
    assert_eq!(task.state, TaskState::Created);
}

#[test]
fn output_is_delivered_exactly_once() {
    let mut handle: TaskHandle<String> = TaskHandle::new(3);
    assert_eq!(handle.poll(), Poll::Pending);
    assert_eq!(handle.poll(), Poll::Pending);
    assert_eq!(handle.complete("done".to_string()), Ok(()));
    assert!(handle.is_ready());
    assert_eq!(handle.poll(), Poll::Ready("done".to_string()));
    assert!(!handle.is_ready());
    assert_eq!(handle.poll(), Poll::Pending);
    assert_eq!(handle.poll(), Poll::Pending);
    assert_eq!(handle.task_id(), 3);
}

#[test]
fn second_completion_is_refused() {
    let mut handle: TaskHandle<u32> = TaskHandle::new(3);
    assert_eq!(handle.complete(1), Ok(()));
    assert_eq!(handle.complete(2), Err(2));
    assert_eq!(handle.poll(), Poll::Ready(1));
    assert_eq!(handle.complete(3), Err(3));
    assert_eq!(handle.poll(), Poll::Pending);
}

#[test]
fn read_output_moves_the_value_out() {
    let mut handle: TaskHandle<Vec<u8>> = TaskHandle::new(0);
    handle.complete(vec![1, 2, 3]).unwrap();
    let mut dest = None;
    handle.read_output(&mut dest);
    assert_eq!(dest, Some(vec![1, 2, 3]));
    assert!(!handle.is_ready());
    assert_eq!(handle.poll(), Poll::Pending);
}
