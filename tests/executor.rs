use std::cell::RefCell;
use std::future::Future;
use std::pin::Pin;
use std::rc::Rc;
use std::task::{Context, Poll};

use futures::channel::mpsc::Receiver;
use futures::StreamExt;
use msfs::{Executor, ExecutorError, PollOutcome, TaskState};

type Task = Pin<Box<dyn Future<Output = Result<(), String>>>>;

fn poll_once(task: &mut Task) -> PollOutcome {
    let mut cx = Context::from_waker(futures::task::noop_waker_ref());
    match task.as_mut().poll(&mut cx) {
        Poll::Pending => PollOutcome::Pending,
        Poll::Ready(r) => PollOutcome::Ready { succeeded: r.is_ok() },
    }
}

/// A task that records each event it is handed, and a marker once the
/// channel ends.
fn recording_task(mut rx: Receiver<u32>, seen: Rc<RefCell<Vec<u32>>>) -> Task {
    Box::pin(async move {
        while let Some(e) = rx.next().await {
            seen.borrow_mut().push(e);
        }
        seen.borrow_mut().push(u32::MAX);
        Ok(())
    })
}

fn call(ex: &mut Executor<u32>, task: &mut Task, data: Option<u32>, polls: &mut u32) -> Result<bool, ExecutorError> {
    ex.send(data)?;
    *polls += 1;
    let outcome = poll_once(task);
    ex.record_poll(outcome)
}

#[test]
fn start_is_idempotent() {
    let mut ex: Executor<u32> = Executor::new();
    assert_eq!(ex.state(), TaskState::Uninitialized);
    assert!(ex.start().is_some());
    assert_eq!(ex.state(), TaskState::Running);
    assert!(ex.start().is_none());
    assert_eq!(ex.state(), TaskState::Running);
}

#[test]
fn one_poll_per_call() {
    let mut ex: Executor<u32> = Executor::new();
    let seen = Rc::new(RefCell::new(Vec::new()));
    let mut task = recording_task(ex.start().unwrap(), seen.clone());
    let mut polls = 0;
    assert_eq!(call(&mut ex, &mut task, Some(10), &mut polls), Ok(true));
    assert_eq!(*seen.borrow(), vec![10]);
    assert_eq!(call(&mut ex, &mut task, Some(20), &mut polls), Ok(true));
    assert_eq!(*seen.borrow(), vec![10, 20]);
    assert_eq!(polls, 2);
    assert_eq!(ex.state(), TaskState::Running);
}

#[test]
fn second_event_before_poll_is_refused() {
    let mut ex: Executor<u32> = Executor::new();
    let _rx = ex.start().unwrap();
    assert_eq!(ex.send(Some(1)), Ok(()));
    assert_eq!(ex.send(Some(2)), Err(ExecutorError::PollOwed));
    assert_eq!(ex.record_poll(PollOutcome::Pending), Ok(true));
    assert_eq!(ex.record_poll(PollOutcome::Pending), Err(ExecutorError::NoPollOwed));
}

#[test]
fn close_drains_the_task() {
    let mut ex: Executor<u32> = Executor::new();
    let seen = Rc::new(RefCell::new(Vec::new()));
    let mut task = recording_task(ex.start().unwrap(), seen.clone());
    let mut polls = 0;
    assert_eq!(call(&mut ex, &mut task, Some(5), &mut polls), Ok(true));
    assert_eq!(call(&mut ex, &mut task, None, &mut polls), Ok(true));
    assert_eq!(*seen.borrow(), vec![5, u32::MAX]);
    assert_eq!(ex.state(), TaskState::Finished { succeeded: true });
    assert_eq!(ex.send(Some(6)), Err(ExecutorError::NotRunning));
    assert_eq!(ex.send(None), Err(ExecutorError::NotRunning));
}

#[test]
fn task_pending_after_close_is_reported() {
    let mut ex: Executor<u32> = Executor::new();
    let rx = ex.start().unwrap();
    let mut task: Task = Box::pin(async move {
        let _keep = rx;
        std::future::pending::<()>().await;
        Ok(())
    });
    let mut polls = 0;
    assert_eq!(call(&mut ex, &mut task, None, &mut polls), Err(ExecutorError::PendingAfterClose));
    assert_eq!(ex.state(), TaskState::Draining);
}

#[test]
fn failed_task_reports_false() {
    let mut ex: Executor<u32> = Executor::new();
    let mut rx = ex.start().unwrap();
    let mut task: Task = Box::pin(async move {
        match rx.next().await {
            Some(0) => Err("zero".to_string()),
            _ => Ok(()),
        }
    });
    let mut polls = 0;
    assert_eq!(call(&mut ex, &mut task, Some(0), &mut polls), Ok(false));
    assert_eq!(ex.state(), TaskState::Finished { succeeded: false });
}

#[test]
fn full_channel_rejects_event() {
    let mut ex: Executor<u32> = Executor::new();
    let rx = ex.start().unwrap();
    let mut task: Task = Box::pin(async move {
        let _keep = rx;
        std::future::pending::<()>().await;
        Ok(())
    });
    let mut polls = 0;
    let mut results = Vec::new();
    for e in 0..4 {
        results.push(call(&mut ex, &mut task, Some(e), &mut polls));
    }
    assert!(results.contains(&Err(ExecutorError::EventRejected)));
    assert_eq!(results[0], Ok(true));
}

#[test]
fn send_before_start_is_refused() {
    let mut ex: Executor<u32> = Executor::new();
    assert_eq!(ex.send(Some(1)), Err(ExecutorError::NotRunning));
    assert_eq!(ex.send(None), Err(ExecutorError::NotRunning));
}
