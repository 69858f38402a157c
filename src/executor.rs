use vstd::prelude::*;

use futures::channel::mpsc::{Receiver, Sender, TrySendError};

verus! {

/// The sending half of `futures`' bounded channel, carried opaquely.
#[verifier::external_type_specification]
#[verifier::external_body]
#[verifier::reject_recursive_types(T)]
pub struct ExSender<T>(Sender<T>);

/// The receiving half of that channel, handed to the task.
#[verifier::external_type_specification]
#[verifier::external_body]
#[verifier::reject_recursive_types(T)]
pub struct ExReceiver<T>(Receiver<T>);

/// The error `try_send` returns with the message it could not queue.
#[verifier::external_type_specification]
#[verifier::external_body]
#[verifier::reject_recursive_types(T)]
pub struct ExTrySendError<T>(TrySendError<T>);

/// Relies on `futures::channel::mpsc::channel`: a connected sender and
/// receiver. It panics unless `buffer` is below its largest buffer size, a
/// quarter of the address space.
pub assume_specification<T>[ futures::channel::mpsc::channel::<T> ](buffer: usize) -> (Sender<T>, Receiver<T>)
    requires
        buffer < usize::MAX / 4,
;

/// Relies on `futures::channel::mpsc::Sender::try_send`: it queues `msg`
/// unless the channel is full or its receiver is gone, and never blocks.
pub assume_specification<T>[ Sender::<T>::try_send ](tx: &mut Sender<T>, msg: T) -> Result<(), TrySendError<T>>;

/// Lifecycle of the task an executor drives.
#[derive(Debug, Clone, Copy, PartialEq, Eq, Structural)]
pub enum TaskState {
    /// No task yet.
    Uninitialized,
    /// The task exists and its event channel is open.
    Running,
    /// The close signal was sent; the task has yet to finish.
    Draining,
    /// The task resolved, successfully or not.
    Finished { succeeded: bool },
}

/// What one poll of the task gave.
#[derive(Debug, Clone, Copy, PartialEq, Eq, Structural)]
pub enum PollOutcome {
    Pending,
    Ready { succeeded: bool },
}

/// Broken rules of the host protocol, which the caller must treat as fatal.
#[derive(Debug, Clone, Copy, PartialEq, Eq, Structural)]
pub enum ExecutorError {
    /// An event or close signal came while no task was running.
    NotRunning,
    /// An event came before the poll owed for the previous one was recorded.
    PollOwed,
    /// A poll was recorded that no event or close signal called for.
    NoPollOwed,
    /// The channel did not take the event: the task left the previous one
    /// unread, or dropped its receiver.
    EventRejected,
    /// The task was still pending on the poll that followed the close
    /// signal, and no later call is guaranteed to finish it.
    PendingAfterClose,
}

/// The state of an executor, as contracts see it: the task's lifecycle,
/// whether a poll is owed, every event handed to the task's channel, in
/// order, and how many times the task was polled.
pub struct ExecutorView<T> {
    pub state: TaskState,
    pub poll_owed: bool,
    pub sent: Seq<T>,
    pub polls: nat,
}

impl<T> ExecutorView<T> {
    /// Whether an event or the close signal is taken now.
    pub open spec fn send_allowed(self) -> bool {
        self.state == TaskState::Running && !self.poll_owed
    }

    pub open spec fn after_start(self) -> ExecutorView<T> {
        ExecutorView { state: TaskState::Running, ..self }
    }

    pub open spec fn after_push(self, e: T) -> ExecutorView<T> {
        ExecutorView { sent: self.sent.push(e), poll_owed: true, ..self }
    }

    pub open spec fn after_close(self) -> ExecutorView<T> {
        ExecutorView { state: TaskState::Draining, poll_owed: true, ..self }
    }

    pub open spec fn after_poll(self, outcome: PollOutcome) -> ExecutorView<T> {
        ExecutorView {
            state: match outcome {
                PollOutcome::Pending => self.state,
                PollOutcome::Ready { succeeded } => TaskState::Finished { succeeded },
            },
            poll_owed: false,
            polls: self.polls + 1,
            ..self
        }
    }
}

/// What a poll reports: whether the task lives on or finished successfully,
/// or that it outlived the close signal.
pub open spec fn poll_result(state: TaskState, outcome: PollOutcome) -> Result<bool, ExecutorError> {
    match outcome {
        PollOutcome::Pending => if state == TaskState::Draining {
            Err(ExecutorError::PendingAfterClose)
        } else {
            Ok(true)
        },
        PollOutcome::Ready { succeeded } => Ok(succeeded),
    }
}

/// How `send` moves an executor from `v` to `w` with result `r`.
pub open spec fn send_spec<T>(v: ExecutorView<T>, data: Option<T>, w: ExecutorView<T>, r: Result<(), ExecutorError>) -> bool {
    if v.poll_owed {
        r == Err::<(), ExecutorError>(ExecutorError::PollOwed) && w == v
    } else if v.state != TaskState::Running {
        r == Err::<(), ExecutorError>(ExecutorError::NotRunning) && w == v
    } else {
        match data {
            None => r == Ok::<(), ExecutorError>(()) && w == v.after_close(),
            Some(e) => (r == Ok::<(), ExecutorError>(()) && w == v.after_push(e)) || (r == Err::<
                (),
                ExecutorError,
            >(ExecutorError::EventRejected) && w == v),
        }
    }
}

/// How `start` moves an executor from `v` to `w`, creating a task or not.
pub open spec fn start_spec<T>(v: ExecutorView<T>, w: ExecutorView<T>, created: bool) -> bool {
    if v.state == TaskState::Uninitialized {
        created && w == v.after_start()
    } else {
        !created && w == v
    }
}

/// How `record_poll` moves an executor from `v` to `w` with result `r`.
pub open spec fn poll_spec<T>(
    v: ExecutorView<T>,
    outcome: PollOutcome,
    w: ExecutorView<T>,
    r: Result<bool, ExecutorError>,
) -> bool {
    if !v.poll_owed {
        r == Err::<bool, ExecutorError>(ExecutorError::NoPollOwed) && w == v
    } else {
        r == poll_result(v.state, outcome) && w == v.after_poll(outcome)
    }
}

/// Drives one long-lived task from synchronous host calls.
///
/// Each host call hands the task at most one event through a channel of
/// capacity one, or closes the channel, and then owes exactly one poll of the
/// task, which the caller performs and records before the next event is
/// taken.
#[verifier::reject_recursive_types(T)]
pub struct Executor<T> {
    state: TaskState,
    poll_owed: bool,
    tx: Option<Sender<T>>,
    sent: Ghost<Seq<T>>,
    polls: Ghost<nat>,
}

impl<T> View for Executor<T> {
    type V = ExecutorView<T>;

    closed spec fn view(&self) -> ExecutorView<T> {
        ExecutorView { state: self.state, poll_owed: self.poll_owed, sent: self.sent@, polls: self.polls@ }
    }
}

impl<T> Executor<T> {
    pub closed spec fn wf(&self) -> bool {
        &&& (self.tx is Some <==> self.state == TaskState::Running)
        &&& (self.poll_owed ==> self.state == TaskState::Running || self.state == TaskState::Draining)
    }

    pub fn new() -> (r: Self)
        ensures
            r.wf(),
            r@.state == TaskState::Uninitialized,
            !r@.poll_owed,
            r@.sent == Seq::<T>::empty(),
            r@.polls == 0,
    {
        Executor {
            state: TaskState::Uninitialized,
            poll_owed: false,
            tx: None,
            sent: Ghost(Seq::empty()),
            polls: Ghost(0),
        }
    }

    /// Creates the task's channel on the first call and hands back its
    /// receiving end, around which the caller builds the task. Later calls
    /// leave the running task alone and give nothing.
    pub fn start(&mut self) -> (r: Option<Receiver<T>>)
        requires
            old(self).wf(),
        ensures
            final(self).wf(),
            start_spec(old(self)@, final(self)@, r is Some),
    {
        if self.state == TaskState::Uninitialized {
            let (tx, rx) = futures::channel::mpsc::channel(1);
            self.tx = Some(tx);
            self.state = TaskState::Running;
            Some(rx)
        } else {
            None
        }
    }

    /// Hands the task an event, or with `None` closes its channel so that its
    /// next wait for an event ends. Either way one poll of the task is then
    /// owed.
    pub fn send(&mut self, data: Option<T>) -> (r: Result<(), ExecutorError>)
        requires
            old(self).wf(),
        ensures
            final(self).wf(),
            send_spec(old(self)@, data, final(self)@, r),
    {
        if self.poll_owed {
            return Err(ExecutorError::PollOwed);
        }
        if self.state != TaskState::Running {
            return Err(ExecutorError::NotRunning);
        }
        match data {
            None => {
                self.tx = None;
                self.state = TaskState::Draining;
                self.poll_owed = true;
                Ok(())
            },
            Some(e) => {
                let ghost pushed = e;
                let accepted = match &mut self.tx {
                    Some(tx) => tx.try_send(e).is_ok(),
                    None => false,
                };
                if accepted {
                    self.sent = Ghost(self.sent@.push(pushed));
                    self.poll_owed = true;
                    Ok(())
                } else {
                    Err(ExecutorError::EventRejected)
                }
            },
        }
    }

    /// Records the outcome of the poll owed after an event or the close
    /// signal, and says what the host is to be told: `true` while the task
    /// lives on or once it finished successfully.
    pub fn record_poll(&mut self, outcome: PollOutcome) -> (r: Result<bool, ExecutorError>)
        requires
            old(self).wf(),
        ensures
            final(self).wf(),
            poll_spec(old(self)@, outcome, final(self)@, r),
    {
        if !self.poll_owed {
            return Err(ExecutorError::NoPollOwed);
        }
        self.poll_owed = false;
        self.polls = Ghost(self.polls@ + 1);
        match outcome {
            PollOutcome::Pending => {
                if self.state == TaskState::Draining {
                    Err(ExecutorError::PendingAfterClose)
                } else {
                    Ok(true)
                }
            },
            PollOutcome::Ready { succeeded } => {
                self.state = TaskState::Finished { succeeded };
                self.tx = None;
                Ok(succeeded)
            },
        }
    }

    /// The task's lifecycle state.
    pub fn state(&self) -> (r: TaskState)
        ensures
            r == self@.state,
    {
        self.state
    }
}

/// Two host calls in a row, each pushing one event to a task that then
/// suspends, are both taken, resume the task exactly twice, and hand it
/// exactly those two events in the order they were pushed; a second event
/// before the first call's poll is refused.
pub proof fn lemma_one_poll_per_call<T>(v: ExecutorView<T>, a: T, b: T)
    requires
        v.send_allowed(),
    ensures
        !v.after_push(a).send_allowed(),
        v.after_push(a).after_poll(PollOutcome::Pending).send_allowed(),
        ({
            let w = v.after_push(a).after_poll(PollOutcome::Pending).after_push(b).after_poll(
                PollOutcome::Pending,
            );
            &&& w.sent == v.sent + seq![a, b]
            &&& w.polls == v.polls + 2
            &&& w.send_allowed()
        }),
{
    let w = v.after_push(a).after_poll(PollOutcome::Pending).after_push(b).after_poll(PollOutcome::Pending);
    assert(w.sent =~= v.sent + seq![a, b]);
}

/// After the close signal, the poll that follows either finds the task
/// finished or reports that it outlived the signal: a draining task is never
/// reported alive.
pub proof fn lemma_close_drains<T>(v: ExecutorView<T>, outcome: PollOutcome)
    requires
        v.send_allowed(),
    ensures
        v.after_close().state == TaskState::Draining,
        poll_result(v.after_close().state, outcome) is Ok ==> v.after_close().after_poll(outcome).state is Finished,
        outcome == PollOutcome::Pending ==> poll_result(v.after_close().state, outcome) == Err::<
            bool,
            ExecutorError,
        >(ExecutorError::PendingAfterClose),
{
}

} // verus!
