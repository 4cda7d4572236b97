//! The task protocol: how one engine operation on a lock-guarded handle
//! proceeds, in its blocking and in its deferred form.
//!
//! The library decides; the caller acts. [`step`] takes the state of a task
//! and what has just happened, and gives the next state and what to do next.

use crate::engine::BridgeError;
use vstd::prelude::*;

verus! {

/// A lock-guarded handle of an open index.
#[derive(Clone, Copy, Debug, PartialEq, Eq, Structural)]
pub enum Resource {
    Writer,
    Reader,
}

/// An engine operation that goes through a lock.
#[derive(Clone, Copy, Debug, PartialEq, Eq, Structural)]
pub enum Operation {
    AddDocument,
    Commit,
    Reload,
    NewSearcher,
}

/// Where an operation runs.
#[derive(Clone, Copy, Debug, PartialEq, Eq, Structural)]
pub enum Form {
    /// On the caller's own thread, which waits for the result.
    Blocking,
    /// On a worker, which notifies the caller when it is done.
    Deferred,
}

/// What an operation gives back where it succeeds: the operation stamp of a
/// write, nothing otherwise.
pub type Reply = Option<u64>;

/// How far a task has come.
#[derive(Debug)]
pub enum Phase {
    /// Nothing has been done yet.
    Created,
    /// The shared handles are being cloned for the worker.
    Sharing,
    /// The lock has been asked for.
    Waiting,
    /// The lock is held and the engine is at work.
    Holding,
    /// The engine has answered and the lock is being released.
    Releasing(Result<Reply, BridgeError>),
    /// The result has been delivered.
    Done,
}

/// One operation on its way.
#[derive(Debug)]
pub struct Task {
    pub operation: Operation,
    pub form: Form,
    pub phase: Phase,
}

/// What has just happened to a task.
#[derive(Debug)]
pub enum Event {
    /// The caller has asked for the operation.
    Begun,
    /// The shared handles have been cloned and the worker has taken over.
    Shared,
    /// The lock has been acquired.
    Acquired,
    /// The lock is poisoned: an earlier holder failed while it held it.
    Poisoned,
    /// The engine has done its work.
    Succeeded(Reply),
    /// The engine has failed, with this message.
    Failed(String),
    /// The lock has been released.
    Released,
}

/// What the caller does next.
#[derive(Debug)]
pub enum Action {
    /// Clone the shared handles and hand the task to a worker.
    Share,
    /// Acquire the lock of the handle.
    Lock(Resource),
    /// Make the one engine call of the operation.
    Call(Operation),
    /// Release the lock of the handle.
    Release(Resource),
    /// Deliver the result.
    Finish(Result<Reply, BridgeError>),
    /// Nothing: the event does not fit the task's phase, and the task stays
    /// as it is.
    Ignore,
}

impl Operation {
    /// The handle whose lock the operation takes: writes go through the
    /// writer, reads of the committed state through the reader.
    pub open spec fn resource_spec(self) -> Resource {
        match self {
            Operation::AddDocument => Resource::Writer,
            Operation::Commit => Resource::Writer,
            Operation::Reload => Resource::Reader,
            Operation::NewSearcher => Resource::Reader,
        }
    }

    /// The handle whose lock the operation takes.
    #[verifier::when_used_as_spec(resource_spec)]
    pub fn resource(self) -> (r: Resource)
        ensures
            r == self.resource_spec(),
    {
        match self {
            Operation::AddDocument => Resource::Writer,
            Operation::Commit => Resource::Writer,
            Operation::Reload => Resource::Reader,
            Operation::NewSearcher => Resource::Reader,
        }
    }

    /// The error for a failure of the engine with the given message: a
    /// failure of the writer is a commit error, one of the reader a storage
    /// error.
    pub open spec fn failure_spec(self, message: String) -> BridgeError {
        match self.resource_spec() {
            Resource::Writer => BridgeError::CommitError(message),
            Resource::Reader => BridgeError::StorageError(message),
        }
    }

    /// The error for a failure of the engine with the given message.
    #[verifier::when_used_as_spec(failure_spec)]
    pub fn failure(self, message: String) -> (r: BridgeError)
        ensures
            r == self.failure_spec(message),
    {
        match self.resource() {
            Resource::Writer => BridgeError::CommitError(message),
            Resource::Reader => BridgeError::StorageError(message),
        }
    }
}

impl Task {
    /// A task on which nothing has been done yet.
    pub fn new(operation: Operation, form: Form) -> (r: Task)
        ensures
            r == (Task { operation, form, phase: Phase::Created }),
    {
        Task { operation, form, phase: Phase::Created }
    }

    /// Whether the task holds its lock.
    pub open spec fn holds_lock(self) -> bool {
        self.phase is Holding || self.phase is Releasing
    }
}

/// The state that follows `task` on `event`, and what to do next.
///
/// A deferred task first has its handles shared; from there on both forms go
/// the same way: the lock, on a poisoned lock the error and nothing else, one
/// engine call, the release, the result.
pub open spec fn step_spec(task: Task, event: Event) -> (Task, Action) {
    let resource = task.operation.resource_spec();
    match (task.phase, event) {
        (Phase::Created, Event::Begun) => match task.form {
            Form::Deferred => (Task { phase: Phase::Sharing, ..task }, Action::Share),
            Form::Blocking => (Task { phase: Phase::Waiting, ..task }, Action::Lock(resource)),
        },
        (Phase::Sharing, Event::Shared) => (
            Task { phase: Phase::Waiting, ..task },
            Action::Lock(resource),
        ),
        (Phase::Waiting, Event::Acquired) => (
            Task { phase: Phase::Holding, ..task },
            Action::Call(task.operation),
        ),
        (Phase::Waiting, Event::Poisoned) => (
            Task { phase: Phase::Done, ..task },
            Action::Finish(Err(BridgeError::LockPoisoned)),
        ),
        (Phase::Holding, Event::Succeeded(reply)) => (
            Task { phase: Phase::Releasing(Ok(reply)), ..task },
            Action::Release(resource),
        ),
        (Phase::Holding, Event::Failed(message)) => (
            Task { phase: Phase::Releasing(Err(task.operation.failure_spec(message))), ..task },
            Action::Release(resource),
        ),
        (Phase::Releasing(result), Event::Released) => (
            Task { phase: Phase::Done, ..task },
            Action::Finish(result),
        ),
        _ => (task, Action::Ignore),
    }
}

/// Takes a task one step further.
pub fn step(task: Task, event: Event) -> (r: (Task, Action))
    ensures
        r == step_spec(task, event),
{
    let Task { operation, form, phase } = task;
    let resource = operation.resource();
    match (phase, event) {
        (Phase::Created, Event::Begun) => match form {
            Form::Deferred => (Task { operation, form, phase: Phase::Sharing }, Action::Share),
            Form::Blocking => (
                Task { operation, form, phase: Phase::Waiting },
                Action::Lock(resource),
            ),
        },
        (Phase::Sharing, Event::Shared) => (
            Task { operation, form, phase: Phase::Waiting },
            Action::Lock(resource),
        ),
        (Phase::Waiting, Event::Acquired) => (
            Task { operation, form, phase: Phase::Holding },
            Action::Call(operation),
        ),
        (Phase::Waiting, Event::Poisoned) => (
            Task { operation, form, phase: Phase::Done },
            Action::Finish(Err(BridgeError::LockPoisoned)),
        ),
        (Phase::Holding, Event::Succeeded(reply)) => (
            Task { operation, form, phase: Phase::Releasing(Ok(reply)) },
            Action::Release(resource),
        ),
        (Phase::Holding, Event::Failed(message)) => (
            Task { operation, form, phase: Phase::Releasing(Err(operation.failure(message))) },
            Action::Release(resource),
        ),
        (Phase::Releasing(result), Event::Released) => (
            Task { operation, form, phase: Phase::Done },
            Action::Finish(result),
        ),
        (phase, _) => (Task { operation, form, phase }, Action::Ignore),
    }
}

/// The state of `task` after `events`, one after the other, and what was to
/// be done on each.
pub open spec fn run(task: Task, events: Seq<Event>) -> (Task, Seq<Action>)
    decreases events.len(),
{
    if events.len() == 0 {
        (task, Seq::empty())
    } else {
        let (before, actions) = run(task, events.drop_last());
        let (after, action) = step_spec(before, events.last());
        (after, actions.push(action))
    }
}

/// A poisoned lock is always reported: a task that waits for its lock and
/// finds it poisoned delivers that error and is done, and a task that is done
/// does nothing more, so the engine is never called behind a poisoned lock.
pub proof fn lemma_poisoned_lock_is_reported(task: Task, later: Event)
    requires
        task.phase is Waiting,
    ensures
        step_spec(task, Event::Poisoned).1 == Action::Finish(Err(BridgeError::LockPoisoned)),
        step_spec(task, Event::Poisoned).0.phase is Done,
        step_spec(step_spec(task, Event::Poisoned).0, later).1 is Ignore,
{
}

/// A lock spans one engine call: the engine is called only as the lock is
/// acquired, and a task that holds its lock can do nothing but release it and
/// deliver the result. It cannot call again, nor ask for another lock.
pub proof fn lemma_lock_spans_one_call(task: Task, event: Event)
    ensures
        step_spec(task, event).1 is Call ==> task.phase is Waiting && event is Acquired
            && step_spec(task, event).0.phase is Holding,
        task.phase is Holding ==> step_spec(task, event).1 is Release || step_spec(
            task,
            event,
        ).1 is Ignore,
        task.phase is Releasing ==> step_spec(task, event).1 is Finish || step_spec(
            task,
            event,
        ).1 is Ignore,
        step_spec(task, event).1 matches Action::Release(resource) ==> resource
            == task.operation.resource_spec() && task.phase is Holding && step_spec(
            task,
            event,
        ).0.phase is Releasing,
        step_spec(task, event).1 matches Action::Lock(resource) ==> resource
            == task.operation.resource_spec() && !task.holds_lock(),
{
}

proof fn lemma_run_append(task: Task, front: Seq<Event>, back: Seq<Event>)
    ensures
        run(task, front + back).0 == run(run(task, front).0, back).0,
        run(task, front + back).1 == run(task, front).1 + run(run(task, front).0, back).1,
    decreases back.len(),
{
    if back.len() == 0 {
        assert(front + back =~= front);
        assert(run(task, front).1 + Seq::<Action>::empty() =~= run(task, front).1);
    } else {
        lemma_run_append(task, front, back.drop_last());
        assert((front + back).drop_last() =~= front + back.drop_last());
        assert((front + back).last() == back.last());
        let middle = run(task, front).0;
        let (before, actions) = run(middle, back.drop_last());
        let action = step_spec(before, back.last()).1;
        assert(run(task, front).1 + actions.push(action) =~= (run(task, front).1 + actions).push(
            action,
        ));
    }
}

proof fn lemma_form_does_not_matter(blocking: Task, deferred: Task, events: Seq<Event>)
    requires
        !(blocking.phase is Created),
        deferred == (Task { form: deferred.form, ..blocking }),
    ensures
        run(deferred, events).1 == run(blocking, events).1,
        run(deferred, events).0 == (Task { form: deferred.form, ..run(blocking, events).0 }),
        !(run(blocking, events).0.phase is Created),
    decreases events.len(),
{
    if events.len() > 0 {
        lemma_form_does_not_matter(blocking, deferred, events.drop_last());
    }
}

/// The two forms agree: once the handles of a deferred task are shared, it
/// asks for the same lock, makes the same call and delivers the same result
/// as the blocking task does on the same events.
pub proof fn lemma_forms_agree(operation: Operation, events: Seq<Event>)
    ensures
        run(
            Task { operation, form: Form::Deferred, phase: Phase::Created },
            seq![Event::Begun, Event::Shared] + events,
        ).1 == seq![Action::Share] + run(
            Task { operation, form: Form::Blocking, phase: Phase::Created },
            seq![Event::Begun] + events,
        ).1,
        run(
            Task { operation, form: Form::Deferred, phase: Phase::Created },
            seq![Event::Begun, Event::Shared] + events,
        ).0.phase == run(
            Task { operation, form: Form::Blocking, phase: Phase::Created },
            seq![Event::Begun] + events,
        ).0.phase,
{
    let deferred = Task { operation, form: Form::Deferred, phase: Phase::Created };
    let blocking = Task { operation, form: Form::Blocking, phase: Phase::Created };
    let d_front = seq![Event::Begun, Event::Shared];
    let b_front = seq![Event::Begun];
    lemma_run_append(deferred, d_front, events);
    lemma_run_append(blocking, b_front, events);
    reveal_with_fuel(run, 3);
    assert(d_front.drop_last() =~= b_front);
    assert(b_front.drop_last() =~= Seq::<Event>::empty());
    let d_waiting = run(deferred, d_front).0;
    let b_waiting = run(blocking, b_front).0;
    assert(b_waiting == (Task { phase: Phase::Waiting, ..blocking }));
    assert(d_waiting == (Task { phase: Phase::Waiting, ..deferred }));
    assert(run(deferred, d_front).1 =~= seq![Action::Share, Action::Lock(operation.resource_spec())]);
    assert(run(blocking, b_front).1 =~= seq![Action::Lock(operation.resource_spec())]);
    lemma_form_does_not_matter(b_waiting, d_waiting, events);
    assert(run(deferred, d_front + events).1 =~= seq![Action::Share] + run(
        blocking,
        b_front + events,
    ).1);
}

} // verus!
