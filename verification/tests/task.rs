use tantivy_node::engine::BridgeError;
use tantivy_node::task::step;
use tantivy_node::task::Action;
use tantivy_node::task::Event;
use tantivy_node::task::Form;
use tantivy_node::task::Operation;
use tantivy_node::task::Phase;
use tantivy_node::task::Resource;
use tantivy_node::task::Task;

fn drive(operation: Operation, form: Form, events: Vec<Event>) -> (Task, Vec<Action>) {
    let mut task = Task::new(operation, form);
    let mut actions = Vec::new();
    for event in events {
        let (next, action) = step(task, event);
        task = next;
        actions.push(action);
    }
    (task, actions)
}

#[test]
fn operations_take_the_lock_of_their_handle() {
    assert_eq!(Operation::AddDocument.resource(), Resource::Writer);
    assert_eq!(Operation::Commit.resource(), Resource::Writer);
    assert_eq!(Operation::Reload.resource(), Resource::Reader);
    assert_eq!(Operation::NewSearcher.resource(), Resource::Reader);
}

#[test]
fn engine_failures_are_named_after_the_handle() {
    assert!(matches!(
        Operation::Commit.failure("disk full".to_string()),
        BridgeError::CommitError(message) if message == "disk full"
    ));
    assert!(matches!(
        Operation::AddDocument.failure("killed".to_string()),
        BridgeError::CommitError(message) if message == "killed"
    ));
    assert!(matches!(
        Operation::Reload.failure("gone".to_string()),
        BridgeError::StorageError(message) if message == "gone"
    ));
}

#[test]
fn blocking_commit_locks_calls_releases_and_finishes() {
    let (task, actions) = drive(
        Operation::Commit,
        Form::Blocking,
        vec![Event::Begun, Event::Acquired, Event::Succeeded(Some(7)), Event::Released],
    );
    assert!(matches!(task.phase, Phase::Done));
    assert_eq!(actions.len(), 4);
    assert!(matches!(actions[0], Action::Lock(Resource::Writer)));
    assert!(matches!(actions[1], Action::Call(Operation::Commit)));
    assert!(matches!(actions[2], Action::Release(Resource::Writer)));
    assert!(matches!(actions[3], Action::Finish(Ok(Some(7)))));
}

#[test]
fn deferred_reload_shares_its_handles_first() {
    let (task, actions) = drive(
        Operation::Reload,
        Form::Deferred,
        vec![Event::Begun, Event::Shared, Event::Acquired, Event::Succeeded(None), Event::Released],
    );
    assert!(matches!(task.phase, Phase::Done));
    assert_eq!(actions.len(), 5);
    assert!(matches!(actions[0], Action::Share));
    assert!(matches!(actions[1], Action::Lock(Resource::Reader)));
    assert!(matches!(actions[2], Action::Call(Operation::Reload)));
    assert!(matches!(actions[3], Action::Release(Resource::Reader)));
    assert!(matches!(actions[4], Action::Finish(Ok(None))));
}

#[test]
fn poisoned_lock_is_reported_and_the_engine_is_not_called() {
    for form in [Form::Blocking, Form::Deferred] {
        let mut events = vec![Event::Begun];
        if form == Form::Deferred {
            events.push(Event::Shared);
        }
        events.push(Event::Poisoned);
        events.push(Event::Acquired);
        events.push(Event::Succeeded(Some(1)));
        let (task, actions) = drive(Operation::AddDocument, form, events);
        assert!(matches!(task.phase, Phase::Done));
        let n = actions.len();
        assert!(matches!(actions[n - 3], Action::Finish(Err(BridgeError::LockPoisoned))));
        assert!(matches!(actions[n - 2], Action::Ignore));
        assert!(matches!(actions[n - 1], Action::Ignore));
        assert!(!actions.iter().any(|action| matches!(action, Action::Call(_))));
    }
}

#[test]
fn engine_failure_releases_the_lock_before_it_is_reported() {
    let (task, actions) = drive(
        Operation::Commit,
        Form::Blocking,
        vec![Event::Begun, Event::Acquired, Event::Failed("disk full".to_string()), Event::Released],
    );
    assert!(matches!(task.phase, Phase::Done));
    assert!(matches!(actions[2], Action::Release(Resource::Writer)));
    assert!(matches!(
        &actions[3],
        Action::Finish(Err(BridgeError::CommitError(message))) if message == "disk full"
    ));
}

#[test]
fn events_that_do_not_fit_are_ignored() {
    let (task, actions) = drive(
        Operation::Commit,
        Form::Blocking,
        vec![Event::Acquired, Event::Released, Event::Begun, Event::Begun, Event::Shared],
    );
    assert!(matches!(task.phase, Phase::Waiting));
    assert!(matches!(actions[0], Action::Ignore));
    assert!(matches!(actions[1], Action::Ignore));
    assert!(matches!(actions[2], Action::Lock(Resource::Writer)));
    assert!(matches!(actions[3], Action::Ignore));
    assert!(matches!(actions[4], Action::Ignore));
}

#[test]
fn a_task_that_holds_its_lock_does_not_call_twice() {
    let (task, actions) = drive(
        Operation::Commit,
        Form::Blocking,
        vec![Event::Begun, Event::Acquired, Event::Acquired, Event::Begun],
    );
    assert!(matches!(task.phase, Phase::Holding));
    assert_eq!(actions.iter().filter(|action| matches!(action, Action::Call(_))).count(), 1);
}

#[test]
fn both_forms_deliver_the_same_result() {
    for reply in [Some(3u64), None] {
        let (_, blocking) = drive(
            Operation::AddDocument,
            Form::Blocking,
            vec![Event::Begun, Event::Acquired, Event::Succeeded(reply), Event::Released],
        );
        let (_, deferred) = drive(
            Operation::AddDocument,
            Form::Deferred,
            vec![
                Event::Begun,
                Event::Shared,
                Event::Acquired,
                Event::Succeeded(reply),
                Event::Released,
            ],
        );
        assert_eq!(deferred.len(), blocking.len() + 1);
        assert!(matches!(deferred[0], Action::Share));
        match (&blocking[3], &deferred[4]) {
            (Action::Finish(Ok(a)), Action::Finish(Ok(b))) => assert_eq!(a, b),
            _ => panic!("a form did not finish"),
        }
    }
}
