use std::time::Duration;

use api_server::error::SupervisorError;
use api_server::lifecycle::{Lifecycle, LifecycleState, SubserviceId};
use api_server::lock::busy_on_contention;
use api_server::registry::Registry;
use api_server::signal::CancellationSignal;
use tokio::runtime::{Builder, Runtime};
use tokio::task::JoinHandle;

const ALL_STATES: [LifecycleState; 6] = [
    LifecycleState::NotStarted,
    LifecycleState::Starting,
    LifecycleState::Running,
    LifecycleState::Stopping,
    LifecycleState::Stopped,
    LifecycleState::Failed,
];

fn small_runtime() -> Runtime {
    Builder::new_multi_thread().worker_threads(1).enable_all().build().unwrap()
}

fn sleeper(rt: &Runtime) -> JoinHandle<()> {
    rt.spawn(async {
        std::future::pending::<()>().await;
    })
}

fn cancelled(rt: &Runtime, task: JoinHandle<()>) -> bool {
    let joined = rt.block_on(async {
        tokio::time::timeout(Duration::from_millis(500), task).await
    });
    match joined {
        Ok(Err(e)) => e.is_cancelled(),
        _ => false,
    }
}

fn alive(rt: &Runtime, task: &JoinHandle<()>) -> bool {
    rt.block_on(async {
        tokio::time::sleep(Duration::from_millis(20)).await;
    });
    !task.is_finished()
}

#[test]
fn subservices_are_ranked_in_start_order() {
    assert_eq!(SubserviceId::Database.index(), 0);
    assert_eq!(SubserviceId::Messaging.index(), 1);
    assert_eq!(SubserviceId::Api.index(), 2);
    assert_eq!(SubserviceId::Database.name(), "database");
    assert_eq!(SubserviceId::Messaging.name(), "messaging");
    assert_eq!(SubserviceId::Api.name(), "api");
}

#[test]
fn only_the_database_is_required() {
    assert!(SubserviceId::Database.is_required());
    assert!(!SubserviceId::Messaging.is_required());
    assert!(!SubserviceId::Api.is_required());
}

#[test]
fn only_a_failed_required_start_is_fatal() {
    assert!(SupervisorError::StartFailed { subservice: SubserviceId::Database }.is_fatal());
    assert!(!SupervisorError::StartFailed { subservice: SubserviceId::Api }.is_fatal());
    assert!(!SupervisorError::StartFailed { subservice: SubserviceId::Messaging }.is_fatal());
    assert!(!SupervisorError::StopTimedOut.is_fatal());
    assert!(!SupervisorError::Busy.is_fatal());
    assert!(!SupervisorError::AlreadyStarted.is_fatal());
    assert!(!SupervisorError::InvalidTransition.is_fatal());
}

#[test]
fn stopped_and_failed_are_terminal() {
    for state in ALL_STATES {
        let expected = matches!(state, LifecycleState::Stopped | LifecycleState::Failed);
        assert_eq!(state.is_terminal(), expected);
        let live = matches!(
            state,
            LifecycleState::Starting | LifecycleState::Running | LifecycleState::Stopping
        );
        assert_eq!(state.is_live(), live);
    }
}

#[test]
fn transitions_move_forward_or_fail() {
    let not_started = LifecycleState::NotStarted;
    let starting = LifecycleState::Starting;
    let running = LifecycleState::Running;
    let stopping = LifecycleState::Stopping;
    let stopped = LifecycleState::Stopped;
    let failed = LifecycleState::Failed;
    assert!(not_started.allows(starting));
    assert!(not_started.allows(running));
    assert!(starting.allows(running));
    assert!(running.allows(stopping));
    assert!(running.allows(stopped));
    assert!(stopping.allows(stopped));
    assert!(!running.allows(starting));
    assert!(!running.allows(not_started));
    assert!(!stopping.allows(running));
    assert!(!stopping.allows(stopping));
    for state in ALL_STATES {
        // No state follows itself; a terminal state is never left; any
        // other state may fail.
        assert!(!state.allows(state));
        assert!(!stopped.allows(state));
        assert!(!failed.allows(state));
        assert_eq!(state.allows(failed), !state.is_terminal());
        assert!(!state.allows(not_started));
    }
}

#[test]
fn nothing_runs_again_after_stopping() {
    for state in [LifecycleState::Stopping, LifecycleState::Stopped, LifecycleState::Failed] {
        assert!(!state.allows(LifecycleState::Running));
        assert_eq!(
            state.advance(LifecycleState::Running),
            Err(SupervisorError::InvalidTransition)
        );
    }
}

#[test]
fn advance_gives_the_next_state_or_refuses() {
    assert_eq!(
        LifecycleState::NotStarted.advance(LifecycleState::Running),
        Ok(LifecycleState::Running)
    );
    assert_eq!(
        LifecycleState::Running.advance(LifecycleState::Failed),
        Ok(LifecycleState::Failed)
    );
    assert_eq!(
        LifecycleState::Stopped.advance(LifecycleState::Failed),
        Err(SupervisorError::InvalidTransition)
    );
    assert_eq!(
        LifecycleState::Running.advance(LifecycleState::Running),
        Err(SupervisorError::InvalidTransition)
    );
}

#[test]
fn registry_records_a_start_once() {
    let rt = small_runtime();
    let mut registry = Registry::new();
    assert_eq!(registry.state_of(SubserviceId::Api), LifecycleState::NotStarted);
    assert!(!registry.holds_task(SubserviceId::Api));

    let first = sleeper(&rt);
    assert_eq!(registry.record_started(SubserviceId::Api, first.abort_handle()), Ok(()));
    assert_eq!(registry.state_of(SubserviceId::Api), LifecycleState::Running);
    assert!(registry.holds_task(SubserviceId::Api));
    assert_eq!(registry.state_of(SubserviceId::Database), LifecycleState::NotStarted);
    assert!(!registry.holds_task(SubserviceId::Database));

    let second = sleeper(&rt);
    assert_eq!(
        registry.record_started(SubserviceId::Api, second.abort_handle()),
        Err(SupervisorError::InvalidTransition)
    );
    assert_eq!(registry.state_of(SubserviceId::Api), LifecycleState::Running);
    assert!(alive(&rt, &first));
}

#[test]
fn registry_marks_stopping_once() {
    let rt = small_runtime();
    let mut registry = Registry::new();
    let task = sleeper(&rt);
    registry.record_started(SubserviceId::Messaging, task.abort_handle()).unwrap();
    assert_eq!(registry.mark_stopping(SubserviceId::Messaging), Ok(()));
    assert_eq!(registry.state_of(SubserviceId::Messaging), LifecycleState::Stopping);
    assert!(registry.holds_task(SubserviceId::Messaging));
    assert_eq!(
        registry.mark_stopping(SubserviceId::Messaging),
        Err(SupervisorError::InvalidTransition)
    );
    registry.mark_stopped(SubserviceId::Messaging);
    assert_eq!(
        registry.mark_stopping(SubserviceId::Messaging),
        Err(SupervisorError::InvalidTransition)
    );
    assert_eq!(registry.state_of(SubserviceId::Messaging), LifecycleState::Stopped);
}

#[test]
fn registry_mark_stopped_is_idempotent() {
    let rt = small_runtime();
    let mut registry = Registry::new();
    let task = sleeper(&rt);
    registry.record_started(SubserviceId::Database, task.abort_handle()).unwrap();
    registry.mark_stopped(SubserviceId::Database);
    assert_eq!(registry.state_of(SubserviceId::Database), LifecycleState::Stopped);
    assert!(!registry.holds_task(SubserviceId::Database));
    registry.mark_stopped(SubserviceId::Database);
    assert_eq!(registry.state_of(SubserviceId::Database), LifecycleState::Stopped);
    // Letting go of the handle does not abort the task.
    assert!(alive(&rt, &task));
    // A stopped subservice cannot be started again.
    let again = sleeper(&rt);
    assert_eq!(
        registry.record_started(SubserviceId::Database, again.abort_handle()),
        Err(SupervisorError::InvalidTransition)
    );
}

#[test]
fn registry_keeps_a_failure_terminal() {
    let rt = small_runtime();
    let mut registry = Registry::new();
    let task = sleeper(&rt);
    registry.record_started(SubserviceId::Api, task.abort_handle()).unwrap();
    registry.mark_failed(SubserviceId::Api);
    assert_eq!(registry.state_of(SubserviceId::Api), LifecycleState::Failed);
    assert!(!registry.holds_task(SubserviceId::Api));
    registry.mark_stopped(SubserviceId::Api);
    assert_eq!(registry.state_of(SubserviceId::Api), LifecycleState::Failed);
    registry.mark_failed(SubserviceId::Api);
    assert_eq!(registry.state_of(SubserviceId::Api), LifecycleState::Failed);

    registry.mark_stopped(SubserviceId::Messaging);
    registry.mark_failed(SubserviceId::Messaging);
    assert_eq!(registry.state_of(SubserviceId::Messaging), LifecycleState::Stopped);
}

#[test]
fn registry_abort_cancels_the_task() {
    let rt = small_runtime();
    let mut registry = Registry::new();
    let task = sleeper(&rt);
    let other = sleeper(&rt);
    registry.record_started(SubserviceId::Api, task.abort_handle()).unwrap();
    registry.record_started(SubserviceId::Database, other.abort_handle()).unwrap();

    assert!(registry.abort(SubserviceId::Api));
    assert_eq!(registry.state_of(SubserviceId::Api), LifecycleState::Stopped);
    assert!(!registry.holds_task(SubserviceId::Api));
    assert!(cancelled(&rt, task));
    assert!(alive(&rt, &other));
    assert_eq!(registry.state_of(SubserviceId::Database), LifecycleState::Running);

    // A second abort finds nothing to do, and neither does one on a
    // subservice that never started.
    assert!(!registry.abort(SubserviceId::Api));
    assert!(!registry.abort(SubserviceId::Messaging));
    assert_eq!(registry.state_of(SubserviceId::Messaging), LifecycleState::NotStarted);
}

#[test]
fn registry_abort_all_counts_the_tasks() {
    let rt = small_runtime();
    let mut registry = Registry::new();
    let db = sleeper(&rt);
    let api = sleeper(&rt);
    registry.record_started(SubserviceId::Database, db.abort_handle()).unwrap();
    registry.record_started(SubserviceId::Api, api.abort_handle()).unwrap();
    registry.mark_stopping(SubserviceId::Api).unwrap();

    assert_eq!(registry.abort_all(), 2);
    assert_eq!(registry.state_of(SubserviceId::Database), LifecycleState::Stopped);
    assert_eq!(registry.state_of(SubserviceId::Api), LifecycleState::Stopped);
    assert_eq!(registry.state_of(SubserviceId::Messaging), LifecycleState::NotStarted);
    assert!(cancelled(&rt, db));
    assert!(cancelled(&rt, api));
    assert_eq!(registry.abort_all(), 0);
}

#[test]
fn signal_is_given_once() {
    let mut signal = CancellationSignal::new();
    assert!(!signal.is_signalled());
    assert!(signal.signal());
    assert!(signal.is_signalled());
    assert!(!signal.signal());
    assert!(signal.is_signalled());
}

#[test]
fn each_observer_sees_the_signal_exactly_once() {
    let mut signal = CancellationSignal::new();
    let mut first = signal.subscribe();
    let mut second = signal.subscribe();
    assert!(!first.seen());
    assert!(!first.poll());
    assert!(!first.token().is_cancelled());

    signal.signal();
    assert!(first.token().is_cancelled());
    assert!(second.token().is_cancelled());

    assert!(first.poll());
    assert!(first.seen());
    assert!(!first.poll());
    // What the first observer consumed is still there for the second.
    assert!(!second.seen());
    assert!(second.poll());
    assert!(!second.poll());

    signal.signal();
    assert!(!first.poll());
    assert!(!second.poll());
}

#[test]
fn observer_wakes_a_waiting_task() {
    let rt = small_runtime();
    let mut signal = CancellationSignal::new();
    let mut observer = signal.subscribe();
    let waiter = rt.spawn(async move {
        observer.token().clone().cancelled_owned().await;
        observer.poll()
    });
    rt.block_on(async {
        tokio::time::sleep(Duration::from_millis(20)).await;
    });
    assert!(!waiter.is_finished());
    signal.signal();
    let woke = rt.block_on(async {
        tokio::time::timeout(Duration::from_millis(100), waiter).await
    });
    assert_eq!(woke.unwrap().unwrap(), true);
}

#[test]
fn observe_notes_the_first_sighting_only() {
    let signal = CancellationSignal::new();
    let mut observer = signal.subscribe();
    assert!(!observer.observe(false));
    assert!(!observer.seen());
    assert!(observer.observe(true));
    assert!(observer.seen());
    assert!(!observer.observe(true));
    assert!(!observer.observe(false));
    assert!(observer.seen());
}

#[test]
fn contention_on_the_lock_is_busy() {
    let lock = tokio::sync::RwLock::new(5u32);
    {
        let reader = lock.try_read().unwrap();
        let attempt = busy_on_contention(lock.try_write());
        assert_eq!(attempt.err(), Some(SupervisorError::Busy));
        assert_eq!(*reader, 5);
    }
    let attempt = busy_on_contention(lock.try_write());
    let mut guard = attempt.ok().unwrap();
    *guard = 6;
    drop(guard);
    assert_eq!(*lock.try_read().unwrap(), 6);
}

#[test]
fn a_subservice_starts_at_most_once() {
    let mut life = Lifecycle::new();
    assert_eq!(life.state(), LifecycleState::NotStarted);
    assert_eq!(life.begin_start(), Ok(()));
    assert_eq!(life.state(), LifecycleState::Starting);
    assert_eq!(life.begin_start(), Err(SupervisorError::AlreadyStarted));
    assert_eq!(life.state(), LifecycleState::Starting);
    assert_eq!(life.finish_start(true), Ok(()));
    assert_eq!(life.state(), LifecycleState::Running);
    assert_eq!(life.begin_start(), Err(SupervisorError::AlreadyStarted));
    assert_eq!(life.finish_start(true), Err(SupervisorError::InvalidTransition));
    assert_eq!(life.state(), LifecycleState::Running);
}

#[test]
fn a_subservice_that_fails_to_start_stays_failed() {
    let mut life = Lifecycle::new();
    assert_eq!(life.finish_start(false), Err(SupervisorError::InvalidTransition));
    assert_eq!(life.state(), LifecycleState::NotStarted);
    life.begin_start().unwrap();
    assert_eq!(life.finish_start(false), Ok(()));
    assert_eq!(life.state(), LifecycleState::Failed);
    assert!(!life.begin_stop());
    assert!(!life.finish_stop());
    life.fail();
    assert_eq!(life.state(), LifecycleState::Failed);
    assert_eq!(life.begin_start(), Err(SupervisorError::AlreadyStarted));
}

#[test]
fn a_subservice_stops_once_and_for_all() {
    let mut life = Lifecycle::new();
    assert!(!life.begin_stop());
    assert!(!life.finish_stop());
    assert_eq!(life.state(), LifecycleState::NotStarted);
    life.begin_start().unwrap();
    life.finish_start(true).unwrap();
    assert!(life.begin_stop());
    assert_eq!(life.state(), LifecycleState::Stopping);
    assert!(!life.begin_stop());
    assert!(life.finish_stop());
    assert_eq!(life.state(), LifecycleState::Stopped);
    assert!(!life.finish_stop());
    life.fail();
    assert_eq!(life.state(), LifecycleState::Stopped);
    assert_eq!(life.begin_start(), Err(SupervisorError::AlreadyStarted));
}

#[test]
fn a_running_subservice_can_fail_or_be_forced_down() {
    let mut life = Lifecycle::new();
    life.begin_start().unwrap();
    life.finish_start(true).unwrap();
    life.fail();
    assert_eq!(life.state(), LifecycleState::Failed);

    let mut other = Lifecycle::new();
    other.begin_start().unwrap();
    assert!(other.finish_stop());
    assert_eq!(other.state(), LifecycleState::Stopped);
}

#[test]
fn supervisor_errors_have_their_texts() {
    assert_eq!(SupervisorError::AlreadyStarted.message(), "already started");
    assert_eq!(SupervisorError::InvalidTransition.message(), "invalid lifecycle transition");
    assert_eq!(SupervisorError::Busy.message(), "supervisor is busy");
    assert_eq!(SupervisorError::StopTimedOut.message(), "graceful stop timed out");
    assert_eq!(
        SupervisorError::StartFailed { subservice: SubserviceId::Database }.message(),
        "failed to start database"
    );
    assert_eq!(
        SupervisorError::StartFailed { subservice: SubserviceId::Api }.message(),
        "failed to start api"
    );
    assert_eq!(
        SupervisorError::StartFailed { subservice: SubserviceId::Messaging }.message(),
        "failed to start messaging"
    );
}
