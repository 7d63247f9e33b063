use std::time::{Duration, Instant};

use api_server::api::ApiServiceArgs;
use api_server::db::DatabaseArgs;
use api_server::error::SupervisorError;
use api_server::lifecycle::{LifecycleState, SubserviceId};
use api_server::server::{ServiceManager, ServiceManagerArgs};
use api_server::supervisor::{StartReport, StartStep, StopReport, StopStep, SupervisorPhase};
use tokio::runtime::{Builder, Runtime};
use tokio::task::JoinHandle;

fn config() -> ServiceManagerArgs {
    ServiceManagerArgs {
        api: ApiServiceArgs { address: String::from("127.0.0.1"), port: 9000, timeout: 2 },
        database: DatabaseArgs {
            db_type: String::from("postgres"),
            db_host: String::from("localhost"),
            db_port: 5432,
            db_name: String::from("cmdb"),
            username: String::from("svc"),
            password: String::from("pw"),
            max_connections: Some(4),
            min_connections: Some(1),
        },
    }
}

fn workers() -> Runtime {
    Builder::new_multi_thread().worker_threads(2).enable_all().build().unwrap()
}

fn idle(rt: &Runtime) -> JoinHandle<()> {
    rt.spawn(async {
        std::future::pending::<()>().await;
    })
}

fn ended_by_abort(rt: &Runtime, task: JoinHandle<()>) -> bool {
    let joined = rt.block_on(async {
        tokio::time::timeout(Duration::from_millis(500), task).await
    });
    match joined {
        Ok(Err(e)) => e.is_cancelled(),
        _ => false,
    }
}

fn bring_up(rt: &Runtime, manager: &ServiceManager) -> Vec<JoinHandle<()>> {
    let mut tasks = Vec::new();
    let mut step = manager.start().unwrap();
    loop {
        match step {
            StartStep::Launch(id) => {
                let task = idle(rt);
                let report = StartReport::Started(task.abort_handle());
                tasks.push(task);
                step = manager.report_start(id, &report).unwrap();
            }
            StartStep::Ready => break,
        }
    }
    tasks
}

#[test]
fn manager_starts_in_dependency_order() {
    let rt = workers();
    let manager = ServiceManager::new(config());
    assert_eq!(manager.phase(), Ok(SupervisorPhase::Created));
    assert_eq!(manager.start(), Ok(StartStep::Launch(SubserviceId::Database)));

    let db = idle(&rt);
    let report = StartReport::Started(db.abort_handle());
    assert_eq!(
        manager.report_start(SubserviceId::Database, &report),
        Ok(StartStep::Launch(SubserviceId::Messaging))
    );
    assert_eq!(manager.state_of(SubserviceId::Database), Ok(LifecycleState::Running));
    assert_eq!(manager.state_of(SubserviceId::Api), Ok(LifecycleState::NotStarted));

    let msg = idle(&rt);
    let report = StartReport::Started(msg.abort_handle());
    assert_eq!(
        manager.report_start(SubserviceId::Messaging, &report),
        Ok(StartStep::Launch(SubserviceId::Api))
    );
    let api = idle(&rt);
    let report = StartReport::Started(api.abort_handle());
    assert_eq!(manager.report_start(SubserviceId::Api, &report), Ok(StartStep::Ready));
    assert_eq!(manager.phase(), Ok(SupervisorPhase::Running));
    assert_eq!(manager.start(), Err(SupervisorError::AlreadyStarted));
}

#[test]
fn manager_reports_a_failed_database_as_fatal() {
    let manager = ServiceManager::new(config());
    manager.start().unwrap();
    assert_eq!(
        manager.report_start(SubserviceId::Database, &StartReport::Failed),
        Err(SupervisorError::StartFailed { subservice: SubserviceId::Database })
    );
    assert_eq!(manager.phase(), Ok(SupervisorPhase::Failed));
    for id in [SubserviceId::Database, SubserviceId::Messaging, SubserviceId::Api] {
        assert_ne!(manager.state_of(id), Ok(LifecycleState::Running));
    }
}

#[test]
fn manager_stops_gracefully_in_reverse_order() {
    let rt = workers();
    let manager = ServiceManager::new(config());
    let _tasks = bring_up(&rt, &manager);
    let deadline = Duration::from_secs(2);

    let mut drained = Vec::new();
    let mut step = manager.stop(deadline).unwrap();
    loop {
        match step {
            StopStep::Drain { id, deadline: granted } => {
                assert_eq!(granted, deadline);
                drained.push(id);
                step = manager.report_stop(id, StopReport::Drained).unwrap();
            }
            StopStep::Done => break,
        }
    }
    assert_eq!(drained, vec![SubserviceId::Api, SubserviceId::Messaging, SubserviceId::Database]);
    assert_eq!(manager.phase(), Ok(SupervisorPhase::Stopped));
    let held = manager.lock().try_read().unwrap();
    assert_eq!(
        held.stop_order().as_slice(),
        &[SubserviceId::Api, SubserviceId::Messaging, SubserviceId::Database]
    );
    drop(held);

    // Once more: success at once, and nothing to drain.
    assert_eq!(manager.stop(deadline), Ok(StopStep::Done));
    assert_eq!(manager.stop_force(), Ok(false));
    assert_eq!(manager.phase(), Ok(SupervisorPhase::Stopped));
}

#[test]
fn manager_forces_everything_down() {
    let rt = workers();
    let manager = ServiceManager::new(config());
    let tasks = bring_up(&rt, &manager);
    let mut observer = manager.subscribe().unwrap();
    assert!(!observer.poll());

    assert_eq!(manager.stop_force(), Ok(true));
    assert_eq!(manager.phase(), Ok(SupervisorPhase::Stopped));
    for id in [SubserviceId::Database, SubserviceId::Messaging, SubserviceId::Api] {
        assert_eq!(manager.state_of(id), Ok(LifecycleState::Stopped));
    }
    assert!(observer.poll());
    for task in tasks {
        assert!(ended_by_abort(&rt, task));
    }
    assert_eq!(manager.stop_force(), Ok(false));
}

#[test]
fn manager_is_busy_while_the_lock_is_held() {
    let rt = workers();
    let manager = ServiceManager::new(config());
    let tasks = bring_up(&rt, &manager);

    let holder = manager.lock().try_read().unwrap();
    assert_eq!(manager.stop(Duration::from_secs(1)), Err(SupervisorError::Busy));
    assert_eq!(manager.stop_force(), Err(SupervisorError::Busy));
    assert_eq!(manager.start(), Err(SupervisorError::Busy));
    assert_eq!(
        manager.report_stop(SubserviceId::Api, StopReport::Drained),
        Err(SupervisorError::Busy)
    );
    assert_eq!(manager.phase(), Err(SupervisorError::Busy));
    assert_eq!(manager.state_of(SubserviceId::Api), Err(SupervisorError::Busy));
    assert_eq!(manager.subscribe().err(), Some(SupervisorError::Busy));
    // Nothing was changed by the refused calls.
    assert_eq!(holder.phase(), SupervisorPhase::Running);
    assert_eq!(holder.state_of(SubserviceId::Api), LifecycleState::Running);
    assert!(!holder.is_cancelled());
    drop(holder);

    // The caller escalates once the lock is free.
    assert_eq!(manager.stop_force(), Ok(true));
    for task in tasks {
        assert!(ended_by_abort(&rt, task));
    }
}

#[test]
fn busy_report_leaves_the_task_alone_and_can_be_repeated() {
    let rt = workers();
    let manager = ServiceManager::new(config());
    manager.start().unwrap();
    let db = idle(&rt);
    let report = StartReport::Started(db.abort_handle());

    let holder = manager.lock().try_read().unwrap();
    assert_eq!(
        manager.report_start(SubserviceId::Database, &report),
        Err(SupervisorError::Busy)
    );
    drop(holder);
    rt.block_on(async {
        tokio::time::sleep(Duration::from_millis(20)).await;
    });
    assert!(!db.is_finished());

    assert_eq!(
        manager.report_start(SubserviceId::Database, &report),
        Ok(StartStep::Launch(SubserviceId::Messaging))
    );
    assert_eq!(manager.state_of(SubserviceId::Database), Ok(LifecycleState::Running));
    // The handle that the manager keeps is one to the same task.
    assert_eq!(manager.stop_force(), Ok(true));
    assert!(ended_by_abort(&rt, db));
}

#[test]
fn two_callers_race_to_stop_and_one_does_the_work() {
    let rt = workers();
    let manager = std::sync::Arc::new(ServiceManager::new(config()));
    let tasks = bring_up(&rt, &manager);

    let mut callers = Vec::new();
    for _ in 0..2 {
        let manager = manager.clone();
        callers.push(rt.spawn(async move {
            let mut drains = 0u32;
            let mut step = loop {
                match manager.stop(Duration::from_millis(200)) {
                    Ok(step) => break step,
                    Err(SupervisorError::Busy) => tokio::task::yield_now().await,
                    Err(other) => panic!("unexpected error {:?}", other),
                }
            };
            loop {
                match step {
                    StopStep::Drain { id, .. } => {
                        drains += 1;
                        tokio::time::sleep(Duration::from_millis(5)).await;
                        step = loop {
                            match manager.report_stop(id, StopReport::Drained) {
                                Ok(step) => break step,
                                Err(SupervisorError::Busy) => tokio::task::yield_now().await,
                                Err(other) => panic!("unexpected error {:?}", other),
                            }
                        };
                    }
                    StopStep::Done => break,
                }
            }
            drains
        }));
    }
    let mut work = Vec::new();
    for caller in callers {
        let drains = rt
            .block_on(async { tokio::time::timeout(Duration::from_secs(5), caller).await })
            .unwrap()
            .unwrap();
        work.push(drains);
    }
    work.sort();
    // One caller drained all three subservices, the other had nothing to do.
    assert_eq!(work, vec![0, 3]);
    assert_eq!(manager.phase(), Ok(SupervisorPhase::Stopped));
    let held = manager.lock().try_read().unwrap();
    assert_eq!(
        held.stop_order().as_slice(),
        &[SubserviceId::Api, SubserviceId::Messaging, SubserviceId::Database]
    );
    drop(held);
    drop(tasks);
}

#[test]
fn graceful_stop_returns_soon_after_the_deadline() {
    let rt = workers();
    let manager = ServiceManager::new(config());
    let tasks = bring_up(&rt, &manager);
    let deadline = Duration::from_millis(40);

    // No subservice ever finishes its drain: each one runs into the deadline.
    let begun = Instant::now();
    let mut step = manager.stop(deadline).unwrap();
    let mut drains = 0u32;
    loop {
        match step {
            StopStep::Drain { id, deadline } => {
                drains += 1;
                let waited = rt.block_on(async {
                    tokio::time::timeout(deadline, std::future::pending::<()>()).await
                });
                let report = match waited {
                    Ok(()) => StopReport::Drained,
                    Err(_) => StopReport::TimedOut,
                };
                step = manager.report_stop(id, report).unwrap();
                assert_eq!(manager.state_of(id), Ok(LifecycleState::Stopped));
            }
            StopStep::Done => break,
        }
    }
    let elapsed = begun.elapsed();
    assert_eq!(drains, 3);
    assert!(elapsed >= deadline * 3);
    assert!(elapsed < deadline * 3 + Duration::from_millis(500));
    assert_eq!(manager.phase(), Ok(SupervisorPhase::Stopped));
    let held = manager.lock().try_read().unwrap();
    assert_eq!(
        held.failures().as_slice(),
        &[
            SupervisorError::StopTimedOut,
            SupervisorError::StopTimedOut,
            SupervisorError::StopTimedOut
        ]
    );
    drop(held);
    // What ran past its deadline was forced down.
    for task in tasks {
        assert!(ended_by_abort(&rt, task));
    }
}

#[test]
fn manager_keeps_its_configuration() {
    let manager = ServiceManager::new(config());
    assert_eq!(manager.args().api.address, "127.0.0.1");
    assert_eq!(manager.args().api.port, 9000);
    assert_eq!(manager.args().api.timeout, 2);
    assert_eq!(manager.args().database.dsn(), "postgres://svc:pw@localhost:5432/cmdb");
    assert_eq!(manager.args().database.max_connections, Some(4));
    assert_eq!(manager.args().database.min_connections, Some(1));

    // It can be read while the lock is held, and no call changes it.
    let holder = manager.lock().try_write().unwrap();
    assert_eq!(manager.args().api.port, 9000);
    assert_eq!(holder.args().api.port, 9000);
    assert_eq!(holder.args().database.db_name, "cmdb");
    drop(holder);
    manager.start().unwrap();
    assert_eq!(manager.stop_force(), Ok(true));
    assert_eq!(manager.args().api.port, 9000);
    assert_eq!(manager.args().database.username, "svc");
}

#[test]
fn configuration_is_duplicated_field_by_field() {
    let first = config();
    let second = first.duplicate();
    assert_eq!(second.api.address, first.api.address);
    assert_eq!(second.api.port, first.api.port);
    assert_eq!(second.api.timeout, first.api.timeout);
    assert_eq!(second.database.db_type, first.database.db_type);
    assert_eq!(second.database.db_host, first.database.db_host);
    assert_eq!(second.database.db_port, first.database.db_port);
    assert_eq!(second.database.db_name, first.database.db_name);
    assert_eq!(second.database.username, first.database.username);
    assert_eq!(second.database.password, first.database.password);
    assert_eq!(second.database.max_connections, first.database.max_connections);
    assert_eq!(second.database.min_connections, first.database.min_connections);
}
