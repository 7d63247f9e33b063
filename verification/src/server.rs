//! The service manager: the supervisor behind a lock, for callers that share
//! it. No call waits for the lock; one that finds it taken is told `Busy`.

use vstd::prelude::*;
use std::time::Duration;
use tokio::sync::RwLock;
use tokio::task::AbortHandle;
use crate::api::ApiServiceArgs;
use crate::db::DatabaseArgs;
use crate::error::SupervisorError;
use crate::lifecycle::{LifecycleState, SubserviceId};
use crate::lock::{busy_on_contention, guard_target, lock_new, lock_try_write};
use crate::signal::Observer;
use crate::supervisor::{
    next_to_launch, StartReport, StartStep, StopReport, StopStep, Supervisor, SupervisorPhase,
};

verus! {

/// The validated configuration from which the supervisor is built.
#[derive(Clone, Debug)]
pub struct ServiceManagerArgs {
    pub api: ApiServiceArgs,
    pub database: DatabaseArgs,
}

impl ServiceManagerArgs {
    /// A second copy of the configuration, equal to this one in every field.
    pub fn duplicate(&self) -> (copy: ServiceManagerArgs)
        ensures
            copy == *self,
    {
        ServiceManagerArgs {
            api: ApiServiceArgs {
                address: self.api.address.clone(),
                port: self.api.port,
                timeout: self.api.timeout,
            },
            database: DatabaseArgs {
                db_type: self.database.db_type.clone(),
                db_host: self.database.db_host.clone(),
                db_port: self.database.db_port,
                db_name: self.database.db_name.clone(),
                username: self.database.username.clone(),
                password: self.database.password.clone(),
                max_connections: self.database.max_connections,
                min_connections: self.database.min_connections,
            },
        }
    }
}

/// Calls `AbortHandle::clone`, which gives a second handle to the same task.
/// Nothing is claimed of it.
#[verifier::external_body]
fn handle_clone(handle: &AbortHandle) -> (copy: AbortHandle) {
    handle.clone()
}

/// The answer that a report on the start of `id` can get, where it gets one.
pub open spec fn launch_after(id: SubserviceId) -> StartStep {
    match next_to_launch(id) {
        Some(next) => StartStep::Launch(next),
        None => StartStep::Ready,
    }
}

/// The supervisor, shared, beside the configuration that it was built from.
pub struct ServiceManager {
    args: ServiceManagerArgs,
    shared: RwLock<Supervisor>,
}

impl ServiceManager {
    /// The configuration that the manager was built from. It is captured
    /// once and lies outside the lock: no call changes it.
    pub closed spec fn config(&self) -> ServiceManagerArgs {
        self.args
    }

    /// A manager that keeps the configuration given, around a supervisor
    /// that is built from a copy of it and has started nothing yet.
    pub fn new(args: ServiceManagerArgs) -> (m: ServiceManager)
        ensures
            m.config() == args,
    {
        let supervisor = Supervisor::new(args.duplicate());
        ServiceManager { args, shared: lock_new(supervisor) }
    }

    /// The configuration that the manager was built from; reading it takes
    /// no lock.
    pub fn args(&self) -> (a: &ServiceManagerArgs)
        ensures
            *a == self.config(),
    {
        &self.args
    }

    /// The lock that guards the supervisor.
    pub closed spec fn guard(&self) -> RwLock<Supervisor> {
        self.shared
    }

    /// The lock and the supervisor in it, for callers that can wait.
    pub fn lock(&self) -> (lock: &RwLock<Supervisor>)
        ensures
            *lock == self.guard(),
    {
        &self.shared
    }

    /// Begins the startup, as `Supervisor::start_all` does, where the lock is
    /// free. The first subservice to launch is the database.
    pub fn start(&self) -> (r: Result<StartStep, SupervisorError>)
        ensures
            r is Ok ==> r == Ok::<StartStep, SupervisorError>(
                StartStep::Launch(SubserviceId::Database),
            ),
            r is Err ==> r->Err_0 is Busy || r->Err_0 is AlreadyStarted,
    {
        match busy_on_contention(lock_try_write(&self.shared)) {
            Ok(mut guard) => {
                let supervisor = guard_target(&mut guard);
                supervisor.start_all()
            },
            Err(busy) => Err(busy),
        }
    }

    /// Reports the start of `id`, as `Supervisor::report_start` does, where
    /// the lock is free. Where it is not, nothing happens to the task that
    /// the report names, and the same report can be made again.
    pub fn report_start(&self, id: SubserviceId, report: &StartReport) -> (r: Result<
        StartStep,
        SupervisorError,
    >)
        ensures
            r is Ok ==> r == Ok::<StartStep, SupervisorError>(launch_after(id)),
            r is Err ==> r->Err_0 is Busy || r->Err_0 is InvalidTransition || (r->Err_0
                == (SupervisorError::StartFailed { subservice: id }) && id.required()
                && report is Failed),
    {
        match busy_on_contention(lock_try_write(&self.shared)) {
            Ok(mut guard) => {
                let supervisor = guard_target(&mut guard);
                let owned = match report {
                    StartReport::Started(handle) => StartReport::Started(handle_clone(handle)),
                    StartReport::Failed => StartReport::Failed,
                };
                supervisor.report_start(id, owned)
            },
            Err(busy) => Err(busy),
        }
    }

    /// Begins a graceful shutdown, as `Supervisor::stop_graceful` does, where
    /// the lock is free. A drain that is asked for has the deadline given.
    pub fn stop(&self, deadline: Duration) -> (r: Result<StopStep, SupervisorError>)
        ensures
            r is Err ==> r->Err_0 is Busy,
            r is Ok ==> match r->Ok_0 {
                StopStep::Drain { id, deadline: granted } => granted == deadline,
                StopStep::Done => true,
            },
    {
        match busy_on_contention(lock_try_write(&self.shared)) {
            Ok(mut guard) => {
                let supervisor = guard_target(&mut guard);
                Ok(supervisor.stop_graceful(deadline))
            },
            Err(busy) => Err(busy),
        }
    }

    /// Reports the drain of `id`, as `Supervisor::report_stop` does, where
    /// the lock is free.
    pub fn report_stop(&self, id: SubserviceId, report: StopReport) -> (r: Result<
        StopStep,
        SupervisorError,
    >)
        ensures
            r is Err ==> r->Err_0 is Busy || r->Err_0 is InvalidTransition,
    {
        match busy_on_contention(lock_try_write(&self.shared)) {
            Ok(mut guard) => {
                let supervisor = guard_target(&mut guard);
                supervisor.report_stop(id, report)
            },
            Err(busy) => Err(busy),
        }
    }

    /// Forces everything down, as `Supervisor::stop_force` does, where the
    /// lock is free. The result tells whether this call did the work.
    pub fn stop_force(&self) -> (r: Result<bool, SupervisorError>)
        ensures
            r is Err ==> r->Err_0 is Busy,
    {
        match busy_on_contention(lock_try_write(&self.shared)) {
            Ok(mut guard) => {
                let supervisor = guard_target(&mut guard);
                Ok(supervisor.stop_force())
            },
            Err(busy) => Err(busy),
        }
    }

    /// A new observer of the cancellation signal, where the lock is free.
    pub fn subscribe(&self) -> (r: Result<Observer, SupervisorError>)
        ensures
            r is Err ==> r->Err_0 is Busy,
            r is Ok ==> !r->Ok_0.has_seen(),
    {
        match busy_on_contention(lock_try_write(&self.shared)) {
            Ok(mut guard) => {
                let supervisor = guard_target(&mut guard);
                Ok(supervisor.subscribe())
            },
            Err(busy) => Err(busy),
        }
    }

    /// Where the supervisor stands, where the lock is free.
    pub fn phase(&self) -> (r: Result<SupervisorPhase, SupervisorError>)
        ensures
            r is Err ==> r->Err_0 is Busy,
    {
        match busy_on_contention(lock_try_write(&self.shared)) {
            Ok(mut guard) => {
                let supervisor = guard_target(&mut guard);
                Ok(supervisor.phase())
            },
            Err(busy) => Err(busy),
        }
    }

    /// The state of one subservice, where the lock is free.
    pub fn state_of(&self, id: SubserviceId) -> (r: Result<LifecycleState, SupervisorError>)
        ensures
            r is Err ==> r->Err_0 is Busy,
    {
        match busy_on_contention(lock_try_write(&self.shared)) {
            Ok(mut guard) => {
                let supervisor = guard_target(&mut guard);
                Ok(supervisor.state_of(id))
            },
            Err(busy) => Err(busy),
        }
    }
}

} // verus!
