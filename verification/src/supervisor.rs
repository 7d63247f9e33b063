//! The service supervisor. It decides what is started and stopped, and in
//! which order; the caller does the waiting that starting and draining a
//! subservice take, and reports back how each went.

use vstd::prelude::*;
use std::time::Duration;
use tokio::task::AbortHandle;
use tokio_util::sync::CancellationToken;
use crate::error::SupervisorError;
use crate::lifecycle::{LifecycleState, SubserviceId};
use crate::registry::{abort_task, Registry, RegistryView};
use crate::server::ServiceManagerArgs;
use crate::signal::{CancellationSignal, Observer};

verus! {

/// Where the supervisor as a whole stands.
#[derive(Clone, Copy, Debug, PartialEq, Eq, Structural)]
pub enum SupervisorPhase {
    Created,
    Starting,
    Running,
    Stopping,
    Stopped,
    Failed,
}

/// How the start of one subservice went.
pub enum StartReport {
    /// It runs; the handle aborts its task.
    Started(AbortHandle),
    /// It could not be started.
    Failed,
}

/// How the drain of one subservice went.
#[derive(Clone, Copy, Debug, PartialEq, Eq, Structural)]
pub enum StopReport {
    /// All work in flight finished before the deadline.
    Drained,
    /// The deadline passed with work still in flight.
    TimedOut,
}

/// What the caller has to do next during startup.
#[derive(Clone, Copy, Debug, PartialEq, Eq, Structural)]
pub enum StartStep {
    /// Start this subservice, then report how it went.
    Launch(SubserviceId),
    /// Startup is complete.
    Ready,
}

/// What the caller has to do next during a graceful shutdown.
#[derive(Clone, Copy, Debug, PartialEq, Eq)]
pub enum StopStep {
    /// Let this subservice drain for at most `deadline`, then report.
    Drain { id: SubserviceId, deadline: Duration },
    /// Nothing is left to do.
    Done,
}

/// The subservice that is started after `id`, if any.
pub open spec fn next_to_launch(id: SubserviceId) -> Option<SubserviceId> {
    match id {
        SubserviceId::Database => Some(SubserviceId::Messaging),
        SubserviceId::Messaging => Some(SubserviceId::Api),
        SubserviceId::Api => None,
    }
}

/// The running subservice that is drained first: dependents go before what
/// they depend on.
pub open spec fn next_to_drain(r: RegistryView) -> Option<SubserviceId> {
    if r.api.state is Running {
        Some(SubserviceId::Api)
    } else if r.messaging.state is Running {
        Some(SubserviceId::Messaging)
    } else if r.database.state is Running {
        Some(SubserviceId::Database)
    } else {
        None
    }
}

/// Each element was started before the one in front of it.
pub open spec fn reverse_start_order(order: Seq<SubserviceId>) -> bool {
    forall|i: int, j: int|
        #![trigger order[i], order[j]]
        0 <= i < j < order.len() ==> order[i].start_rank() > order[j].start_rank()
}

/// Every element was started after `id`.
pub open spec fn all_started_after(order: Seq<SubserviceId>, id: SubserviceId) -> bool {
    forall|i: int| 0 <= i < order.len() ==> (#[trigger] order[i]).start_rank() > id.start_rank()
}

/// The supervisor as the contracts see it.
pub ghost struct SupervisorView {
    pub phase: SupervisorPhase,
    pub registry: RegistryView,
    /// Whether the cancellation signal has been given.
    pub signalled: bool,
    /// The subservice whose start was requested and not yet reported.
    pub pending: Option<SubserviceId>,
    /// The subservice whose drain was requested and not yet reported.
    pub draining: Option<SubserviceId>,
    /// The deadline of the shutdown under way.
    pub deadline: Option<Duration>,
    /// Every failure met so far, oldest first.
    pub failures: Seq<SupervisorError>,
    /// The subservices that a graceful shutdown has finished with, oldest first.
    pub stop_order: Seq<SubserviceId>,
}

impl SupervisorView {
    /// The supervisor before anything was started.
    pub open spec fn created() -> SupervisorView {
        SupervisorView {
            phase: SupervisorPhase::Created,
            registry: RegistryView::fresh(),
            signalled: false,
            pending: None,
            draining: None,
            deadline: None,
            failures: Seq::empty(),
            stop_order: Seq::empty(),
        }
    }

    /// What holds of the registry while `next` is the subservice being
    /// started: everything before it was tried, the required one runs, and
    /// nothing from `next` on was touched.
    pub open spec fn ready_to_launch(r: RegistryView, next: SubserviceId) -> bool {
        let fresh = crate::registry::EntryView::fresh();
        match next {
            SubserviceId::Database => r == RegistryView::fresh(),
            SubserviceId::Messaging => {
                &&& r.database.state is Running
                &&& r.messaging == fresh
                &&& r.api == fresh
            },
            SubserviceId::Api => {
                &&& r.database.state is Running
                &&& (r.messaging.state is Running || r.messaging.state is Failed)
                &&& r.api == fresh
            },
        }
    }

    /// Every subservice that still runs was started before `id`.
    pub open spec fn running_only_before(r: RegistryView, id: SubserviceId) -> bool {
        &&& r.database.state is Running ==> SubserviceId::Database.start_rank() < id.start_rank()
        &&& r.messaging.state is Running ==> SubserviceId::Messaging.start_rank() < id.start_rank()
        &&& r.api.state is Running ==> SubserviceId::Api.start_rank() < id.start_rank()
    }

    /// `id` is the only subservice that is draining.
    pub open spec fn only_draining(r: RegistryView, id: SubserviceId) -> bool {
        &&& r.database.state is Stopping <==> id is Database
        &&& r.messaging.state is Stopping <==> id is Messaging
        &&& r.api.state is Stopping <==> id is Api
    }

    /// The invariant of the supervisor.
    pub open spec fn wf(self) -> bool {
        &&& self.registry.wf()
        &&& !(self.registry.database.state is Starting)
        &&& !(self.registry.messaging.state is Starting)
        &&& !(self.registry.api.state is Starting)
        &&& reverse_start_order(self.stop_order)
        &&& match self.phase {
            SupervisorPhase::Created => {
                &&& self.registry == RegistryView::fresh()
                &&& self.pending is None
                &&& self.draining is None
                &&& self.stop_order.len() == 0
            },
            SupervisorPhase::Starting => {
                &&& self.pending is Some
                &&& self.draining is None
                &&& self.stop_order.len() == 0
                &&& Self::ready_to_launch(self.registry, self.pending->0)
            },
            SupervisorPhase::Running => {
                &&& self.pending is None
                &&& self.draining is None
                &&& self.stop_order.len() == 0
                &&& self.registry.database.state is Running
                &&& (self.registry.messaging.state is Running
                    || self.registry.messaging.state is Failed)
                &&& (self.registry.api.state is Running || self.registry.api.state is Failed)
            },
            SupervisorPhase::Stopping => {
                &&& self.pending is None
                &&& self.draining is Some
                &&& self.deadline is Some
                &&& Self::only_draining(self.registry, self.draining->0)
                &&& Self::running_only_before(self.registry, self.draining->0)
                &&& all_started_after(self.stop_order, self.draining->0)
            },
            SupervisorPhase::Stopped | SupervisorPhase::Failed => {
                &&& self.pending is None
                &&& self.draining is None
                &&& self.registry.quiet()
            },
        }
    }

    /// Whether a shutdown request finds nothing left to do.
    pub open spec fn shutdown_settled(self) -> bool {
        self.phase is Stopping || self.phase is Stopped || self.phase is Failed
    }

    /// The state after a start was requested.
    pub open spec fn begin_start(self) -> SupervisorView {
        if self.phase is Created {
            SupervisorView {
                phase: SupervisorPhase::Starting,
                pending: Some(SubserviceId::Database),
                ..self
            }
        } else {
            self
        }
    }

    /// Whether a report on the start of `id` is expected.
    pub open spec fn awaits_start(self, id: SubserviceId) -> bool {
        self.phase is Starting && self.pending == Some(id)
    }

    /// The state once `id` has been dealt with and startup moves on.
    pub open spec fn launch_next(self, id: SubserviceId) -> SupervisorView {
        match next_to_launch(id) {
            Some(next) => SupervisorView { pending: Some(next), ..self },
            None => SupervisorView { phase: SupervisorPhase::Running, pending: None, ..self },
        }
    }

    /// The state after the start of `id` was reported, `ok` telling whether
    /// it runs. A report that is not expected changes nothing. A required
    /// subservice that fails ends the startup: the signal is given and every
    /// task is aborted. Any other failure is noted and startup moves on.
    pub open spec fn after_start(self, id: SubserviceId, ok: bool) -> SupervisorView {
        if !self.awaits_start(id) {
            self
        } else if ok {
            SupervisorView {
                registry: self.registry.set(id, self.registry.get(id).started()),
                ..self
            }.launch_next(id)
        } else if id.required() {
            SupervisorView {
                phase: SupervisorPhase::Failed,
                registry: self.registry.set(id, self.registry.get(id).failed()).all_aborted(),
                signalled: true,
                pending: None,
                failures: self.failures.push(SupervisorError::StartFailed { subservice: id }),
                ..self
            }
        } else {
            SupervisorView {
                registry: self.registry.set(id, self.registry.get(id).failed()),
                failures: self.failures.push(SupervisorError::StartFailed { subservice: id }),
                ..self
            }.launch_next(id)
        }
    }

    /// The answer to a report on the start of `id`.
    pub open spec fn start_answer(self, id: SubserviceId, ok: bool) -> Result<
        StartStep,
        SupervisorError,
    > {
        if !self.awaits_start(id) {
            Err(SupervisorError::InvalidTransition)
        } else if !ok && id.required() {
            Err(SupervisorError::StartFailed { subservice: id })
        } else {
            match next_to_launch(id) {
                Some(next) => Ok(StartStep::Launch(next)),
                None => Ok(StartStep::Ready),
            }
        }
    }

    /// The state once the next running subservice, if any, is told to drain.
    /// Without a deadline nothing can be drained.
    pub open spec fn drain_next(self) -> SupervisorView {
        match (next_to_drain(self.registry), self.deadline) {
            (Some(id), Some(deadline)) => SupervisorView {
                phase: SupervisorPhase::Stopping,
                draining: Some(id),
                registry: self.registry.set(id, self.registry.get(id).stopping()),
                ..self
            },
            _ => SupervisorView { phase: SupervisorPhase::Stopped, draining: None, ..self },
        }
    }

    /// What the caller is asked to do in this state of a graceful shutdown.
    pub open spec fn drain_request(self) -> StopStep {
        match (self.draining, self.deadline) {
            (Some(id), Some(deadline)) => StopStep::Drain { id, deadline },
            _ => StopStep::Done,
        }
    }

    /// The state after a graceful shutdown was requested.
    pub open spec fn begin_stop(self, deadline: Duration) -> SupervisorView {
        if self.shutdown_settled() {
            self
        } else {
            SupervisorView { pending: None, deadline: Some(deadline), ..self }.drain_next()
        }
    }

    /// The answer to the request of a graceful shutdown.
    pub open spec fn stop_answer(self, deadline: Duration) -> StopStep {
        if self.shutdown_settled() {
            StopStep::Done
        } else {
            self.begin_stop(deadline).drain_request()
        }
    }

    /// Whether a report on the drain of `id` is expected.
    pub open spec fn awaits_stop(self, id: SubserviceId) -> bool {
        self.phase is Stopping && self.draining == Some(id)
    }

    /// The state after the drain of `id` was reported. A report that is not
    /// expected changes nothing. A subservice that drained is stopped; one
    /// that ran out of time has its task aborted and is stopped as well, and
    /// the timeout is noted. Either way the shutdown moves on.
    pub open spec fn after_stop(self, id: SubserviceId, report: StopReport) -> SupervisorView {
        if !self.awaits_stop(id) {
            self
        } else {
            SupervisorView {
                registry: match report {
                    StopReport::Drained => self.registry.set(id, self.registry.get(id).stopped()),
                    StopReport::TimedOut => self.registry.set(id, self.registry.get(id).aborted()),
                },
                failures: match report {
                    StopReport::Drained => self.failures,
                    StopReport::TimedOut => self.failures.push(SupervisorError::StopTimedOut),
                },
                stop_order: self.stop_order.push(id),
                draining: None,
                ..self
            }.drain_next()
        }
    }

    /// The state after a forced shutdown was requested.
    pub open spec fn force(self) -> SupervisorView {
        if self.shutdown_settled() {
            self
        } else {
            SupervisorView {
                phase: SupervisorPhase::Stopped,
                registry: self.registry.all_aborted(),
                signalled: true,
                pending: None,
                ..self
            }
        }
    }
}

/// The service supervisor.
pub struct Supervisor {
    args: ServiceManagerArgs,
    phase: SupervisorPhase,
    registry: Registry,
    signal: CancellationSignal,
    pending: Option<SubserviceId>,
    draining: Option<SubserviceId>,
    deadline: Option<Duration>,
    failures: Vec<SupervisorError>,
    stop_order: Vec<SubserviceId>,
}

impl View for Supervisor {
    type V = SupervisorView;

    closed spec fn view(&self) -> SupervisorView {
        SupervisorView {
            phase: self.phase,
            registry: self.registry@,
            signalled: self.signal.signalled(),
            pending: self.pending,
            draining: self.draining,
            deadline: self.deadline,
            failures: self.failures@,
            stop_order: self.stop_order@,
        }
    }
}

impl Supervisor {
    /// The configuration that the supervisor was built from.
    pub closed spec fn config(&self) -> ServiceManagerArgs {
        self.args
    }

    /// The token that carries the cancellation signal of this supervisor.
    pub closed spec fn carrier(&self) -> CancellationToken {
        self.signal.carrier()
    }

    /// A supervisor that has started nothing yet. The configuration is kept
    /// as it is given and never changed.
    pub fn new(args: ServiceManagerArgs) -> (m: Supervisor)
        ensures
            m@ == SupervisorView::created(),
            m@.wf(),
            m.config() == args,
    {
        Supervisor {
            args,
            phase: SupervisorPhase::Created,
            registry: Registry::new(),
            signal: CancellationSignal::new(),
            pending: None,
            draining: None,
            deadline: None,
            failures: Vec::new(),
            stop_order: Vec::new(),
        }
    }

    /// The configuration that the supervisor was built from.
    pub fn args(&self) -> (a: &ServiceManagerArgs)
        ensures
            *a == self.config(),
    {
        &self.args
    }

    /// Where the supervisor stands.
    pub fn phase(&self) -> (p: SupervisorPhase)
        ensures
            p == self@.phase,
    {
        self.phase
    }

    /// The state of one subservice.
    pub fn state_of(&self, id: SubserviceId) -> (s: LifecycleState)
        ensures
            s == self@.registry.state(id),
    {
        self.registry.state_of(id)
    }

    /// Whether the cancellation signal has been given.
    pub fn is_cancelled(&self) -> (c: bool)
        ensures
            c == self@.signalled,
    {
        self.signal.is_signalled()
    }

    /// The failures met so far, oldest first.
    pub fn failures(&self) -> (f: &Vec<SupervisorError>)
        ensures
            f@ == self@.failures,
    {
        &self.failures
    }

    /// The subservices that a graceful shutdown has finished with, oldest first.
    pub fn stop_order(&self) -> (o: &Vec<SubserviceId>)
        ensures
            o@ == self@.stop_order,
    {
        &self.stop_order
    }

    /// A new observer of the cancellation signal, for one subservice task.
    pub fn subscribe(&self) -> (o: Observer)
        ensures
            !o.has_seen(),
            o.watched() == self.carrier(),
    {
        self.signal.subscribe()
    }

    /// Begins the startup. The first subservice to launch is the database;
    /// each report on a launch is answered with the next one. A supervisor
    /// that was started before refuses and stays as it is.
    pub fn start_all(&mut self) -> (r: Result<StartStep, SupervisorError>)
        ensures
            old(self)@.wf() ==> final(self)@.wf(),
            final(self)@ == old(self)@.begin_start(),
            final(self).config() == old(self).config(),
            final(self).carrier() == old(self).carrier(),
            old(self)@.phase is Created ==> r == Ok::<StartStep, SupervisorError>(
                StartStep::Launch(SubserviceId::Database),
            ),
            !(old(self)@.phase is Created) ==> r == Err::<StartStep, SupervisorError>(
                SupervisorError::AlreadyStarted,
            ),
    {
        match self.phase {
            SupervisorPhase::Created => {
                self.phase = SupervisorPhase::Starting;
                self.pending = Some(SubserviceId::Database);
                Ok(StartStep::Launch(SubserviceId::Database))
            },
            _ => Err(SupervisorError::AlreadyStarted),
        }
    }

    fn awaits_start_of(&self, id: SubserviceId) -> (b: bool)
        ensures
            b == self@.awaits_start(id),
    {
        match (self.phase, self.pending) {
            (SupervisorPhase::Starting, Some(p)) => p == id,
            _ => false,
        }
    }

    fn awaits_stop_of(&self, id: SubserviceId) -> (b: bool)
        ensures
            b == self@.awaits_stop(id),
    {
        match (self.phase, self.draining) {
            (SupervisorPhase::Stopping, Some(d)) => d == id,
            _ => false,
        }
    }

    fn launch_after(&mut self, id: SubserviceId) -> (step: StartStep)
        ensures
            final(self)@ == old(self)@.launch_next(id),
            final(self).config() == old(self).config(),
            final(self).carrier() == old(self).carrier(),
            match next_to_launch(id) {
                Some(next) => step == StartStep::Launch(next),
                None => step == StartStep::Ready,
            },
    {
        match id {
            SubserviceId::Database => {
                self.pending = Some(SubserviceId::Messaging);
                StartStep::Launch(SubserviceId::Messaging)
            },
            SubserviceId::Messaging => {
                self.pending = Some(SubserviceId::Api);
                StartStep::Launch(SubserviceId::Api)
            },
            SubserviceId::Api => {
                self.pending = None;
                self.phase = SupervisorPhase::Running;
                StartStep::Ready
            },
        }
    }

    /// Takes the report on the start of `id` and answers with the next step.
    ///
    /// A report that is not expected (no startup is under way, or another
    /// subservice is being started) is refused with `InvalidTransition`; a
    /// task that comes with it is aborted, since nothing would track it.
    /// A failed start of a required subservice is answered with
    /// `StartFailed`, after everything started so far was forced down. Any
    /// other failure is noted, the subservice is marked failed, and the
    /// startup goes on.
    pub fn report_start(&mut self, id: SubserviceId, report: StartReport) -> (r: Result<
        StartStep,
        SupervisorError,
    >)
        ensures
            old(self)@.wf() ==> final(self)@.wf(),
            final(self)@ == old(self)@.after_start(id, report is Started),
            final(self).config() == old(self).config(),
            final(self).carrier() == old(self).carrier(),
            r == old(self)@.start_answer(id, report is Started),
    {
        if !self.awaits_start_of(id) {
            match report {
                StartReport::Started(handle) => {
                    abort_task(&handle);
                },
                StartReport::Failed => {},
            }
            return Err(SupervisorError::InvalidTransition);
        }
        match report {
            StartReport::Started(handle) => {
                let recorded = self.registry.record_started(id, handle);
                assert(old(self)@.wf() ==> recorded.is_ok());
                let step = self.launch_after(id);
                Ok(step)
            },
            StartReport::Failed => {
                self.registry.mark_failed(id);
                let failure = SupervisorError::StartFailed { subservice: id };
                self.failures.push(failure);
                if failure.is_fatal() {
                    self.signal.signal();
                    self.registry.abort_all();
                    self.pending = None;
                    self.phase = SupervisorPhase::Failed;
                    Err(failure)
                } else {
                    let step = self.launch_after(id);
                    Ok(step)
                }
            },
        }
    }

    fn drain_next_running(&mut self) -> (step: StopStep)
        ensures
            final(self)@ == old(self)@.drain_next(),
            final(self).config() == old(self).config(),
            final(self).carrier() == old(self).carrier(),
            step == final(self)@.drain_request(),
    {
        let api = self.registry.state_of(SubserviceId::Api);
        let messaging = self.registry.state_of(SubserviceId::Messaging);
        let database = self.registry.state_of(SubserviceId::Database);
        let next = if matches!(api, LifecycleState::Running) {
            Some(SubserviceId::Api)
        } else if matches!(messaging, LifecycleState::Running) {
            Some(SubserviceId::Messaging)
        } else if matches!(database, LifecycleState::Running) {
            Some(SubserviceId::Database)
        } else {
            None
        };
        match (next, self.deadline) {
            (Some(id), Some(deadline)) => {
                let marked = self.registry.mark_stopping(id);
                assert(marked.is_ok());
                self.draining = Some(id);
                self.phase = SupervisorPhase::Stopping;
                StopStep::Drain { id, deadline }
            },
            _ => {
                self.draining = None;
                self.phase = SupervisorPhase::Stopped;
                StopStep::Done
            },
        }
    }

    /// Begins a graceful shutdown, in which each subservice may drain for at
    /// most `deadline`. Subservices are drained one after the other, those
    /// started last first; each report on a drain is answered with the next.
    ///
    /// Where a shutdown is already under way or over, or the startup failed,
    /// nothing changes and the answer is `Done`. A start that is still
    /// pending is given up: its report will be refused.
    pub fn stop_graceful(&mut self, deadline: Duration) -> (step: StopStep)
        ensures
            old(self)@.wf() ==> final(self)@.wf(),
            final(self)@ == old(self)@.begin_stop(deadline),
            final(self).config() == old(self).config(),
            final(self).carrier() == old(self).carrier(),
            step == old(self)@.stop_answer(deadline),
    {
        match self.phase {
            SupervisorPhase::Stopping | SupervisorPhase::Stopped | SupervisorPhase::Failed => {
                StopStep::Done
            },
            _ => {
                self.pending = None;
                self.deadline = Some(deadline);
                self.drain_next_running()
            },
        }
    }

    /// Takes the report on the drain of `id` and answers with the next step.
    ///
    /// A report that is not expected is refused with `InvalidTransition`.
    /// A subservice that ran out of time has its task aborted; the timeout is
    /// noted and the shutdown goes on with the next subservice.
    pub fn report_stop(&mut self, id: SubserviceId, report: StopReport) -> (r: Result<
        StopStep,
        SupervisorError,
    >)
        ensures
            old(self)@.wf() ==> final(self)@.wf(),
            final(self)@ == old(self)@.after_stop(id, report),
            final(self).config() == old(self).config(),
            final(self).carrier() == old(self).carrier(),
            !old(self)@.awaits_stop(id) ==> r == Err::<StopStep, SupervisorError>(
                SupervisorError::InvalidTransition,
            ),
            old(self)@.awaits_stop(id) ==> r == Ok::<StopStep, SupervisorError>(
                final(self)@.drain_request(),
            ),
    {
        if !self.awaits_stop_of(id) {
            return Err(SupervisorError::InvalidTransition);
        }
        match report {
            StopReport::Drained => {
                self.registry.mark_stopped(id);
            },
            StopReport::TimedOut => {
                self.registry.abort(id);
                self.failures.push(SupervisorError::StopTimedOut);
            },
        }
        self.stop_order.push(id);
        self.draining = None;
        let step = self.drain_next_running();
        Ok(step)
    }

    /// Forces everything down at once: gives the cancellation signal and
    /// aborts every task, without waiting for any of them. Where a shutdown
    /// is already under way or over, or the startup failed, nothing changes.
    /// The result tells whether this call did the work.
    pub fn stop_force(&mut self) -> (forced: bool)
        ensures
            old(self)@.wf() ==> final(self)@.wf(),
            final(self)@ == old(self)@.force(),
            final(self).config() == old(self).config(),
            final(self).carrier() == old(self).carrier(),
            forced == !old(self)@.shutdown_settled(),
    {
        match self.phase {
            SupervisorPhase::Stopping | SupervisorPhase::Stopped | SupervisorPhase::Failed => false,
            _ => {
                self.signal.signal();
                self.registry.abort_all();
                self.pending = None;
                self.phase = SupervisorPhase::Stopped;
                true
            },
        }
    }
}

} // verus!
