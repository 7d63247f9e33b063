//! What holds of the supervisor in every state it can reach, and of every
//! complete startup and shutdown.

use vstd::prelude::*;
use std::time::Duration;
use crate::error::SupervisorError;
use crate::lifecycle::{LifecycleState, SubserviceId};
use crate::registry::{same_or_later, RegistryView};
use crate::supervisor::{
    all_started_after, reverse_start_order, StartStep, StopReport, StopStep, SupervisorPhase,
    SupervisorView,
};

verus! {

/// One call made on the supervisor.
pub ghost enum Event {
    /// A start was requested.
    Start,
    /// The start of `id` was reported; `ok` tells whether it runs.
    StartReported { id: SubserviceId, ok: bool },
    /// A graceful shutdown was requested.
    Stop { deadline: Duration },
    /// The drain of `id` was reported.
    StopReported { id: SubserviceId, report: StopReport },
    /// A forced shutdown was requested.
    Force,
}

/// The state after one call.
pub open spec fn apply(s: SupervisorView, e: Event) -> SupervisorView {
    match e {
        Event::Start => s.begin_start(),
        Event::StartReported { id, ok } => s.after_start(id, ok),
        Event::Stop { deadline } => s.begin_stop(deadline),
        Event::StopReported { id, report } => s.after_stop(id, report),
        Event::Force => s.force(),
    }
}

/// The state after a sequence of calls, made in any order and with any
/// arguments.
pub open spec fn run(s: SupervisorView, events: Seq<Event>) -> SupervisorView
    decreases events.len(),
{
    if events.len() == 0 {
        s
    } else {
        apply(run(s, events.drop_last()), events.last())
    }
}

/// Every call keeps the invariant.
pub proof fn lemma_apply_keeps_invariant(s: SupervisorView, e: Event)
    requires
        s.wf(),
    ensures
        apply(s, e).wf(),
{
    match e {
        Event::Start => {},
        Event::StartReported { id, ok } => {},
        Event::Stop { deadline } => {},
        Event::StopReported { id, report } => {
            if s.awaits_stop(id) {
                let order = s.stop_order.push(id);
                assert(reverse_start_order(order));
                let next = apply(s, e);
                if next.draining is Some {
                    assert(all_started_after(order, next.draining->0));
                }
            }
        },
        Event::Force => {},
    }
}

/// The invariant holds in every state that calls can lead to.
pub proof fn lemma_reachable_states_keep_invariant(events: Seq<Event>)
    ensures
        run(SupervisorView::created(), events).wf(),
    decreases events.len(),
{
    if events.len() > 0 {
        lemma_reachable_states_keep_invariant(events.drop_last());
        lemma_apply_keeps_invariant(
            run(SupervisorView::created(), events.drop_last()),
            events.last(),
        );
    }
}

/// Whatever calls were made: while the start of the messaging or of the api
/// subservice is awaited, the database runs; an api subservice that runs was
/// started after the database; and where the database failed to start, the
/// api subservice was never started.
pub proof fn lemma_database_before_api(events: Seq<Event>)
    ensures
        ({
            let s = run(SupervisorView::created(), events);
            &&& s.pending == Some(SubserviceId::Api) ==> s.registry.state(SubserviceId::Database)
                is Running
            &&& s.pending == Some(SubserviceId::Messaging) ==> s.registry.state(
                SubserviceId::Database,
            ) is Running
            &&& s.registry.state(SubserviceId::Api) is Running ==> !(s.registry.state(
                SubserviceId::Database,
            ) is NotStarted)
            &&& s.registry.state(SubserviceId::Database) is Failed ==> s.registry.state(
                SubserviceId::Api,
            ) is NotStarted
        }),
    decreases events.len(),
{
    lemma_reachable_states_keep_invariant(events);
    if events.len() > 0 {
        lemma_database_before_api(events.drop_last());
        lemma_reachable_states_keep_invariant(events.drop_last());
    }
}

/// The api subservice is asked to start only while the database runs, and
/// before anything else was done to the api subservice.
pub proof fn lemma_api_launch_finds_database_running(s: SupervisorView, id: SubserviceId, ok: bool)
    requires
        s.wf(),
        s.start_answer(id, ok) == Ok::<StartStep, SupervisorError>(
            StartStep::Launch(SubserviceId::Api),
        ),
    ensures
        s.after_start(id, ok).registry.state(SubserviceId::Database) is Running,
        s.after_start(id, ok).registry.state(SubserviceId::Api) is NotStarted,
        s.after_start(id, ok).awaits_start(SubserviceId::Api),
{
}

/// One step of a startup in which `ok` tells of each subservice whether its
/// start succeeds: the pending start, if there is one, is reported.
pub open spec fn settle_start(s: SupervisorView, ok: spec_fn(SubserviceId) -> bool)
    -> SupervisorView {
    match s.pending {
        Some(id) => s.after_start(id, ok(id)),
        None => s,
    }
}

/// A whole startup: the request, then up to three reports.
pub open spec fn after_start_all(s: SupervisorView, ok: spec_fn(SubserviceId) -> bool)
    -> SupervisorView {
    settle_start(settle_start(settle_start(s.begin_start(), ok), ok), ok)
}

/// The state in which a started subservice is found, by whether its start
/// succeeded.
pub open spec fn started_state(ok: bool) -> LifecycleState {
    if ok {
        LifecycleState::Running
    } else {
        LifecycleState::Failed
    }
}

/// The failures that a startup adds, in which the database started.
pub open spec fn start_failures(ok: spec_fn(SubserviceId) -> bool) -> Seq<SupervisorError> {
    let messaging = if ok(SubserviceId::Messaging) {
        Seq::<SupervisorError>::empty()
    } else {
        seq![SupervisorError::StartFailed { subservice: SubserviceId::Messaging }]
    };
    let api = if ok(SubserviceId::Api) {
        Seq::<SupervisorError>::empty()
    } else {
        seq![SupervisorError::StartFailed { subservice: SubserviceId::Api }]
    };
    messaging + api
}

/// A startup in which the database starts ends with the supervisor running,
/// whatever becomes of the other two: each of them runs or is marked failed,
/// and each failure is noted.
pub proof fn lemma_start_all_with_database(s: SupervisorView, ok: spec_fn(SubserviceId) -> bool)
    requires
        s.wf(),
        s.phase is Created,
        ok(SubserviceId::Database),
    ensures
        after_start_all(s, ok).wf(),
        after_start_all(s, ok).phase is Running,
        after_start_all(s, ok).registry.state(SubserviceId::Database) is Running,
        after_start_all(s, ok).registry.state(SubserviceId::Messaging) == started_state(
            ok(SubserviceId::Messaging),
        ),
        after_start_all(s, ok).registry.state(SubserviceId::Api) == started_state(
            ok(SubserviceId::Api),
        ),
        after_start_all(s, ok).failures == s.failures + start_failures(ok),
        after_start_all(s, ok).signalled == s.signalled,
{
    let s1 = s.begin_start();
    let s2 = settle_start(s1, ok);
    let s3 = settle_start(s2, ok);
    let s4 = settle_start(s3, ok);
    assert(s1.wf());
    assert(s2.wf());
    assert(s3.wf());
    assert(s4.wf());
    assert(s4.failures =~= s.failures + start_failures(ok));
}

/// A startup in which the database fails ends at once: the supervisor has
/// failed, the failure is noted, the signal is given, nothing else was
/// started and nothing runs.
pub proof fn lemma_start_all_without_database(s: SupervisorView, ok: spec_fn(SubserviceId) -> bool)
    requires
        s.wf(),
        s.phase is Created,
        !ok(SubserviceId::Database),
    ensures
        after_start_all(s, ok).wf(),
        after_start_all(s, ok).phase is Failed,
        after_start_all(s, ok).registry.state(SubserviceId::Database) is Failed,
        after_start_all(s, ok).registry.state(SubserviceId::Messaging) is NotStarted,
        after_start_all(s, ok).registry.state(SubserviceId::Api) is NotStarted,
        after_start_all(s, ok).registry.quiet(),
        after_start_all(s, ok).signalled,
        after_start_all(s, ok).failures == s.failures.push(
            SupervisorError::StartFailed { subservice: SubserviceId::Database },
        ),
        s.begin_start().start_answer(SubserviceId::Database, false) == Err::<
            StartStep,
            SupervisorError,
        >(SupervisorError::StartFailed { subservice: SubserviceId::Database }),
{
}

/// One step of a graceful shutdown in which `reports` tells of each
/// subservice how its drain ends: the pending drain, if there is one, is
/// reported.
pub open spec fn settle_stop(s: SupervisorView, reports: spec_fn(SubserviceId) -> StopReport)
    -> SupervisorView {
    match s.draining {
        Some(id) => s.after_stop(id, reports(id)),
        None => s,
    }
}

/// A whole graceful shutdown: the request, then up to three reports.
pub open spec fn after_stop_graceful(
    s: SupervisorView,
    deadline: Duration,
    reports: spec_fn(SubserviceId) -> StopReport,
) -> SupervisorView {
    settle_stop(settle_stop(settle_stop(s.begin_stop(deadline), reports), reports), reports)
}

/// The subservices that run, those started last first.
pub open spec fn running_last_first(r: RegistryView) -> Seq<SubserviceId> {
    let api = if r.api.state is Running {
        seq![SubserviceId::Api]
    } else {
        Seq::<SubserviceId>::empty()
    };
    let messaging = if r.messaging.state is Running {
        seq![SubserviceId::Messaging]
    } else {
        Seq::<SubserviceId>::empty()
    };
    let database = if r.database.state is Running {
        seq![SubserviceId::Database]
    } else {
        Seq::<SubserviceId>::empty()
    };
    api + messaging + database
}

/// The timeouts that a graceful shutdown notes, one for each running
/// subservice whose drain runs out of time, in the order of the drains.
pub open spec fn drain_timeouts(r: RegistryView, reports: spec_fn(SubserviceId) -> StopReport)
    -> Seq<SupervisorError> {
    let none = Seq::<SupervisorError>::empty();
    let one = seq![SupervisorError::StopTimedOut];
    let api = if r.api.state is Running && reports(SubserviceId::Api) is TimedOut {
        one
    } else {
        none
    };
    let messaging = if r.messaging.state is Running && reports(SubserviceId::Messaging)
        is TimedOut {
        one
    } else {
        none
    };
    let database = if r.database.state is Running && reports(SubserviceId::Database)
        is TimedOut {
        one
    } else {
        none
    };
    api + messaging + database
}

/// The state in which a graceful shutdown leaves a subservice: what ran is
/// stopped, anything else stays as it was.
pub open spec fn drained_state(before: LifecycleState) -> LifecycleState {
    if before is Running {
        LifecycleState::Stopped
    } else {
        before
    }
}

/// One reported drain keeps the invariant and brings the shutdown nearer its
/// end: either it is over, or a subservice that was started earlier is
/// drained next.
pub proof fn lemma_settle_stop_moves_on(
    s: SupervisorView,
    reports: spec_fn(SubserviceId) -> StopReport,
)
    requires
        s.wf(),
        s.phase is Stopping,
    ensures
        settle_stop(s, reports).wf(),
        settle_stop(s, reports).signalled == s.signalled,
        settle_stop(s, reports).phase is Stopped || (settle_stop(s, reports).phase is Stopping
            && settle_stop(s, reports).draining->0.start_rank() < s.draining->0.start_rank()),
{
    let id = s.draining->0;
    lemma_apply_keeps_invariant(s, Event::StopReported { id, report: reports(id) });
}

/// A graceful shutdown always comes to an end, however the drains go: after
/// the request and three reports the supervisor is stopped and no subservice
/// is under way. A drain that runs out of time holds nothing up.
pub proof fn lemma_stop_graceful_ends_stopped(
    s: SupervisorView,
    deadline: Duration,
    reports: spec_fn(SubserviceId) -> StopReport,
)
    requires
        s.wf(),
        !(s.phase is Failed),
    ensures
        after_stop_graceful(s, deadline, reports).wf(),
        after_stop_graceful(s, deadline, reports).phase is Stopped,
        after_stop_graceful(s, deadline, reports).registry.quiet(),
        after_stop_graceful(s, deadline, reports).draining is None,
        after_stop_graceful(s, deadline, reports).signalled == s.signalled,
{
    let s1 = s.begin_stop(deadline);
    lemma_apply_keeps_invariant(s, Event::Stop { deadline });
    assert(s1.signalled == s.signalled);
    assert(s1.phase is Stopped || s1.phase is Stopping);
    let s2 = settle_stop(s1, reports);
    if s1.phase is Stopping {
        lemma_settle_stop_moves_on(s1, reports);
    }
    let s3 = settle_stop(s2, reports);
    if s2.phase is Stopping {
        lemma_settle_stop_moves_on(s2, reports);
    }
    let s4 = settle_stop(s3, reports);
    if s3.phase is Stopping {
        lemma_settle_stop_moves_on(s3, reports);
    }
}

/// A second graceful shutdown changes nothing and asks for nothing: it is
/// answered with `Done`, and no drain is requested again.
pub proof fn lemma_stop_graceful_idempotent(
    s: SupervisorView,
    deadline: Duration,
    reports: spec_fn(SubserviceId) -> StopReport,
    again: Duration,
    other_reports: spec_fn(SubserviceId) -> StopReport,
)
    requires
        s.wf(),
    ensures
        ({
            let once = after_stop_graceful(s, deadline, reports);
            &&& once.begin_stop(again) == once
            &&& once.stop_answer(again) == StopStep::Done
            &&& after_stop_graceful(once, again, other_reports) == once
            &&& once.force() == once
        }),
{
    if s.phase is Failed {
        assert(after_stop_graceful(s, deadline, reports) == s);
    } else {
        lemma_stop_graceful_ends_stopped(s, deadline, reports);
    }
}

/// A shutdown request that finds a shutdown under way or over changes
/// nothing and is answered at once, without any teardown.
pub proof fn lemma_settled_shutdown_is_left_alone(s: SupervisorView, deadline: Duration)
    requires
        s.phase is Stopping || s.phase is Stopped,
    ensures
        s.begin_stop(deadline) == s,
        s.stop_answer(deadline) == StopStep::Done,
        s.force() == s,
{
}

/// A graceful shutdown that no other shutdown came before drains the
/// running subservices in the reverse of the start order: api, then
/// messaging, then database. Each of them ends stopped, whether it drained or
/// ran out of time, and each timeout is noted in that order.
pub proof fn lemma_stop_graceful_order(
    s: SupervisorView,
    deadline: Duration,
    reports: spec_fn(SubserviceId) -> StopReport,
)
    requires
        s.wf(),
        !s.shutdown_settled(),
    ensures
        after_stop_graceful(s, deadline, reports).stop_order == running_last_first(s.registry),
        reverse_start_order(after_stop_graceful(s, deadline, reports).stop_order),
        after_stop_graceful(s, deadline, reports).failures == s.failures + drain_timeouts(
            s.registry,
            reports,
        ),
        forall|id: SubserviceId|
            #[trigger] after_stop_graceful(s, deadline, reports).registry.state(id)
                == drained_state(s.registry.state(id)),
{
    let s1 = s.begin_stop(deadline);
    let s2 = settle_stop(s1, reports);
    let s3 = settle_stop(s2, reports);
    let s4 = settle_stop(s3, reports);
    lemma_stop_graceful_ends_stopped(s, deadline, reports);
    assert(s.stop_order =~= Seq::<SubserviceId>::empty());
    assert(s4.stop_order =~= running_last_first(s.registry));
    assert(s4.failures =~= s.failures + drain_timeouts(s.registry, reports));
    assert forall|id: SubserviceId|
        #[trigger] s4.registry.state(id) == drained_state(s.registry.state(id)) by {
        match id {
            SubserviceId::Database => {},
            SubserviceId::Messaging => {},
            SubserviceId::Api => {},
        }
    }
}

/// With all three subservices running, a graceful shutdown finishes with
/// them in the order api, messaging, database.
pub proof fn lemma_stop_graceful_order_of_all(
    s: SupervisorView,
    deadline: Duration,
    reports: spec_fn(SubserviceId) -> StopReport,
)
    requires
        s.wf(),
        s.phase is Running,
        s.registry.state(SubserviceId::Messaging) is Running,
        s.registry.state(SubserviceId::Api) is Running,
    ensures
        after_stop_graceful(s, deadline, reports).stop_order == seq![
            SubserviceId::Api,
            SubserviceId::Messaging,
            SubserviceId::Database,
        ],
        s.stop_answer(deadline) == (StopStep::Drain { id: SubserviceId::Api, deadline }),
{
    lemma_stop_graceful_order(s, deadline, reports);
    assert(running_last_first(s.registry) =~= seq![
        SubserviceId::Api,
        SubserviceId::Messaging,
        SubserviceId::Database,
    ]);
}

/// A drain that runs out of time leaves its subservice stopped with its task
/// aborted, notes the timeout, and lets the shutdown move on: either it is
/// over, or a subservice that was started earlier is drained next.
pub proof fn lemma_timeout_forces_stop(s: SupervisorView, id: SubserviceId)
    requires
        s.wf(),
        s.awaits_stop(id),
    ensures
        ({
            let after = s.after_stop(id, StopReport::TimedOut);
            &&& after.registry.state(id) is Stopped
            &&& !after.registry.get(id).held
            &&& after.failures == s.failures.push(SupervisorError::StopTimedOut)
            &&& after.stop_order == s.stop_order.push(id)
            &&& after.phase is Stopped || (after.phase is Stopping && after.draining is Some
                && after.draining->0.start_rank() < id.start_rank())
        }),
{
}

/// A forced shutdown that finds no shutdown under way or over stops the
/// supervisor at once: the signal is given and no subservice is left under
/// way. What never started, or failed, stays as it was.
pub proof fn lemma_force_stops_everything(s: SupervisorView)
    requires
        s.wf(),
        !s.shutdown_settled(),
    ensures
        s.force().wf(),
        s.force().phase is Stopped,
        s.force().signalled,
        s.force().registry.quiet(),
        forall|id: SubserviceId|
            !(#[trigger] s.force().registry.get(id).held) && s.force().registry.state(id) == (
            if s.registry.state(id) is Running {
                LifecycleState::Stopped
            } else {
                s.registry.state(id)
            }),
{
    assert forall|id: SubserviceId|
        !(#[trigger] s.force().registry.get(id).held) && s.force().registry.state(id) == (
        if s.registry.state(id) is Running {
            LifecycleState::Stopped
        } else {
            s.registry.state(id)
        }) by {
        match id {
            SubserviceId::Database => {},
            SubserviceId::Messaging => {},
            SubserviceId::Api => {},
        }
    }
}

/// How far along the supervisor is; `Failed` lies at the end, beside `Stopped`.
pub open spec fn phase_progress(p: SupervisorPhase) -> nat {
    match p {
        SupervisorPhase::Created => 0,
        SupervisorPhase::Starting => 1,
        SupervisorPhase::Running => 2,
        SupervisorPhase::Stopping => 3,
        SupervisorPhase::Stopped => 4,
        SupervisorPhase::Failed => 4,
    }
}

/// No call takes the supervisor or any subservice backwards: the phase stays
/// or moves on, `Stopped` and `Failed` are never left, and the state of each
/// subservice stays or moves on along the transition relation.
pub proof fn lemma_every_call_moves_forward(s: SupervisorView, e: Event, id: SubserviceId)
    requires
        s.wf(),
    ensures
        phase_progress(s.phase) <= phase_progress(apply(s, e).phase),
        s.phase is Stopped || s.phase is Failed ==> apply(s, e) == s,
        same_or_later(s.registry.state(id), apply(s, e).registry.state(id)),
        s.signalled ==> apply(s, e).signalled,
{
}

/// Whatever calls follow: a subservice that is draining, stopped or failed
/// never runs again.
pub proof fn lemma_never_runs_again(s: SupervisorView, events: Seq<Event>, id: SubserviceId)
    requires
        s.wf(),
        s.registry.state(id) is Stopping || s.registry.state(id).terminal(),
    ensures
        run(s, events).wf(),
        !(run(s, events).registry.state(id) is Running),
        !(run(s, events).registry.state(id) is NotStarted),
        run(s, events).registry.state(id) is Stopping || run(s, events).registry.state(
            id,
        ).terminal(),
    decreases events.len(),
{
    if events.len() > 0 {
        lemma_never_runs_again(s, events.drop_last(), id);
        let before = run(s, events.drop_last());
        lemma_apply_keeps_invariant(before, events.last());
        lemma_every_call_moves_forward(before, events.last(), id);
    }
}

/// Whatever calls follow a shutdown that is over, or a startup that failed:
/// nothing changes any more, so nothing is torn down twice.
pub proof fn lemma_stopped_is_final(s: SupervisorView, events: Seq<Event>)
    requires
        s.phase is Stopped || s.phase is Failed,
    ensures
        run(s, events) == s,
    decreases events.len(),
{
    if events.len() > 0 {
        lemma_stopped_is_final(s, events.drop_last());
    }
}

} // verus!
