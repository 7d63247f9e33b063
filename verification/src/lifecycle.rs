//! Identifiers of the managed subservices and the states each one moves through.

use vstd::prelude::*;
use crate::error::SupervisorError;

verus! {

/// The fixed set of subservices that the supervisor manages.
#[derive(Clone, Copy, Debug, PartialEq, Eq, Structural)]
pub enum SubserviceId {
    /// The database connection holder; everything else depends on it.
    Database,
    /// The messaging placeholder.
    Messaging,
    /// The HTTP endpoint server.
    Api,
}

impl SubserviceId {
    /// Position in the start order: database, then messaging, then api.
    pub open spec fn start_rank(self) -> nat {
        match self {
            SubserviceId::Database => 0,
            SubserviceId::Messaging => 1,
            SubserviceId::Api => 2,
        }
    }

    /// A required subservice is one whose failed start is fatal.
    pub open spec fn required(self) -> bool {
        self is Database
    }

    /// Position in the start order, as a machine integer.
    pub fn index(&self) -> (i: usize)
        ensures
            i == self.start_rank(),
            i < 3,
    {
        match self {
            SubserviceId::Database => 0,
            SubserviceId::Messaging => 1,
            SubserviceId::Api => 2,
        }
    }

    /// Tells whether a failed start of this subservice is fatal.
    pub fn is_required(&self) -> (r: bool)
        ensures
            r == self.required(),
    {
        match self {
            SubserviceId::Database => true,
            _ => false,
        }
    }

    /// The name under which the subservice is configured and reported.
    pub fn name(&self) -> (s: &'static str)
        ensures
            s@ == self.name_spec(),
    {
        match self {
            SubserviceId::Database => "database",
            SubserviceId::Messaging => "messaging",
            SubserviceId::Api => "api",
        }
    }

    pub open spec fn name_spec(self) -> Seq<char> {
        match self {
            SubserviceId::Database => "database"@,
            SubserviceId::Messaging => "messaging"@,
            SubserviceId::Api => "api"@,
        }
    }
}

/// The discrete status of one subservice.
#[derive(Clone, Copy, Debug, PartialEq, Eq, Structural)]
pub enum LifecycleState {
    NotStarted,
    Starting,
    Running,
    Stopping,
    Stopped,
    Failed,
}

impl LifecycleState {
    /// A terminal state is never left.
    pub open spec fn terminal(self) -> bool {
        self is Stopped || self is Failed
    }

    /// How far along its life a subservice is; `Failed` lies beside the order.
    pub open spec fn progress(self) -> nat {
        match self {
            LifecycleState::NotStarted => 0,
            LifecycleState::Starting => 1,
            LifecycleState::Running => 2,
            LifecycleState::Stopping => 3,
            LifecycleState::Stopped => 4,
            LifecycleState::Failed => 4,
        }
    }

    /// The transition relation: a state that is not terminal may fail, or
    /// move strictly forward.
    pub open spec fn can_become(self, next: LifecycleState) -> bool {
        !self.terminal() && (next is Failed || self.progress() < next.progress())
    }

    /// Whether the subservice holds resources that a shutdown must release.
    pub open spec fn live(self) -> bool {
        self is Starting || self is Running || self is Stopping
    }

    /// Tells whether the state is terminal.
    pub fn is_terminal(&self) -> (t: bool)
        ensures
            t == self.terminal(),
    {
        match self {
            LifecycleState::Stopped | LifecycleState::Failed => true,
            _ => false,
        }
    }

    /// Tells whether the subservice has been started and not yet reached a
    /// terminal state.
    pub fn is_live(&self) -> (l: bool)
        ensures
            l == self.live(),
    {
        match self {
            LifecycleState::Starting | LifecycleState::Running | LifecycleState::Stopping => true,
            _ => false,
        }
    }

    /// Tells whether `next` may follow this state.
    pub fn allows(&self, next: LifecycleState) -> (ok: bool)
        ensures
            ok == self.can_become(next),
    {
        if self.is_terminal() {
            return false;
        }
        match next {
            LifecycleState::Failed => true,
            LifecycleState::NotStarted => false,
            LifecycleState::Starting => matches!(self, LifecycleState::NotStarted),
            LifecycleState::Running => matches!(
                self,
                LifecycleState::NotStarted | LifecycleState::Starting
            ),
            LifecycleState::Stopping => !matches!(self, LifecycleState::Stopping),
            LifecycleState::Stopped => true,
        }
    }

    /// Moves to `next` where the transition relation allows it.
    pub fn advance(self, next: LifecycleState) -> (r: Result<LifecycleState, SupervisorError>)
        ensures
            self.can_become(next) ==> r == Ok::<LifecycleState, SupervisorError>(next),
            !self.can_become(next) ==> r == Err::<LifecycleState, SupervisorError>(
                SupervisorError::InvalidTransition,
            ),
    {
        if self.allows(next) {
            Ok(next)
        } else {
            Err(SupervisorError::InvalidTransition)
        }
    }
}

/// No state follows itself, and no two states follow each other.
pub proof fn lemma_transitions_irreflexive(a: LifecycleState, b: LifecycleState)
    ensures
        !a.can_become(a),
        a.can_become(b) && b.can_become(a) ==> false,
{
}

/// What can be reached in two steps can be reached in one.
pub proof fn lemma_transitions_transitive(a: LifecycleState, b: LifecycleState, c: LifecycleState)
    requires
        a.can_become(b),
        b.can_become(c),
    ensures
        a.can_become(c),
{
}

/// Once a subservice is stopping, stopped or failed it never runs again.
pub proof fn lemma_no_return_to_running(a: LifecycleState)
    requires
        a is Stopping || a.terminal(),
    ensures
        !a.can_become(LifecycleState::Running),
        !a.can_become(LifecycleState::Starting),
        !a.can_become(LifecycleState::NotStarted),
{
}

/// The lifecycle of one subservice instance, as the subservice itself keeps
/// it: it can be started once, and every step moves forward.
pub struct Lifecycle {
    state: LifecycleState,
}

impl Lifecycle {
    /// The current state.
    pub closed spec fn current(&self) -> LifecycleState {
        self.state
    }

    /// The lifecycle of a subservice that was never started.
    pub fn new() -> (l: Lifecycle)
        ensures
            l.current() is NotStarted,
    {
        Lifecycle { state: LifecycleState::NotStarted }
    }

    /// The current state.
    pub fn state(&self) -> (s: LifecycleState)
        ensures
            s == self.current(),
    {
        self.state
    }

    /// Claims the one start of this instance. Whoever finds the instance
    /// started before is refused, and the state stays as it is.
    pub fn begin_start(&mut self) -> (r: Result<(), SupervisorError>)
        ensures
            old(self).current() is NotStarted ==> r.is_ok() && final(self).current() is Starting,
            !(old(self).current() is NotStarted) ==> r == Err::<(), SupervisorError>(
                SupervisorError::AlreadyStarted,
            ) && final(self).current() == old(self).current(),
    {
        match self.state {
            LifecycleState::NotStarted => {
                self.state = LifecycleState::Starting;
                Ok(())
            },
            _ => Err(SupervisorError::AlreadyStarted),
        }
    }

    /// Ends the start that was begun: the subservice runs, or it has failed.
    /// Where no start is under way the call is refused.
    pub fn finish_start(&mut self, ok: bool) -> (r: Result<(), SupervisorError>)
        ensures
            old(self).current() is Starting ==> r.is_ok() && final(self).current() == (if ok {
                LifecycleState::Running
            } else {
                LifecycleState::Failed
            }),
            !(old(self).current() is Starting) ==> r == Err::<(), SupervisorError>(
                SupervisorError::InvalidTransition,
            ) && final(self).current() == old(self).current(),
    {
        match self.state {
            LifecycleState::Starting => {
                self.state = if ok {
                    LifecycleState::Running
                } else {
                    LifecycleState::Failed
                };
                Ok(())
            },
            _ => Err(SupervisorError::InvalidTransition),
        }
    }

    /// Begins a graceful stop. The result tells whether there is anything to
    /// drain: only a running subservice begins to stop; any other stays as
    /// it is.
    pub fn begin_stop(&mut self) -> (drain: bool)
        ensures
            drain == (old(self).current() is Running),
            drain ==> final(self).current() is Stopping,
            !drain ==> final(self).current() == old(self).current(),
    {
        match self.state {
            LifecycleState::Running => {
                self.state = LifecycleState::Stopping;
                true
            },
            _ => false,
        }
    }

    /// Ends a stop, graceful or forced: whatever was under way is stopped.
    /// The result tells whether this call stopped it; a subservice that never
    /// started, or has reached a terminal state, stays as it is.
    pub fn finish_stop(&mut self) -> (stopped: bool)
        ensures
            stopped == old(self).current().live(),
            stopped ==> final(self).current() is Stopped,
            !stopped ==> final(self).current() == old(self).current(),
    {
        if self.state.is_live() {
            self.state = LifecycleState::Stopped;
            true
        } else {
            false
        }
    }

    /// Notes a failure. A terminal state is kept.
    pub fn fail(&mut self)
        ensures
            old(self).current().terminal() ==> final(self).current() == old(self).current(),
            !old(self).current().terminal() ==> final(self).current() is Failed,
    {
        if !self.state.is_terminal() {
            self.state = LifecycleState::Failed;
        }
    }
}

} // verus!
