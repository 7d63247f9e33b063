//! The lifecycle handle registry: for each subservice its state and, while it
//! runs, the handle by which its task can be aborted.

use vstd::prelude::*;
use tokio::task::AbortHandle;
use crate::error::SupervisorError;
use crate::lifecycle::{LifecycleState, SubserviceId};

verus! {

/// `tokio::task::AbortHandle`, carried as an opaque value.
#[verifier::external_type_specification]
#[verifier::external_body]
pub struct ExAbortHandle(tokio::task::AbortHandle);

/// Calls `AbortHandle::abort`, which asks the runtime to cancel the task and
/// returns at once. Nothing is claimed of the task afterwards.
#[verifier::external_body]
pub(crate) fn abort_task(handle: &AbortHandle) {
    handle.abort()
}

/// What the registry knows of one subservice.
pub ghost struct EntryView {
    pub state: LifecycleState,
    /// Whether a task handle is stored.
    pub held: bool,
}

impl EntryView {
    /// A handle is stored exactly while the subservice may still have a task:
    /// always while it runs, possibly while it stops, never otherwise.
    pub open spec fn wf(self) -> bool {
        &&& self.held ==> (self.state is Running || self.state is Stopping)
        &&& self.state is Running ==> self.held
    }

    pub open spec fn fresh() -> EntryView {
        EntryView { state: LifecycleState::NotStarted, held: false }
    }

    /// After a start was recorded.
    pub open spec fn started(self) -> EntryView {
        if self.state is NotStarted {
            EntryView { state: LifecycleState::Running, held: true }
        } else {
            self
        }
    }

    /// After the subservice was told to drain.
    pub open spec fn stopping(self) -> EntryView {
        if self.state.can_become(LifecycleState::Stopping) {
            EntryView { state: LifecycleState::Stopping, held: self.held }
        } else {
            self
        }
    }

    /// After the subservice reported that it has stopped.
    pub open spec fn stopped(self) -> EntryView {
        if self.state.terminal() {
            self
        } else {
            EntryView { state: LifecycleState::Stopped, held: false }
        }
    }

    /// After the subservice failed.
    pub open spec fn failed(self) -> EntryView {
        if self.state.terminal() {
            self
        } else {
            EntryView { state: LifecycleState::Failed, held: false }
        }
    }

    /// After its task was aborted: no handle is left; a subservice that was
    /// under way is stopped, any other keeps its state.
    pub open spec fn aborted(self) -> EntryView {
        EntryView {
            state: if self.state.live() {
                LifecycleState::Stopped
            } else {
                self.state
            },
            held: false,
        }
    }
}

/// Whether `after` is `before` or a state that may follow it.
pub open spec fn same_or_later(before: LifecycleState, after: LifecycleState) -> bool {
    after == before || before.can_become(after)
}

/// Whatever is done to an entry, its state stays or moves on along the
/// transition relation, and a well-formed entry stays well-formed.
pub proof fn lemma_entry_steps_follow_the_relation(e: EntryView)
    ensures
        same_or_later(e.state, e.started().state),
        same_or_later(e.state, e.stopping().state),
        same_or_later(e.state, e.stopped().state),
        same_or_later(e.state, e.failed().state),
        same_or_later(e.state, e.aborted().state),
        e.wf() ==> e.started().wf() && e.stopping().wf() && e.stopped().wf() && e.failed().wf()
            && e.aborted().wf(),
{
}

/// Marking an entry stopped twice is the same as marking it once, and so is
/// marking it failed or aborting its task.
pub proof fn lemma_terminal_steps_are_idempotent(e: EntryView)
    ensures
        e.stopped().stopped() == e.stopped(),
        e.failed().failed() == e.failed(),
        e.aborted().aborted() == e.aborted(),
        e.stopped().failed() == e.stopped(),
        e.failed().stopped() == e.failed(),
{
}

/// What the registry knows of all three subservices.
pub ghost struct RegistryView {
    pub database: EntryView,
    pub messaging: EntryView,
    pub api: EntryView,
}

impl RegistryView {
    pub open spec fn wf(self) -> bool {
        self.database.wf() && self.messaging.wf() && self.api.wf()
    }

    pub open spec fn fresh() -> RegistryView {
        RegistryView {
            database: EntryView::fresh(),
            messaging: EntryView::fresh(),
            api: EntryView::fresh(),
        }
    }

    pub open spec fn get(self, id: SubserviceId) -> EntryView {
        match id {
            SubserviceId::Database => self.database,
            SubserviceId::Messaging => self.messaging,
            SubserviceId::Api => self.api,
        }
    }

    pub open spec fn set(self, id: SubserviceId, e: EntryView) -> RegistryView {
        match id {
            SubserviceId::Database => RegistryView { database: e, ..self },
            SubserviceId::Messaging => RegistryView { messaging: e, ..self },
            SubserviceId::Api => RegistryView { api: e, ..self },
        }
    }

    pub open spec fn state(self, id: SubserviceId) -> LifecycleState {
        self.get(id).state
    }

    /// After every entry's task was aborted.
    pub open spec fn all_aborted(self) -> RegistryView {
        RegistryView {
            database: self.database.aborted(),
            messaging: self.messaging.aborted(),
            api: self.api.aborted(),
        }
    }

    /// No subservice is under way.
    pub open spec fn quiet(self) -> bool {
        !self.database.state.live() && !self.messaging.state.live() && !self.api.state.live()
    }
}

struct Entry {
    state: LifecycleState,
    handle: Option<AbortHandle>,
}

impl Entry {
    spec fn view(&self) -> EntryView {
        EntryView { state: self.state, held: self.handle is Some }
    }

    fn new() -> (e: Entry)
        ensures
            e@ == EntryView::fresh(),
    {
        Entry { state: LifecycleState::NotStarted, handle: None }
    }

    fn record_started(&mut self, handle: AbortHandle) -> (r: Result<(), SupervisorError>)
        ensures
            final(self)@ == old(self)@.started(),
            r.is_ok() == (old(self)@.state is NotStarted),
            r.is_err() ==> r == Err::<(), SupervisorError>(SupervisorError::InvalidTransition),
    {
        match self.state {
            LifecycleState::NotStarted => {
                self.state = LifecycleState::Running;
                self.handle = Some(handle);
                Ok(())
            },
            _ => Err(SupervisorError::InvalidTransition),
        }
    }

    fn mark_stopping(&mut self) -> (r: Result<(), SupervisorError>)
        ensures
            final(self)@ == old(self)@.stopping(),
            r.is_ok() == old(self)@.state.can_become(LifecycleState::Stopping),
            r.is_err() ==> r == Err::<(), SupervisorError>(SupervisorError::InvalidTransition),
    {
        if self.state.allows(LifecycleState::Stopping) {
            self.state = LifecycleState::Stopping;
            Ok(())
        } else {
            Err(SupervisorError::InvalidTransition)
        }
    }

    fn mark_stopped(&mut self)
        ensures
            final(self)@ == old(self)@.stopped(),
    {
        if !self.state.is_terminal() {
            self.state = LifecycleState::Stopped;
            self.handle = None;
        }
    }

    fn mark_failed(&mut self)
        ensures
            final(self)@ == old(self)@.failed(),
    {
        if !self.state.is_terminal() {
            self.state = LifecycleState::Failed;
            self.handle = None;
        }
    }

    fn abort(&mut self) -> (had_task: bool)
        ensures
            final(self)@ == old(self)@.aborted(),
            had_task == old(self)@.held,
    {
        let taken = self.handle.take();
        let had_task = match taken {
            Some(handle) => {
                abort_task(&handle);
                true
            },
            None => false,
        };
        if self.state.is_live() {
            self.state = LifecycleState::Stopped;
        }
        had_task
    }
}

/// The registry of the three managed subservices.
pub struct Registry {
    database: Entry,
    messaging: Entry,
    api: Entry,
}

impl View for Registry {
    type V = RegistryView;

    closed spec fn view(&self) -> RegistryView {
        RegistryView { database: self.database@, messaging: self.messaging@, api: self.api@ }
    }
}

impl Registry {
    /// A registry in which nothing has been started.
    pub fn new() -> (r: Registry)
        ensures
            r@ == RegistryView::fresh(),
            r@.wf(),
    {
        Registry { database: Entry::new(), messaging: Entry::new(), api: Entry::new() }
    }

    /// The current state of a subservice.
    pub fn state_of(&self, id: SubserviceId) -> (s: LifecycleState)
        ensures
            s == self@.state(id),
    {
        match id {
            SubserviceId::Database => self.database.state,
            SubserviceId::Messaging => self.messaging.state,
            SubserviceId::Api => self.api.state,
        }
    }

    /// Whether a task handle is stored for a subservice.
    pub fn holds_task(&self, id: SubserviceId) -> (t: bool)
        ensures
            t == self@.get(id).held,
    {
        match id {
            SubserviceId::Database => self.database.handle.is_some(),
            SubserviceId::Messaging => self.messaging.handle.is_some(),
            SubserviceId::Api => self.api.handle.is_some(),
        }
    }

    /// Records that a subservice was started and keeps the handle of its
    /// task. Only a subservice that was never started can be recorded; for
    /// any other the registry stays as it is and the handle is given up.
    pub fn record_started(&mut self, id: SubserviceId, handle: AbortHandle) -> (r: Result<
        (),
        SupervisorError,
    >)
        ensures
            old(self)@.wf() ==> final(self)@.wf(),
            final(self)@ == old(self)@.set(id, old(self)@.get(id).started()),
            r.is_ok() == (old(self)@.state(id) is NotStarted),
            r.is_err() ==> r == Err::<(), SupervisorError>(SupervisorError::InvalidTransition),
    {
        match id {
            SubserviceId::Database => self.database.record_started(handle),
            SubserviceId::Messaging => self.messaging.record_started(handle),
            SubserviceId::Api => self.api.record_started(handle),
        }
    }

    /// Marks a subservice as draining. Fails where the subservice is already
    /// draining or has reached a terminal state.
    pub fn mark_stopping(&mut self, id: SubserviceId) -> (r: Result<(), SupervisorError>)
        ensures
            old(self)@.wf() ==> final(self)@.wf(),
            final(self)@ == old(self)@.set(id, old(self)@.get(id).stopping()),
            r.is_ok() == old(self)@.state(id).can_become(LifecycleState::Stopping),
            r.is_err() ==> r == Err::<(), SupervisorError>(SupervisorError::InvalidTransition),
    {
        match id {
            SubserviceId::Database => self.database.mark_stopping(),
            SubserviceId::Messaging => self.messaging.mark_stopping(),
            SubserviceId::Api => self.api.mark_stopping(),
        }
    }

    /// Marks a subservice as stopped and lets go of its handle. On an entry
    /// that is already terminal this changes nothing.
    pub fn mark_stopped(&mut self, id: SubserviceId)
        ensures
            old(self)@.wf() ==> final(self)@.wf(),
            final(self)@ == old(self)@.set(id, old(self)@.get(id).stopped()),
    {
        match id {
            SubserviceId::Database => self.database.mark_stopped(),
            SubserviceId::Messaging => self.messaging.mark_stopped(),
            SubserviceId::Api => self.api.mark_stopped(),
        }
    }

    /// Marks a subservice as failed and lets go of its handle. On an entry
    /// that is already terminal this changes nothing.
    pub fn mark_failed(&mut self, id: SubserviceId)
        ensures
            old(self)@.wf() ==> final(self)@.wf(),
            final(self)@ == old(self)@.set(id, old(self)@.get(id).failed()),
    {
        match id {
            SubserviceId::Database => self.database.mark_failed(),
            SubserviceId::Messaging => self.messaging.mark_failed(),
            SubserviceId::Api => self.api.mark_failed(),
        }
    }

    /// Aborts the task of a subservice, if one is stored, without waiting
    /// for it. The result tells whether there was a task to abort.
    pub fn abort(&mut self, id: SubserviceId) -> (had_task: bool)
        ensures
            old(self)@.wf() ==> final(self)@.wf(),
            final(self)@ == old(self)@.set(id, old(self)@.get(id).aborted()),
            had_task == old(self)@.get(id).held,
    {
        match id {
            SubserviceId::Database => self.database.abort(),
            SubserviceId::Messaging => self.messaging.abort(),
            SubserviceId::Api => self.api.abort(),
        }
    }

    /// Aborts every stored task. The result is the number of tasks aborted.
    pub fn abort_all(&mut self) -> (aborted: usize)
        ensures
            old(self)@.wf() ==> final(self)@.wf(),
            final(self)@ == old(self)@.all_aborted(),
            final(self)@.quiet(),
            aborted == held_count(old(self)@),
    {
        let mut aborted: usize = 0;
        if self.api.abort() {
            aborted = aborted + 1;
        }
        if self.messaging.abort() {
            aborted = aborted + 1;
        }
        if self.database.abort() {
            aborted = aborted + 1;
        }
        aborted
    }
}

/// How many subservices have a task handle stored.
pub open spec fn held_count(r: RegistryView) -> nat {
    let d: nat = if r.database.held { 1 } else { 0 };
    let m: nat = if r.messaging.held { 1 } else { 0 };
    let a: nat = if r.api.held { 1 } else { 0 };
    d + m + a
}

} // verus!
