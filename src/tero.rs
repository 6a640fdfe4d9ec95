//! The server supervisor: it owns the store and the broadcast bus, and keeps
//! the lifecycle of the listener and of the session tasks, which the
//! embedding code runs and names by task ids.
use vstd::prelude::*;

use crate::bus::{is_power_of_two, Publisher, Subscription};
use crate::handle::{DataHandle, SetReport};
use crate::store::{Message, Store, SyncError};
use crate::value::Value;

verus! {

/// Slots of the broadcast bus.
pub const CHANNEL_SIZE: usize = 32;

/// Whether the server is serving.
#[derive(Clone, Copy, Debug, PartialEq, Eq, Structural)]
pub enum ServerState {
    Up,
    Down,
}

/// The supervisor.
pub struct Tero {
    pub state: ServerState,
    pub accept_task: Option<u64>,
    pub sessions: Vec<u64>,
    pub store: Store,
    pub publisher: Publisher,
    /// The bus's first receiver, kept so that publishing never finds the bus
    /// without a subscriber.
    pub own_subscription: Subscription,
}

impl Tero {
    pub open spec fn state_spec(&self) -> ServerState {
        self.state
    }

    /// The tasks that a stop cancels: the sessions in the order they were
    /// accepted, then the accept loop.
    pub open spec fn live_tasks(&self) -> Seq<u64> {
        match self.accept_task {
            Some(t) => self.sessions@.push(t),
            None => self.sessions@,
        }
    }

    pub open spec fn lifecycle_wf(&self) -> bool {
        &&& self.state == ServerState::Down ==> self.accept_task is None && self.sessions@.len() == 0
        &&& self.state == ServerState::Up ==> self.accept_task is Some
    }

    pub open spec fn wf(&self) -> bool {
        &&& self.store.wf()
        &&& self.lifecycle_wf()
        &&& self.publisher.capacity() == CHANNEL_SIZE
    }

    /// What `stop` does: every live task is handed back for cancellation and
    /// the server is down with none left; when it was down already, nothing
    /// changes.
    pub open spec fn stop_spec(&self, next: &Tero, cancelled: Seq<u64>) -> bool {
        &&& cancelled == self.live_tasks()
        &&& next.state_spec() == ServerState::Down
        &&& next.live_tasks() == Seq::<u64>::empty()
        &&& next.store == self.store
        &&& self.state_spec() == ServerState::Down ==> *next == *self
    }

    /// What `start` does, given the accept loop spawned on a bound listener
    /// (`None` when binding failed).
    pub open spec fn start_spec(
        &self,
        next: &Tero,
        accept_task: Option<u64>,
        r: Result<(), SyncError>,
    ) -> bool {
        &&& self.state_spec() == ServerState::Up ==> r == Err::<(), SyncError>(SyncError::AlreadyUp)
            && *next == *self
        &&& self.state_spec() == ServerState::Down && accept_task is None ==> r == Err::<
            (),
            SyncError,
        >(SyncError::Bind) && *next == *self
        &&& self.state_spec() == ServerState::Down && accept_task is Some ==> r is Ok
            && next.state_spec() == ServerState::Up && next.live_tasks() == seq![
            accept_task->Some_0,
        ] && next.store == self.store
    }

    /// A supervisor that is down, with an empty store and a bus of
    /// `CHANNEL_SIZE` slots.
    pub fn new() -> (r: Tero)
        ensures
            r.wf(),
            r.state_spec() == ServerState::Down,
            r.live_tasks() == Seq::<u64>::empty(),
            r.store.len() == 0,
            r.publisher.capacity() == CHANNEL_SIZE,
    {
        assert(is_power_of_two(1));
        assert(is_power_of_two(2));
        assert(is_power_of_two(4));
        assert(is_power_of_two(8));
        assert(is_power_of_two(16));
        assert(is_power_of_two(CHANNEL_SIZE as nat));
        let (publisher, own_subscription) = Publisher::channel(CHANNEL_SIZE);
        Tero {
            state: ServerState::Down,
            accept_task: None,
            sessions: Vec::new(),
            store: Store::new(),
            publisher,
            own_subscription,
        }
    }

    /// Registers `key` with `initial` and returns a handle bound to it, or
    /// refuses a key that is already registered and changes nothing. Allowed
    /// whether the server is up or down.
    pub fn data(&mut self, key: &str, initial: Value) -> (r: Result<DataHandle, SyncError>)
        requires
            old(self).wf(),
        ensures
            final(self).wf(),
            final(self).state_spec() == old(self).state_spec(),
            final(self).live_tasks() == old(self).live_tasks(),
            r is Err <==> old(self).store.has_key(key@),
            r matches Err(e) ==> e == SyncError::DuplicateKey && final(self).store == old(self).store,
            r matches Ok(h) ==> {
                &&& h.key@ == key@
                &&& h.publisher.capacity() == CHANNEL_SIZE
                &&& h.element == old(self).store.len()
                &&& h.bound_to(&final(self).store)
                &&& final(self).store.len() == old(self).store.len() + 1
                &&& final(self).store.value_at(h.element as int) == initial
                &&& final(self).store.callbacks_at(h.element as int) == Seq::<u64>::empty()
                &&& forall|j: int|
                    0 <= j < old(self).store.len() ==> #[trigger] final(self).store.elements@[j]
                        == old(self).store.elements@[j]
            },
    {
        match self.store.register(key, initial) {
            Err(e) => Err(e),
            Ok(element) => Ok(DataHandle { key: key.to_owned(), element, publisher: self.publisher.share() }),
        }
    }

    /// A handle bound to the element already registered under `key`, if any.
    pub fn attach(&self, key: &str) -> (r: Option<DataHandle>)
        requires
            self.wf(),
        ensures
            r is None <==> !self.store.has_key(key@),
            r matches Some(h) ==> h.key@ == key@ && h.bound_to(&self.store) && h.publisher.capacity()
                == CHANNEL_SIZE,
    {
        match self.store.lookup(key) {
            None => None,
            Some(element) => Some(DataHandle { key: key.to_owned(), element, publisher: self.publisher.share() }),
        }
    }

    pub fn get_state(&self) -> (r: ServerState)
        ensures
            r == self.state_spec(),
    {
        self.state
    }

    /// Brings the server up once its listener is bound and its accept loop
    /// runs as `accept_task`; `None` reports a listener that could not be
    /// bound, and the server stays down.
    pub fn start(&mut self, accept_task: Option<u64>) -> (r: Result<(), SyncError>)
        requires
            old(self).wf(),
        ensures
            final(self).wf(),
            old(self).start_spec(final(self), accept_task, r),
    {
        if self.state == ServerState::Up {
            return Err(SyncError::AlreadyUp);
        }
        match accept_task {
            None => Err(SyncError::Bind),
            Some(t) => {
                self.accept_task = Some(t);
                self.state = ServerState::Up;
                assert(self.live_tasks() =~= seq![t]);
                Ok(())
            },
        }
    }

    /// Records the task of a newly accepted session, while the server is up.
    pub fn record_session(&mut self, task: u64) -> (r: bool)
        requires
            old(self).wf(),
        ensures
            final(self).wf(),
            r == (old(self).state_spec() == ServerState::Up),
            final(self).state_spec() == old(self).state_spec(),
            final(self).store == old(self).store,
            r ==> final(self).live_tasks() == old(self).live_tasks().insert(
                old(self).live_tasks().len() - 1,
                task,
            ),
            !r ==> *final(self) == *old(self),
    {
        if self.state == ServerState::Down {
            return false;
        }
        let ghost before = self.live_tasks();
        self.sessions.push(task);
        assert(self.live_tasks() =~= before.insert(before.len() - 1, task));
        true
    }

    /// Takes the server down: hands back every live task for cancellation.
    /// A no-op when the server is down already.
    pub fn stop(&mut self) -> (r: Vec<u64>)
        requires
            old(self).wf(),
        ensures
            final(self).wf(),
            old(self).stop_spec(final(self), r@),
    {
        let mut cancelled: Vec<u64> = Vec::new();
        if self.state == ServerState::Up {
            std::mem::swap(&mut cancelled, &mut self.sessions);
            match self.accept_task.take() {
                Some(t) => cancelled.push(t),
                None => {},
            }
            self.state = ServerState::Down;
        }
        assert(self.live_tasks() =~= Seq::<u64>::empty());
        cancelled
    }

    /// A new subscription to the bus, which sees what is published after it.
    pub fn subscribe(&self) -> Subscription {
        self.publisher.subscribe()
    }

    /// Applies a mutation that a session received from its peer: sets the
    /// key's value and publishes the change.
    pub fn apply(&mut self, m: Message) -> (r: Result<SetReport, SyncError>)
        requires
            old(self).wf(),
        ensures
            final(self).wf(),
            final(self).state_spec() == old(self).state_spec(),
            final(self).live_tasks() == old(self).live_tasks(),
            !old(self).store.has_key(m.key@) ==> r == Err::<SetReport, SyncError>(SyncError::UnknownKey),
            r is Err ==> final(self).store == old(self).store,
            old(self).store.has_key(m.key@) ==> exists|i: int|
                0 <= i < old(self).store.len() && old(self).store.key_at(i) == m.key@ && (r is Ok
                    <==> m.value.kind_spec() == old(self).store.value_at(i).kind_spec()) && (r matches Ok(rep) ==> {
                    &&& old(self).store.with_value(&final(self).store, i, m.value)
                    &&& rep.callbacks@ == old(self).store.callbacks_at(i)
                    &&& (rep.published_to matches Some(n) ==> n >= 1)
                }) && (r matches Err(e) ==> e == SyncError::KindMismatch),
    {
        match self.store.apply(m.key.as_str(), m.value) {
            Err(e) => Err(e),
            Ok(out) => {
                let published_to = self.publisher.publish(out.message);
                Ok(SetReport { published_to, callbacks: out.callbacks })
            },
        }
    }
}

/// Stopping leaves the server down with no live task; stopping again changes
/// nothing and cancels nothing; starting afterwards brings it up again.
pub proof fn lemma_stop_is_idempotent_and_restartable(
    t0: &Tero,
    t1: &Tero,
    first: Seq<u64>,
    t2: &Tero,
    second: Seq<u64>,
    t3: &Tero,
    accept_task: u64,
    r: Result<(), SyncError>,
)
    requires
        t0.wf(),
        t0.stop_spec(t1, first),
        t1.stop_spec(t2, second),
        t2.start_spec(t3, Some(accept_task), r),
    ensures
        t1.state_spec() == ServerState::Down,
        t1.live_tasks() == Seq::<u64>::empty(),
        *t2 == *t1,
        second == Seq::<u64>::empty(),
        r is Ok,
        t3.state_spec() == ServerState::Up,
        t3.live_tasks() == seq![accept_task],
{
}

} // verus!
