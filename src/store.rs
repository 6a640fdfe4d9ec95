//! The keyed store of data elements. Each element holds one value and the
//! ordered registry of change callbacks shared by every handle of its key.
use vstd::prelude::*;

use crate::value::Value;

verus! {

/// Why an operation on the store or the server was refused.
#[derive(Clone, Copy, Debug, PartialEq, Eq, Structural)]
pub enum SyncError {
    /// The key is already registered.
    DuplicateKey,
    /// No element is registered under the key.
    UnknownKey,
    /// The value's type differs from the one fixed when the key was registered.
    KindMismatch,
    /// The listener could not be bound.
    Bind,
    /// The server is already up.
    AlreadyUp,
}

/// One mutation, as published to every subscriber.
#[derive(Clone, Debug, PartialEq, Eq)]
pub struct Message {
    pub key: String,
    pub value: Value,
}

/// One named value with its change-callback registry. Callbacks are named by
/// the ids that the embedding code gave them, in registration order.
pub struct DataElement {
    pub key: String,
    pub value: Value,
    pub callbacks: Vec<u64>,
}

/// What a successful `set` hands back: the message to publish and the
/// callbacks to run, a snapshot taken while the value was replaced.
pub struct SetOutcome {
    pub message: Message,
    pub callbacks: Vec<u64>,
}

/// The mapping from key to element. An element's index never changes once it
/// is registered: elements are never removed.
pub struct Store {
    pub elements: Vec<DataElement>,
}

impl Store {
    /// No two elements share a key.
    pub open spec fn wf(&self) -> bool {
        forall|i: int, j: int|
            0 <= i < j < self.elements@.len() ==> #[trigger] self.elements@[i].key@
                != #[trigger] self.elements@[j].key@
    }

    pub open spec fn len(&self) -> nat {
        self.elements@.len()
    }

    /// Some element is registered under `k`.
    pub open spec fn has_key(&self, k: Seq<char>) -> bool {
        exists|i: int| 0 <= i < self.elements@.len() && #[trigger] self.elements@[i].key@ == k
    }

    pub open spec fn key_at(&self, i: int) -> Seq<char> {
        self.elements@[i].key@
    }

    pub open spec fn value_at(&self, i: int) -> Value {
        self.elements@[i].value
    }

    pub open spec fn callbacks_at(&self, i: int) -> Seq<u64> {
        self.elements@[i].callbacks@
    }

    /// `other` differs from `self` at most in the value of element `i`, which
    /// is `v`.
    pub open spec fn with_value(&self, other: &Store, i: int, v: Value) -> bool {
        &&& other.elements@.len() == self.elements@.len()
        &&& forall|j: int| 0 <= j < self.elements@.len() ==> #[trigger] other.key_at(j) == self.key_at(j)
        &&& forall|j: int| 0 <= j < self.elements@.len() ==> #[trigger] other.callbacks_at(j) == self.callbacks_at(j)
        &&& forall|j: int| 0 <= j < self.elements@.len() && j != i ==> #[trigger] other.value_at(j) == self.value_at(j)
        &&& other.value_at(i) == v
    }

    /// `other` differs from `self` at most in the callbacks of element `i`,
    /// which gained `cb` at the end.
    pub open spec fn with_callback(&self, other: &Store, i: int, cb: u64) -> bool {
        &&& other.elements@.len() == self.elements@.len()
        &&& forall|j: int| 0 <= j < self.elements@.len() ==> #[trigger] other.key_at(j) == self.key_at(j)
        &&& forall|j: int| 0 <= j < self.elements@.len() ==> #[trigger] other.value_at(j) == self.value_at(j)
        &&& forall|j: int| 0 <= j < self.elements@.len() && j != i ==> #[trigger] other.callbacks_at(j) == self.callbacks_at(j)
        &&& other.callbacks_at(i) == self.callbacks_at(i).push(cb)
    }

    pub fn new() -> (r: Store)
        ensures
            r.wf(),
            r.len() == 0,
    {
        Store { elements: Vec::new() }
    }

    /// The index of the element registered under `key`.
    pub fn lookup(&self, key: &str) -> (r: Option<usize>)
        requires
            self.wf(),
        ensures
            r is None <==> !self.has_key(key@),
            r matches Some(i) ==> i < self.len() && self.key_at(i as int) == key@,
    {
        let wanted = key.to_owned();
        let mut i: usize = 0;
        while i < self.elements.len()
            invariant
                wanted@ == key@,
                i <= self.elements@.len(),
                forall|j: int| 0 <= j < i ==> #[trigger] self.elements@[j].key@ != key@,
            decreases self.elements@.len() - i,
        {
            if self.elements[i].key == wanted {
                return Some(i);
            }
            i = i + 1;
        }
        None
    }

    /// Registers `key` with `initial` and an empty callback registry, or
    /// refuses a key that is already registered and changes nothing.
    pub fn register(&mut self, key: &str, initial: Value) -> (r: Result<usize, SyncError>)
        requires
            old(self).wf(),
        ensures
            final(self).wf(),
            r is Err <==> old(self).has_key(key@),
            r matches Err(e) ==> e == SyncError::DuplicateKey && *final(self) == *old(self),
            r matches Ok(i) ==> {
                &&& i == old(self).len()
                &&& final(self).len() == old(self).len() + 1
                &&& final(self).key_at(i as int) == key@
                &&& final(self).value_at(i as int) == initial
                &&& final(self).callbacks_at(i as int) == Seq::<u64>::empty()
                &&& forall|j: int| 0 <= j < old(self).len() ==> #[trigger] final(self).elements@[j] == old(self).elements@[j]
            },
    {
        match self.lookup(key) {
            Some(_) => Err(SyncError::DuplicateKey),
            None => {
                let i = self.elements.len();
                let element = DataElement { key: key.to_owned(), value: initial, callbacks: Vec::new() };
                self.elements.push(element);
                assert forall|a: int, b: int| 0 <= a < b < self.elements@.len() implies
                    #[trigger] self.elements@[a].key@ != #[trigger] self.elements@[b].key@ by {
                    if b == i as int {
                        assert(old(self).elements@[a].key@ == self.elements@[a].key@);
                    }
                }
                Ok(i)
            },
        }
    }

    /// A copy of the value of element `i`.
    pub fn get(&self, i: usize) -> (r: Value)
        requires
            i < self.len(),
        ensures
            r == self.value_at(i as int),
    {
        self.elements[i].value.duplicate()
    }

    /// Replaces the value of element `i` by `v`, which must have the type of
    /// the value it replaces, and hands back the message to publish and a
    /// snapshot of the element's callbacks in registration order.
    pub fn set(&mut self, i: usize, v: Value) -> (r: Result<SetOutcome, SyncError>)
        requires
            old(self).wf(),
            i < old(self).len(),
        ensures
            final(self).wf(),
            r is Ok <==> v.kind_spec() == old(self).value_at(i as int).kind_spec(),
            r matches Err(e) ==> e == SyncError::KindMismatch && *final(self) == *old(self),
            r matches Ok(out) ==> {
                &&& old(self).with_value(final(self), i as int, v)
                &&& out.message.key@ == old(self).key_at(i as int)
                &&& out.message.value == v
                &&& out.callbacks@ == old(self).callbacks_at(i as int)
            },
    {
        if self.elements[i].value.kind() != v.kind() {
            return Err(SyncError::KindMismatch);
        }
        let key = self.elements[i].key.clone();
        let callbacks = self.elements[i].callbacks.clone();
        let message = Message { key, value: v.duplicate() };
        let ghost before = self.elements@;
        let mut element = self.elements.remove(i);
        element.value = v;
        self.elements.insert(i, element);
        assert(self.elements@ == before.update(i as int, self.elements@[i as int]));
        assert(callbacks@ =~= old(self).callbacks_at(i as int));
        Ok(SetOutcome { message, callbacks })
    }

    /// Appends `cb` to the callback registry of element `i`.
    pub fn on_change(&mut self, i: usize, cb: u64)
        requires
            old(self).wf(),
            i < old(self).len(),
        ensures
            final(self).wf(),
            old(self).with_callback(final(self), i as int, cb),
    {
        let ghost before = self.elements@;
        let mut element = self.elements.remove(i);
        element.callbacks.push(cb);
        self.elements.insert(i, element);
        assert(self.elements@ == before.update(i as int, self.elements@[i as int]));
    }

    /// Applies a mutation that arrived from a peer: sets the element of
    /// `key` to `v`.
    pub fn apply(&mut self, key: &str, v: Value) -> (r: Result<SetOutcome, SyncError>)
        requires
            old(self).wf(),
        ensures
            final(self).wf(),
            !old(self).has_key(key@) ==> r == Err::<SetOutcome, SyncError>(SyncError::UnknownKey),
            r matches Err(e) ==> *final(self) == *old(self),
            old(self).has_key(key@) ==> exists|i: int|
                0 <= i < old(self).len() && old(self).key_at(i) == key@ && (r is Ok <==> v.kind_spec()
                    == old(self).value_at(i).kind_spec()) && (r matches Ok(out) ==> {
                    &&& old(self).with_value(final(self), i, v)
                    &&& out.message.key@ == key@
                    &&& out.message.value == v
                    &&& out.callbacks@ == old(self).callbacks_at(i)
                }) && (r matches Err(e) ==> e == SyncError::KindMismatch),
    {
        match self.lookup(key) {
            None => Err(SyncError::UnknownKey),
            Some(i) => self.set(i, v),
        }
    }
}

} // verus!
