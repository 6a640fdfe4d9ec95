//! The client-side handle of one key: it reads and writes the key's value,
//! publishes each write, and registers change callbacks in the key's shared
//! registry.
use vstd::prelude::*;

use crate::bus::Publisher;
use crate::dispatch::{
    frame_steps, lemma_nested_set_completes_first, lemma_set_runs_callbacks_in_order, Step,
};
use crate::store::{Store, SyncError};
use crate::value::Value;

verus! {

/// The result of a successful write through a handle.
pub struct SetReport {
    /// How many subscribers the message was published to; `None` when there
    /// were none.
    pub published_to: Option<usize>,
    /// The key's callbacks, in registration order, as they stood at the write:
    /// the caller runs them after the store is released.
    pub callbacks: Vec<u64>,
}

/// A handle bound to the element of one key.
pub struct DataHandle {
    pub key: String,
    pub element: usize,
    pub publisher: Publisher,
}

impl DataHandle {
    /// `self` refers to an element of `store`, registered under its key.
    pub open spec fn bound_to(&self, store: &Store) -> bool {
        &&& self.element < store.len()
        &&& store.key_at(self.element as int) == self.key@
    }

    /// What a write of `v` through `self` does to the store `before`, leaving
    /// `after` and returning `r`: a value of the key's type replaces the old
    /// one and the key's registry comes back in registration order, whatever
    /// publishing found; a value of another type is refused and nothing
    /// changes.
    pub open spec fn set_spec(
        &self,
        before: &Store,
        after: &Store,
        v: Value,
        r: Result<SetReport, SyncError>,
    ) -> bool {
        &&& r is Ok <==> v.kind_spec() == before.value_at(self.element as int).kind_spec()
        &&& r matches Err(e) ==> e == SyncError::KindMismatch && *after == *before
        &&& r matches Ok(rep) ==> {
            &&& before.with_value(after, self.element as int, v)
            &&& rep.callbacks@ == before.callbacks_at(self.element as int)
            &&& (rep.published_to matches Some(n) ==> n >= 1)
        }
    }

    /// The current value of the key.
    pub fn get(&self, store: &Store) -> (r: Value)
        requires
            self.bound_to(store),
        ensures
            r == store.value_at(self.element as int),
    {
        store.get(self.element)
    }

    /// Replaces the key's value by `v`, which must have the key's type, then
    /// publishes the change. The value is replaced before anything is
    /// published and before any callback is handed back.
    pub fn set(&self, store: &mut Store, v: Value) -> (r: Result<SetReport, SyncError>)
        requires
            old(store).wf(),
            self.bound_to(old(store)),
        ensures
            final(store).wf(),
            self.bound_to(final(store)),
            self.set_spec(old(store), final(store), v, r),
    {
        match store.set(self.element, v) {
            Err(e) => Err(e),
            Ok(out) => {
                let published_to = self.publisher.publish(out.message);
                Ok(SetReport { published_to, callbacks: out.callbacks })
            },
        }
    }

    /// Adds `cb` at the end of the key's callback registry, shared by every
    /// handle of the key.
    pub fn on_change(&self, store: &mut Store, cb: u64)
        requires
            old(store).wf(),
            self.bound_to(old(store)),
        ensures
            final(store).wf(),
            self.bound_to(final(store)),
            old(store).with_callback(final(store), self.element as int, cb),
    {
        store.on_change(self.element, cb)
    }
}

/// A write of a value of the key's type succeeds, and a read through the
/// handle right after it returns the value written.
pub proof fn lemma_get_after_set(
    h: &DataHandle,
    before: &Store,
    after: &Store,
    v: Value,
    r: Result<SetReport, SyncError>,
)
    requires
        h.bound_to(before),
        v.kind_spec() == before.value_at(h.element as int).kind_spec(),
        h.set_spec(before, after, v, r),
    ensures
        r is Ok,
        h.bound_to(after),
        after.value_at(h.element as int) == v,
{
}

/// A write of a value of the key's type hands back the key's callbacks
/// c1..cN as registered, through any handle of the key; dispatched, they run
/// each once in that order and then the write's frame ends, before anything
/// that was pending before the write.
pub proof fn lemma_set_dispatches_registry_in_order(
    h: &DataHandle,
    before: &Store,
    after: &Store,
    v: Value,
    r: Result<SetReport, SyncError>,
    pending: Seq<Step>,
)
    requires
        h.bound_to(before),
        v.kind_spec() == before.value_at(h.element as int).kind_spec(),
        h.set_spec(before, after, v, r),
    ensures
        r matches Ok(rep) && rep.callbacks@ == before.callbacks_at(h.element as int),
        forall|k: int|
            0 <= k < before.callbacks_at(h.element as int).len() ==> #[trigger] (frame_steps(
                before.callbacks_at(h.element as int),
            ) + pending)[k] == Step::Run(before.callbacks_at(h.element as int)[k]),
        (frame_steps(before.callbacks_at(h.element as int)) + pending)[before.callbacks_at(
            h.element as int,
        ).len() as int] == Step::FrameDone,
        (frame_steps(before.callbacks_at(h.element as int)) + pending).skip(
            before.callbacks_at(h.element as int).len() as int + 1,
        ) == pending,
{
    lemma_set_runs_callbacks_in_order(before.callbacks_at(h.element as int), pending);
}

/// Reentrant writes: when the callback at position `k` of an outer write of
/// `v` makes an inner write of `w` on the same key, both succeed, the value
/// ends as `w`, and the inner write's callbacks run in full, its frame's end
/// included, before the outer write's remaining callbacks, which then run in
/// order and end the outer frame.
pub proof fn lemma_reentrant_set_nests(
    h: &DataHandle,
    s0: &Store,
    s1: &Store,
    s2: &Store,
    v: Value,
    w: Value,
    r1: Result<SetReport, SyncError>,
    r2: Result<SetReport, SyncError>,
    pending: Seq<Step>,
    k: int,
)
    requires
        h.bound_to(s0),
        v.kind_spec() == s0.value_at(h.element as int).kind_spec(),
        w.kind_spec() == v.kind_spec(),
        h.set_spec(s0, s1, v, r1),
        h.set_spec(s1, s2, w, r2),
        0 <= k < s0.callbacks_at(h.element as int).len(),
    ensures
        r1 is Ok && r2 is Ok,
        s2.value_at(h.element as int) == w,
        ({
            let reg = s0.callbacks_at(h.element as int);
            &&& r1->Ok_0.callbacks@ == reg
            &&& r2->Ok_0.callbacks@ == reg
            &&& (frame_steps(reg) + pending)[k] == Step::Run(reg[k])
            &&& frame_steps(r2->Ok_0.callbacks@) + (frame_steps(r1->Ok_0.callbacks@) + pending).skip(
                k + 1,
            ) == frame_steps(reg) + frame_steps(reg.skip(k + 1)) + pending
        }),
{
    let reg = s0.callbacks_at(h.element as int);
    assert(s1.callbacks_at(h.element as int) == reg);
    lemma_nested_set_completes_first(reg, reg, pending, k);
}

/// Two handles bound to one key of a store share its element, so a callback
/// registered through either one is seen by a write through the other.
pub proof fn lemma_handles_share_registry(h1: &DataHandle, h2: &DataHandle, store: &Store)
    requires
        store.wf(),
        h1.bound_to(store),
        h2.bound_to(store),
        h1.key@ == h2.key@,
    ensures
        h1.element == h2.element,
        store.callbacks_at(h1.element as int) == store.callbacks_at(h2.element as int),
{
    if h1.element != h2.element {
        if h1.element < h2.element {
            assert(store.elements@[h1.element as int].key@ != store.elements@[h2.element as int].key@);
        } else {
            assert(store.elements@[h2.element as int].key@ != store.elements@[h1.element as int].key@);
        }
    }
}

} // verus!
