//! Nested dispatch of change callbacks. Each `set` pushes a frame holding a
//! snapshot of its key's callbacks; callbacks are taken one at a time from the
//! innermost frame, so a `set` made by a running callback has its own
//! callbacks run to completion before the outer frame resumes.
use vstd::prelude::*;

verus! {

/// What the dispatcher hands out next.
#[derive(Clone, Copy, Debug, PartialEq, Eq, Structural)]
pub enum Step {
    /// Run the callback with this id.
    Run(u64),
    /// The innermost frame is finished and was removed.
    FrameDone,
}

/// The steps that run `cbs` in order.
pub open spec fn runs(cbs: Seq<u64>) -> Seq<Step> {
    cbs.map_values(|c: u64| Step::Run(c))
}

/// The steps of one whole frame: its callbacks in order, then its end.
pub open spec fn frame_steps(cbs: Seq<u64>) -> Seq<Step> {
    runs(cbs).push(Step::FrameDone)
}

struct Frame {
    callbacks: Vec<u64>,
    next: usize,
}

impl Frame {
    spec fn remaining(&self) -> Seq<u64> {
        self.callbacks@.subrange(self.next as int, self.callbacks@.len() as int)
    }
}

spec fn pending_of(frames: Seq<Frame>) -> Seq<Step>
    decreases frames.len(),
{
    if frames.len() == 0 {
        Seq::empty()
    } else {
        frame_steps(frames.last().remaining()) + pending_of(frames.drop_last())
    }
}

/// A stack of dispatch frames, innermost last.
pub struct DispatchStack {
    frames: Vec<Frame>,
}

impl DispatchStack {
    pub closed spec fn wf(&self) -> bool {
        forall|i: int| 0 <= i < self.frames@.len() ==> #[trigger] self.frames@[i].next
            <= self.frames@[i].callbacks@.len()
    }

    /// Every step still to be handed out, in the order it will be.
    pub closed spec fn pending(&self) -> Seq<Step> {
        pending_of(self.frames@)
    }

    pub fn new() -> (r: DispatchStack)
        ensures
            r.wf(),
            r.pending() == Seq::<Step>::empty(),
    {
        DispatchStack { frames: Vec::new() }
    }

    /// Opens a frame for the snapshot `callbacks` of one `set`.
    pub fn push(&mut self, callbacks: Vec<u64>)
        requires
            old(self).wf(),
        ensures
            final(self).wf(),
            final(self).pending() == frame_steps(callbacks@) + old(self).pending(),
    {
        let ghost before = self.frames@;
        self.frames.push(Frame { callbacks, next: 0 });
        assert(self.frames@.drop_last() == before);
        assert(self.frames@.last().remaining() =~= callbacks@);
    }

    /// Hands out the next step: the first of `pending`.
    pub fn next(&mut self) -> (r: Option<Step>)
        requires
            old(self).wf(),
        ensures
            final(self).wf(),
            old(self).pending().len() == 0 ==> r is None && final(self).pending() == old(self).pending(),
            old(self).pending().len() > 0 ==> r == Some(old(self).pending()[0])
                && final(self).pending() == old(self).pending().drop_first(),
    {
        let ghost before = self.frames@;
        match self.frames.pop() {
            None => None,
            Some(mut frame) => {
                assert(before.drop_last() == self.frames@);
                assert(frame == before.last());
                let ghost rest = pending_of(self.frames@);
                if frame.next < frame.callbacks.len() {
                    let cb = frame.callbacks[frame.next];
                    let ghost rem = frame.remaining();
                    frame.next = frame.next + 1;
                    assert(frame.remaining() =~= rem.drop_first());
                    assert(runs(rem.drop_first()) =~= runs(rem).drop_first());
                    assert(frame_steps(rem.drop_first()) =~= frame_steps(rem).drop_first());
                    assert(frame_steps(rem)[0] == Step::Run(cb));
                    self.frames.push(frame);
                    assert(self.frames@.drop_last() =~= before.drop_last());
                    assert(pending_of(self.frames@) =~= frame_steps(rem.drop_first()) + rest);
                    assert((frame_steps(rem) + rest).drop_first() =~= frame_steps(rem).drop_first() + rest);
                    Some(Step::Run(cb))
                } else {
                    assert(frame.remaining() =~= Seq::<u64>::empty());
                    assert(frame_steps(frame.remaining()) =~= seq![Step::FrameDone]);
                    assert((frame_steps(frame.remaining()) + rest).drop_first() =~= rest);
                    Some(Step::FrameDone)
                }
            },
        }
    }
}

/// The failures among the outcomes of a dispatch's callbacks, in order.
pub open spec fn failures(outcomes: Seq<Result<(), String>>) -> Seq<String>
    decreases outcomes.len(),
{
    if outcomes.len() == 0 {
        Seq::empty()
    } else {
        let rest = failures(outcomes.drop_last());
        match outcomes.last() {
            Ok(_) => rest,
            Err(e) => rest.push(e),
        }
    }
}

/// Gathers the failures of the callbacks of one dispatch, in the order they
/// ran: a failing callback does not hide the outcome of any other.
pub fn collect_failures(outcomes: &Vec<Result<(), String>>) -> (r: Vec<String>)
    ensures
        r@ == failures(outcomes@),
{
    let mut r: Vec<String> = Vec::new();
    let mut i: usize = 0;
    while i < outcomes.len()
        invariant
            i <= outcomes@.len(),
            r@ == failures(outcomes@.take(i as int)),
        decreases outcomes@.len() - i,
    {
        assert(outcomes@.take(i as int + 1).drop_last() =~= outcomes@.take(i as int));
        match &outcomes[i] {
            Ok(_) => {},
            Err(e) => r.push(e.clone()),
        }
        i = i + 1;
    }
    assert(outcomes@.take(i as int) =~= outcomes@);
    r
}

/// A `set` whose callbacks start no further `set` runs exactly its callbacks,
/// each once and in registration order, and then ends its frame, before any
/// step that was pending when it began.
pub proof fn lemma_set_runs_callbacks_in_order(cbs: Seq<u64>, pending: Seq<Step>)
    ensures
        forall|k: int| 0 <= k < cbs.len() ==> #[trigger] (frame_steps(cbs) + pending)[k]
            == Step::Run(cbs[k]),
        (frame_steps(cbs) + pending)[cbs.len() as int] == Step::FrameDone,
        (frame_steps(cbs) + pending).skip(cbs.len() as int + 1) == pending,
{
    assert((frame_steps(cbs) + pending).skip(cbs.len() as int + 1) =~= pending);
}

/// Reentrant dispatch: when the callback at position `k` of an outer `set`
/// makes an inner `set`, every step of the inner `set`, its frame's end
/// included, comes before the outer `set`'s remaining callbacks, which then
/// run in order.
pub proof fn lemma_nested_set_completes_first(
    outer: Seq<u64>,
    inner: Seq<u64>,
    pending: Seq<Step>,
    k: int,
)
    requires
        0 <= k < outer.len(),
    ensures
        (frame_steps(outer) + pending)[k] == Step::Run(outer[k]),
        frame_steps(inner) + (frame_steps(outer) + pending).skip(k + 1) == frame_steps(inner)
            + frame_steps(outer.skip(k + 1)) + pending,
{
    assert(runs(outer.skip(k + 1)) =~= runs(outer).skip(k + 1));
    assert((frame_steps(outer) + pending).skip(k + 1) =~= frame_steps(outer.skip(k + 1))
        + pending);
    assert(frame_steps(inner) + (frame_steps(outer) + pending).skip(k + 1) =~= frame_steps(inner)
        + frame_steps(outer.skip(k + 1)) + pending);
}

} // verus!
