//! The frame manager's protocol as a whole: what holds over every sequence of
//! calls that the contracts of the manager allow.

use super::frame_manager::lemma_acquired_keeps_wf;
use super::frame_manager::lemma_begun_keeps_wf;
use super::frame_manager::lemma_ended_keeps_wf;
use super::frame_manager::lemma_next_index;
use super::frame_manager::lemma_next_slot_is_oldest;
use super::frame_manager::FrameManagerView;
use vstd::prelude::*;

verus! {

/// One call on the frame manager.
pub enum FrameOp {
    /// `start_new_frame`, with the completion value the caller observed.
    Start { completed: nat },
    /// `new_command_list`.
    Acquire,
    /// `end_frame`.
    End,
}

impl FrameManagerView {
    /// Whether the manager's contracts allow the call in this state: a frame
    /// starts only while none records, and only a recording frame hands out
    /// command lists and ends.
    pub open spec fn permits(self, op: FrameOp) -> bool {
        match op {
            FrameOp::Start { completed } => !self.started(),
            FrameOp::Acquire => self.started(),
            FrameOp::End => self.started(),
        }
    }

    /// The manager after the call.
    pub open spec fn step(self, op: FrameOp) -> FrameManagerView {
        match op {
            FrameOp::Start { completed } => self.start_attempted(completed),
            FrameOp::Acquire => self.acquired(),
            FrameOp::End => self.ended(),
        }
    }

    /// Whether each call of `ops`, made in order from this state, is allowed
    /// in the state that it meets.
    pub open spec fn follows_protocol(self, ops: Seq<FrameOp>) -> bool
        decreases ops.len(),
    {
        if ops.len() == 0 {
            true
        } else {
            self.permits(ops[0]) && self.step(ops[0]).follows_protocol(ops.drop_first())
        }
    }

    /// The manager after the calls of `ops`, made in order.
    pub open spec fn run(self, ops: Seq<FrameOp>) -> FrameManagerView
        decreases ops.len(),
    {
        if ops.len() == 0 {
            self
        } else {
            self.step(ops[0]).run(ops.drop_first())
        }
    }

    /// The watermarks that the `end_frame` calls among `ops` record, in the
    /// order of the calls.
    pub open spec fn recorded(self, ops: Seq<FrameOp>) -> Seq<nat>
        decreases ops.len(),
    {
        if ops.len() == 0 {
            Seq::empty()
        } else if ops[0] is End {
            seq![self.next_fence_value] + self.step(ops[0]).recorded(ops.drop_first())
        } else {
            self.step(ops[0]).recorded(ops.drop_first())
        }
    }

}

/// The invariant holds in every state that allowed calls lead to: at most
/// one slot records, each slot's watermark is that of round-robin
/// submission, and no command list is in two places.
pub proof fn lemma_run_keeps_wf(s: FrameManagerView, ops: Seq<FrameOp>)
    requires
        s.wf(),
        s.follows_protocol(ops),
    ensures
        s.run(ops).wf(),
    decreases ops.len(),
{
    if ops.len() > 0 {
        let t = s.step(ops[0]);
        match ops[0] {
            FrameOp::Start { completed } => {
                if s.blocked_on(completed) is None {
                    lemma_begun_keeps_wf(s);
                }
            },
            FrameOp::Acquire => {
                lemma_acquired_keeps_wf(s);
            },
            FrameOp::End => {
                lemma_ended_keeps_wf(s);
            },
        }
        lemma_run_keeps_wf(t, ops.drop_first());
    }
}

/// Before each of the calls of an allowed sequence the invariant holds, and
/// the call is allowed in the state that it meets.
pub proof fn lemma_run_prefix(s: FrameManagerView, ops: Seq<FrameOp>, k: int)
    requires
        s.wf(),
        s.follows_protocol(ops),
        0 <= k < ops.len(),
    ensures
        s.follows_protocol(ops.take(k)),
        s.run(ops.take(k)).wf(),
        s.run(ops.take(k)).permits(ops[k]),
    decreases k,
{
    if k == 0 {
        assert(ops.take(0) =~= Seq::<FrameOp>::empty());
    } else {
        let t = s.step(ops[0]);
        let rest = ops.drop_first();
        assert(seq![ops[0]].drop_first() =~= Seq::<FrameOp>::empty());
        assert(s.follows_protocol(seq![ops[0]])) by {
            reveal_with_fuel(FrameManagerView::follows_protocol, 2);
        }
        assert(s.run(seq![ops[0]]) == t) by {
            reveal_with_fuel(FrameManagerView::run, 2);
        }
        lemma_run_keeps_wf(s, seq![ops[0]]);
        lemma_run_prefix(t, rest, k - 1);
        assert(ops.take(k).drop_first() =~= rest.take(k - 1));
        assert(ops.take(k)[0] == ops[0]);
        assert(rest[k - 1] == ops[k]);
    }
}

/// Over any allowed sequence of calls, a frame slot is reused only when the
/// device has finished with it, and a frame starts only while fewer frames
/// than there are slots are outstanding: if the `k`-th call is an attempt to
/// start a frame and it changes the manager at all, then the watermark of
/// the slot that it starts is not beyond the completion value that the
/// caller observed, and at most `N - 1` of the frames submitted until then
/// are still outstanding.
pub proof fn lemma_run_never_reuses_early(s: FrameManagerView, ops: Seq<FrameOp>, k: int)
    requires
        s.wf(),
        s.follows_protocol(ops),
        0 <= k < ops.len(),
        ops[k] is Start,
    ensures
        ({
            let before = s.run(ops.take(k));
            let after = s.run(ops.take(k + 1));
            let completed = ops[k]->completed;
            &&& after == before.start_attempted(completed)
            &&& after != before ==> {
                &&& after.started()
                &&& before.frames[before.next_index() as int].fence_value <= completed
                &&& before.outstanding(completed) <= before.frames.len() - 1
            }
        }),
{
    let before = s.run(ops.take(k));
    let completed = ops[k]->completed;
    lemma_run_prefix(s, ops, k);
    lemma_run_append(s, ops.take(k), ops[k]);
    assert(ops.take(k).push(ops[k]) =~= ops.take(k + 1));
    lemma_no_premature_reuse(before, completed);
    lemma_pipelining_bound(before, completed);
}

/// Running a sequence of calls and then one more call is running the
/// sequence extended by that call.
pub proof fn lemma_run_append(s: FrameManagerView, ops: Seq<FrameOp>, op: FrameOp)
    ensures
        s.run(ops.push(op)) == s.run(ops).step(op),
    decreases ops.len(),
{
    if ops.len() == 0 {
        assert(ops.push(op).drop_first() =~= Seq::<FrameOp>::empty());
        reveal_with_fuel(FrameManagerView::run, 2);
    } else {
        assert(ops.push(op).drop_first() =~= ops.drop_first().push(op));
        lemma_run_append(s.step(ops[0]), ops.drop_first(), op);
    }
}

/// No recorded watermark is below the fence value that was due when the
/// calls began.
pub proof fn lemma_recorded_lower_bound(s: FrameManagerView, ops: Seq<FrameOp>, i: int)
    requires
        0 <= i < s.recorded(ops).len(),
    ensures
        s.recorded(ops)[i] >= s.next_fence_value,
    decreases ops.len(),
{
    if ops.len() > 0 {
        let t = s.step(ops[0]);
        let rest = ops.drop_first();
        assert(t.next_fence_value >= s.next_fence_value);
        if ops[0] is End {
            if i > 0 {
                lemma_recorded_lower_bound(t, rest, i - 1);
            }
        } else {
            lemma_recorded_lower_bound(t, rest, i);
        }
    }
}

/// Fence monotonicity: over any sequence of calls, the watermarks that the
/// `end_frame` calls record are strictly increasing.
pub proof fn lemma_recorded_strictly_increasing(s: FrameManagerView, ops: Seq<FrameOp>, i: int, j: int)
    requires
        s.follows_protocol(ops),
        0 <= i < j < s.recorded(ops).len(),
    ensures
        s.recorded(ops)[i] < s.recorded(ops)[j],
    decreases ops.len(),
{
    if ops.len() > 0 {
        let t = s.step(ops[0]);
        let rest = ops.drop_first();
        if ops[0] is End {
            assert(t.next_fence_value == s.next_fence_value + 1);
            if i == 0 {
                lemma_recorded_lower_bound(t, rest, j - 1);
            } else {
                lemma_recorded_strictly_increasing(t, rest, i - 1, j - 1);
            }
        } else {
            lemma_recorded_strictly_increasing(t, rest, i, j);
        }
    }
}

/// No premature reuse: an attempt to start the next frame changes the
/// manager, and so lets the next slot's command allocator be reset, only if
/// the slot's watermark is not beyond the completion value that the caller
/// observed. While it is beyond, the manager stays as it is.
pub proof fn lemma_no_premature_reuse(s: FrameManagerView, completed: nat)
    requires
        s.wf(),
        !s.started(),
    ensures
        s.frames[s.next_index() as int].fence_value > completed ==> s.start_attempted(completed) == s,
        s.start_attempted(completed) != s ==> s.frames[s.next_index() as int].fence_value <= completed,
        s.start_attempted(completed).started() ==> s.frames[s.next_index() as int].fence_value
            <= completed,
{
    lemma_next_index(s);
}

/// Pipelining bound: with `N` slots the next frame starts exactly if at most
/// `N - 1` submitted frames are still outstanding on the device. With `N`
/// outstanding the attempt blocks, on the oldest of them.
pub proof fn lemma_pipelining_bound(s: FrameManagerView, completed: nat)
    requires
        s.wf(),
        !s.started(),
    ensures
        s.start_attempted(completed).started() <==> s.outstanding(completed) <= s.frames.len() - 1,
        s.blocked_on(completed) is Some <==> s.outstanding(completed) >= s.frames.len(),
        s.blocked_on(completed) is Some ==> s.blocked_on(completed) == Some(
            (s.submitted() + 1 - s.frames.len()) as nat,
        ),
{
    lemma_next_index(s);
    lemma_next_slot_is_oldest(s);
    if s.blocked_on(completed) is None {
        lemma_begun_keeps_wf(s);
    }
}

} // verus!
