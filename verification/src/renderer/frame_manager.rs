//! The frame manager: cycles through the frame slots, keeps a slot from being
//! reused before the device has finished its previous submission, and hands
//! out the fence value that each submission signals.

use super::frame::lemma_acquired_wf;
use super::frame::lemma_begun_wf;
use super::frame::lemma_ended_wf;
use super::frame::CommandList;
use super::frame::Frame;
use super::frame::FrameView;
use vstd::prelude::*;

verus! {

/// What became of an attempt to start the next frame.
#[derive(Clone, Copy, Debug, PartialEq, Eq, Structural)]
pub enum FrameStart {
    /// The next slot's previous submission has not completed. Nothing
    /// changed; the caller waits until the fence reaches `fence_value` and
    /// tries again.
    Blocked { fence_value: u64 },
    /// Slot `slot` is now the active one. Its command allocator has to be
    /// reset before anything is recorded.
    Ready { slot: usize },
}

/// The state of the frame manager as contracts see it.
pub struct FrameManagerView {
    /// The fence value that the next submission signals.
    pub next_fence_value: nat,
    /// The active slot: the one that records, or that recorded last.
    pub frame_index: usize,
    /// The frame slots.
    pub frames: Seq<FrameView>,
}

impl FrameManagerView {
    /// A manager of `frame_count` slots that has not started a frame yet. The
    /// active slot is the last one, so that the first frame runs in slot 0.
    pub open spec fn initial(frame_count: usize) -> FrameManagerView {
        FrameManagerView {
            next_fence_value: 1,
            frame_index: (frame_count - 1) as usize,
            frames: Seq::new(frame_count as nat, |i: int| FrameView::fresh(i as usize)),
        }
    }

    /// Whether a frame is being recorded.
    pub open spec fn started(self) -> bool {
        self.frames[self.frame_index as int].started
    }

    /// Number of frames submitted so far. They signalled the fence values
    /// `1 ..= submitted()`, in this order.
    pub open spec fn submitted(self) -> nat {
        (self.next_fence_value - 1) as nat
    }

    /// Number of submitted frames that the device has not finished, if it is
    /// known to have reached the fence value `completed`.
    pub open spec fn outstanding(self, completed: nat) -> nat {
        if self.submitted() > completed {
            (self.submitted() - completed) as nat
        } else {
            0
        }
    }

    /// The slot after the active one, round robin.
    pub open spec fn next_index(self) -> usize {
        ((self.frame_index + 1) % (self.frames.len() as int)) as usize
    }

    /// The slot that holds the latest submission (meaningful once a frame was
    /// submitted): the active slot, or the one before it while the active
    /// slot records.
    pub open spec fn newest_slot(self) -> int {
        if !self.started() {
            self.frame_index as int
        } else if self.frame_index == 0 {
            self.frames.len() - 1
        } else {
            self.frame_index - 1
        }
    }

    /// How many submissions ago slot `slot` was last submitted, counting
    /// backwards round robin from the newest slot.
    pub open spec fn age(self, slot: int) -> int {
        if slot <= self.newest_slot() {
            self.newest_slot() - slot
        } else {
            self.newest_slot() + self.frames.len() - slot
        }
    }

    /// The watermark that slot `slot` holds after `submitted()` submissions
    /// made round robin: the fence value of its latest submission, 0 if it
    /// has made none.
    pub open spec fn watermark(self, slot: int) -> nat {
        if self.submitted() > self.age(slot) {
            (self.submitted() - self.age(slot)) as nat
        } else {
            0
        }
    }

    /// The manager's invariant: there is at least one slot, only the active
    /// slot can be recording, each slot's pool is well formed, and the
    /// watermarks are those of `submitted()` submissions made round robin.
    pub open spec fn wf(self) -> bool {
        &&& 1 <= self.frames.len() <= usize::MAX
        &&& self.frame_index < self.frames.len()
        &&& self.next_fence_value >= 1
        &&& forall|i: int|
            0 <= i < self.frames.len() ==> {
                &&& (#[trigger] self.frames[i]).index == i
                &&& self.frames[i].wf()
                &&& (self.frames[i].started ==> i == self.frame_index)
                &&& self.frames[i].fence_value == self.watermark(i)
            }
    }

    /// The fence value that keeps the next frame from starting while the
    /// device is only known to have reached `completed`.
    pub open spec fn blocked_on(self, completed: nat) -> Option<nat> {
        self.frames[self.next_index() as int].wait_target(completed)
    }

    /// The manager after the next frame started.
    pub open spec fn begun(self) -> FrameManagerView {
        FrameManagerView {
            frame_index: self.next_index(),
            frames: self.frames.update(
                self.next_index() as int,
                self.frames[self.next_index() as int].begun(),
            ),
            ..self
        }
    }

    /// The manager after an attempt to start the next frame: unchanged while
    /// the next slot's watermark is beyond `completed`.
    pub open spec fn start_attempted(self, completed: nat) -> FrameManagerView {
        if self.blocked_on(completed) is Some {
            self
        } else {
            self.begun()
        }
    }

    /// The manager after the active frame was submitted: the active slot
    /// holds the fence value that was due, and the next one is due.
    pub open spec fn ended(self) -> FrameManagerView {
        FrameManagerView {
            next_fence_value: self.next_fence_value + 1,
            frames: self.frames.update(
                self.frame_index as int,
                self.frames[self.frame_index as int].ended(self.next_fence_value),
            ),
            ..self
        }
    }

    /// The manager after the active slot handed out a command list.
    pub open spec fn acquired(self) -> FrameManagerView {
        FrameManagerView {
            frames: self.frames.update(
                self.frame_index as int,
                self.frames[self.frame_index as int].acquired(),
            ),
            ..self
        }
    }

    /// The watermarks that are beyond `completed`, in slot order: what has to
    /// be waited for before the slots' resources may be released.
    pub open spec fn pending(self, completed: nat) -> Seq<nat> {
        self.frames.map_values(|f: FrameView| f.fence_value).filter(|v: nat| v > completed)
    }
}

/// The next slot is the active one plus one, or slot 0 after the last slot.
pub proof fn lemma_next_index(s: FrameManagerView)
    requires
        1 <= s.frames.len() <= usize::MAX,
        s.frame_index < s.frames.len(),
    ensures
        s.next_index() == (if s.frame_index + 1 == s.frames.len() {
            0int
        } else {
            s.frame_index + 1
        }),
        s.next_index() < s.frames.len(),
{
    let n = s.frames.len() as int;
    if s.frame_index + 1 == n {
        vstd::arithmetic::div_mod::lemma_mod_self_0(n);
    } else {
        vstd::arithmetic::div_mod::lemma_small_mod((s.frame_index + 1) as nat, n as nat);
    }
}

/// A new manager is well formed.
pub proof fn lemma_initial_wf(frame_count: usize)
    requires
        frame_count >= 1,
    ensures
        FrameManagerView::initial(frame_count).wf(),
        !FrameManagerView::initial(frame_count).started(),
        FrameManagerView::initial(frame_count).submitted() == 0,
{
}

/// Starting the next frame keeps the manager well formed; no watermark
/// changes and nothing is submitted.
pub proof fn lemma_begun_keeps_wf(s: FrameManagerView)
    requires
        s.wf(),
        !s.started(),
    ensures
        s.begun().wf(),
        s.begun().started(),
        s.begun().submitted() == s.submitted(),
        forall|i: int| 0 <= i < s.frames.len() ==> s.begun().watermark(i) == s.watermark(i),
{
    lemma_next_index(s);
    let t = s.begun();
    let next = s.next_index() as int;
    lemma_begun_wf(s.frames[next]);
    assert(t.frames.len() == s.frames.len());
    assert(t.started());
    assert(t.newest_slot() == s.newest_slot());
    assert forall|i: int| 0 <= i < t.frames.len() implies {
        &&& (#[trigger] t.frames[i]).index == i
        &&& t.frames[i].wf()
        &&& (t.frames[i].started ==> i == t.frame_index)
        &&& t.frames[i].fence_value == t.watermark(i)
    } by {
        assert(t.age(i) == s.age(i));
        assert(s.frames[i].fence_value == s.watermark(i));
    }
}

/// Submitting the active frame keeps the manager well formed.
pub proof fn lemma_ended_keeps_wf(s: FrameManagerView)
    requires
        s.wf(),
        s.started(),
    ensures
        s.ended().wf(),
        !s.ended().started(),
        s.ended().submitted() == s.submitted() + 1,
{
    let t = s.ended();
    let cur = s.frame_index as int;
    lemma_ended_wf(s.frames[cur], s.next_fence_value);
    assert(t.frames.len() == s.frames.len());
    assert(!t.started());
    assert(t.newest_slot() == cur);
    assert forall|i: int| 0 <= i < t.frames.len() implies {
        &&& (#[trigger] t.frames[i]).index == i
        &&& t.frames[i].wf()
        &&& (t.frames[i].started ==> i == t.frame_index)
        &&& t.frames[i].fence_value == t.watermark(i)
    } by {
        if i == cur {
            assert(t.age(i) == 0);
        } else {
            assert(t.frames[i] == s.frames[i]);
            assert(t.age(i) == s.age(i) + 1);
            assert(s.frames[i].fence_value == s.watermark(i));
        }
    }
}

/// Handing out a command list keeps the manager well formed.
pub proof fn lemma_acquired_keeps_wf(s: FrameManagerView)
    requires
        s.wf(),
        s.started(),
    ensures
        s.acquired().wf(),
        s.acquired().started(),
        s.acquired().next_fence_value == s.next_fence_value,
{
    let t = s.acquired();
    let cur = s.frame_index as int;
    lemma_acquired_wf(s.frames[cur]);
    assert(t.newest_slot() == s.newest_slot());
    assert forall|i: int| 0 <= i < t.frames.len() implies {
        &&& (#[trigger] t.frames[i]).index == i
        &&& t.frames[i].wf()
        &&& (t.frames[i].started ==> i == t.frame_index)
        &&& t.frames[i].fence_value == t.watermark(i)
    } by {
        assert(t.age(i) == s.age(i));
        assert(s.frames[i].fence_value == s.watermark(i));
    }
}

/// The next slot to start is the one whose submission is the oldest: with
/// `N` slots it holds the watermark `submitted() + 1 - N`, or 0 while fewer
/// than `N` frames were submitted.
pub proof fn lemma_next_slot_is_oldest(s: FrameManagerView)
    requires
        s.wf(),
        !s.started(),
    ensures
        s.frames[s.next_index() as int].fence_value == (if s.submitted() >= s.frames.len() {
            s.submitted() + 1 - s.frames.len()
        } else {
            0
        }),
{
    lemma_next_index(s);
    let next = s.next_index() as int;
    assert(s.age(next) == s.frames.len() - 1);
    assert(s.frames[next].fence_value == s.watermark(next));
}

/// The frame manager: the frame slots, the active slot and the next fence
/// value to signal.
pub struct FrameManager {
    next_fence_value: u64,
    frame_index: usize,
    frames: Vec<Frame>,
}

impl View for FrameManager {
    type V = FrameManagerView;

    closed spec fn view(&self) -> FrameManagerView {
        FrameManagerView {
            next_fence_value: self.next_fence_value as nat,
            frame_index: self.frame_index,
            frames: self.frames@.map_values(|f: Frame| f@),
        }
    }
}

impl FrameManager {
    /// The manager's invariant. `new` establishes it and every method keeps
    /// it.
    pub open spec fn wf(&self) -> bool {
        self@.wf()
    }

    /// A manager of `frame_count` slots, none of which has submitted
    /// anything. The first fence value to signal is 1, and the first frame
    /// runs in slot 0.
    pub fn new(frame_count: usize) -> (manager: FrameManager)
        requires
            frame_count >= 1,
        ensures
            manager.wf(),
            manager@ == FrameManagerView::initial(frame_count),
    {
        let mut frames: Vec<Frame> = Vec::new();
        let mut i: usize = 0;
        while i < frame_count
            invariant
                i <= frame_count,
                frames@.len() == i,
                forall|k: int| 0 <= k < i ==> (#[trigger] frames@[k])@ == FrameView::fresh(k as usize),
            decreases frame_count - i,
        {
            frames.push(Frame::new(i));
            i = i + 1;
        }
        let manager = FrameManager { next_fence_value: 1, frame_index: frame_count - 1, frames };
        proof {
            assert(manager@.frames =~= FrameManagerView::initial(frame_count).frames);
            lemma_initial_wf(frame_count);
        }
        manager
    }

    /// Number of frame slots: the pipelining depth.
    pub fn frame_count(&self) -> (count: usize)
        ensures
            count == self@.frames.len(),
    {
        self.frames.len()
    }

    /// The active slot.
    pub fn frame_index(&self) -> (index: usize)
        ensures
            index == self@.frame_index,
    {
        self.frame_index
    }

    /// The fence value that the next submission signals.
    pub fn next_fence_value(&self) -> (value: u64)
        ensures
            value == self@.next_fence_value,
    {
        self.next_fence_value
    }

    /// The watermark of slot `slot`: the fence value of its last submission,
    /// 0 if it has made none.
    pub fn fence_value(&self, slot: usize) -> (value: u64)
        requires
            slot < self@.frames.len(),
        ensures
            value == self@.frames[slot as int].fence_value,
    {
        self.frames[slot].fence_value()
    }

    /// Whether a frame is being recorded.
    pub fn is_started(&self) -> (started: bool)
        requires
            self.wf(),
        ensures
            started == self@.started(),
    {
        self.frames[self.frame_index].is_started()
    }

    /// Tries to start the next frame in the slot after the active one.
    ///
    /// `completed` is the last fence value that the device is known to have
    /// reached. The slot is reused only if its previous submission is among
    /// the completed ones; otherwise nothing changes and the result names the
    /// fence value to wait for. So the frame starts exactly if fewer frames
    /// than there are slots are still outstanding on the device.
    pub fn start_new_frame(&mut self, completed: u64) -> (start: FrameStart)
        requires
            old(self).wf(),
            !old(self)@.started(),
        ensures
            final(self).wf(),
            final(self)@ == old(self)@.start_attempted(completed as nat),
            match start {
                FrameStart::Blocked { fence_value } => {
                    &&& old(self)@.blocked_on(completed as nat) == Some(fence_value as nat)
                    &&& old(self)@.outstanding(completed as nat) >= old(self)@.frames.len()
                    &&& fence_value > completed
                },
                FrameStart::Ready { slot } => {
                    &&& old(self)@.blocked_on(completed as nat) is None
                    &&& old(self)@.outstanding(completed as nat) < old(self)@.frames.len()
                    &&& slot == old(self)@.next_index()
                    &&& old(self)@.frames[slot as int].fence_value <= completed
                    &&& final(self)@.started()
                },
            },
    {
        proof {
            lemma_next_index(self@);
            lemma_next_slot_is_oldest(self@);
            assert(self@.frames.len() == self.frames@.len());
        }
        let next: usize = (self.frame_index + 1) % self.frames.len();
        match self.frames[next].start_new(completed) {
            Some(fence_value) => {
                proof {
                    assert(self@.frames =~= old(self)@.frames);
                }
                FrameStart::Blocked { fence_value }
            },
            None => {
                self.frame_index = next;
                proof {
                    assert(self@.frames =~= old(self)@.begun().frames);
                    lemma_begun_keeps_wf(old(self)@);
                }
                FrameStart::Ready { slot: next }
            },
        }
    }

    /// Ends the active frame: its work was submitted, and the caller has the
    /// queue signal the returned fence value after it. The value is recorded
    /// as the active slot's watermark; it is greater than every watermark
    /// recorded before.
    pub fn end_frame(&mut self) -> (signal: u64)
        requires
            old(self).wf(),
            old(self)@.started(),
            old(self)@.next_fence_value < u64::MAX,
        ensures
            final(self).wf(),
            final(self)@ == old(self)@.ended(),
            signal == old(self)@.next_fence_value,
            final(self)@.frames[old(self)@.frame_index as int].fence_value == signal,
            forall|i: int| 0 <= i < old(self)@.frames.len() ==> old(self)@.frames[i].fence_value < signal,
    {
        let signal: u64 = self.next_fence_value;
        self.frames[self.frame_index].end(signal);
        self.next_fence_value = signal + 1;
        proof {
            assert(self@.frames =~= old(self)@.ended().frames);
            lemma_ended_keeps_wf(old(self)@);
            assert forall|i: int| 0 <= i < old(self)@.frames.len() implies old(self)@.frames[i].fence_value
                < signal by {
                assert(old(self)@.frames[i].fence_value == old(self)@.watermark(i));
            }
        }
        signal
    }

    /// Hands out a command list of the active slot for recording. The list is
    /// in use until the slot starts again, and is not handed out a second
    /// time before that.
    pub fn new_command_list(&mut self) -> (list: CommandList)
        requires
            old(self).wf(),
            old(self)@.started(),
        ensures
            final(self).wf(),
            final(self)@ == old(self)@.acquired(),
            list == old(self)@.frames[old(self)@.frame_index as int].next_list(),
            list.frame == old(self)@.frame_index,
            !old(self)@.frames[old(self)@.frame_index as int].used.contains(list.index as nat),
    {
        let list = self.frames[self.frame_index].new_command_list();
        proof {
            assert(self@.frames =~= old(self)@.acquired().frames);
            lemma_acquired_keeps_wf(old(self)@);
        }
        list
    }

    /// The fence values that have to be waited for before the manager's
    /// device resources may be released: the watermark of every slot whose
    /// submission is not known complete, in slot order.
    pub fn shutdown(&self, completed: u64) -> (waits: Vec<u64>)
        ensures
            waits@.map_values(|v: u64| v as nat) == self@.pending(completed as nat),
    {
        let mut waits: Vec<u64> = Vec::new();
        let mut i: usize = 0;
        let ghost beyond = |v: nat| v > completed as nat;
        let ghost marks = self@.frames.map_values(|f: FrameView| f.fence_value);
        while i < self.frames.len()
            invariant
                i <= self.frames.len(),
                marks == self@.frames.map_values(|f: FrameView| f.fence_value),
                beyond == |v: nat| v > completed as nat,
                waits@.map_values(|v: u64| v as nat) == marks.take(i as int).filter(beyond),
            decreases self.frames.len() - i,
        {
            let target = self.frames[i].wait(completed);
            proof {
                assert(marks.take(i + 1) =~= marks.take(i as int).push(marks[i as int]));
                marks.take(i as int).lemma_filter_push(marks[i as int], beyond);
            }
            if let Some(value) = target {
                waits.push(value);
                proof {
                    assert(waits@.map_values(|v: u64| v as nat) =~= marks.take(i as int).filter(
                        beyond,
                    ).push(value as nat));
                }
            }
            i = i + 1;
        }
        proof {
            assert(marks.take(i as int) =~= marks);
        }
        waits
    }
}

} // verus!
