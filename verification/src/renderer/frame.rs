//! One frame slot of the pipeline: a fence watermark and a pool of command
//! lists that are recycled once the slot's previous submission has completed.

use vstd::prelude::*;

verus! {

/// A command list handed out by a frame slot for recording.
///
/// `index` names the list within the slot `frame`. A list that is not
/// `recycled` has to be created from the slot's command allocator and is the
/// slot's `index`-th list; a recycled one exists already and has to be reset
/// against the allocator before it records again.
#[derive(Clone, Copy, Debug, PartialEq, Eq, Structural)]
pub struct CommandList {
    pub frame: usize,
    pub index: usize,
    pub recycled: bool,
}

/// The state of a frame slot as contracts see it.
pub struct FrameView {
    /// Position of the slot in the manager's array.
    pub index: usize,
    /// Fence value signalled by the slot's last submission; 0 if it never
    /// submitted.
    pub fence_value: nat,
    /// Command lists free for reuse, handed out from the back.
    pub available: Seq<nat>,
    /// Command lists handed out since the slot last started, oldest first.
    pub used: Seq<nat>,
    /// Whether commands may be recorded into the slot.
    pub started: bool,
}

impl FrameView {
    /// A slot that never started: no watermark and no command lists.
    pub open spec fn fresh(index: usize) -> FrameView {
        FrameView {
            index,
            fence_value: 0,
            available: Seq::empty(),
            used: Seq::empty(),
            started: false,
        }
    }

    /// Every command list of the slot, the free ones first.
    pub open spec fn lists(self) -> Seq<nat> {
        self.available + self.used
    }

    /// The pool holds each of the lists `0 .. lists().len()` exactly once, so
    /// a list is either free or in use, never both and never twice.
    pub open spec fn wf(self) -> bool {
        &&& forall|i: int| 0 <= i < self.lists().len() ==> #[trigger] self.lists()[i] < self.lists().len()
        &&& forall|i: int, j: int|
            0 <= i < j < self.lists().len() ==> #[trigger] self.lists()[i] != #[trigger] self.lists()[j]
    }

    /// The fence value that has to be reached before the slot may start
    /// again, if the device is only known to have reached `completed`.
    pub open spec fn wait_target(self, completed: nat) -> Option<nat> {
        if self.fence_value > completed {
            Some(self.fence_value)
        } else {
            None
        }
    }

    /// The slot after it started: every list is free again.
    pub open spec fn begun(self) -> FrameView {
        FrameView { available: self.available + self.used, used: Seq::empty(), started: true, ..self }
    }

    /// The slot after its work was submitted with fence value `value`.
    pub open spec fn ended(self, value: nat) -> FrameView {
        FrameView { fence_value: value, started: false, ..self }
    }

    /// The number of the command list that the slot hands out next: that of
    /// the free list pushed last, or the next unused number if none is free.
    pub open spec fn next_index(self) -> nat {
        if self.available.len() == 0 {
            self.used.len()
        } else {
            self.available.last()
        }
    }

    /// The command list that the slot hands out next: the free list pushed
    /// last, or a new one if none is free.
    pub open spec fn next_list(self) -> CommandList {
        CommandList {
            frame: self.index,
            index: self.next_index() as usize,
            recycled: self.available.len() > 0,
        }
    }

    /// The slot after it handed out `next_list()`.
    pub open spec fn acquired(self) -> FrameView {
        if self.available.len() == 0 {
            FrameView { used: self.used.push(self.next_index()), ..self }
        } else {
            FrameView { available: self.available.drop_last(), used: self.used.push(self.next_index()), ..self }
        }
    }
}

/// Starting a slot keeps the pool well formed.
pub proof fn lemma_begun_wf(s: FrameView)
    requires
        s.wf(),
    ensures
        s.begun().wf(),
        s.begun().lists() == s.lists(),
{
    assert(s.begun().lists() =~= s.lists());
}

/// Ending a slot leaves the pool as it was.
pub proof fn lemma_ended_wf(s: FrameView, value: nat)
    requires
        s.wf(),
    ensures
        s.ended(value).wf(),
{
    assert(s.ended(value).lists() =~= s.lists());
}

/// Handing out a command list keeps the pool well formed, and the list handed
/// out was not in use before.
pub proof fn lemma_acquired_wf(s: FrameView)
    requires
        s.wf(),
    ensures
        s.acquired().wf(),
        !s.used.contains(s.next_index()),
        s.acquired().used == s.used.push(s.next_index()),
        s.next_index() < s.acquired().lists().len(),
{
    let t = s.acquired();
    let old_lists = s.lists();
    let new_lists = t.lists();
    let a = s.available.len() as int;
    let u = s.used.len() as int;
    if a == 0 {
        assert(old_lists =~= s.used);
        assert(new_lists =~= s.used.push(u as nat));
        assert forall|k: int| 0 <= k < u implies s.used[k] != u as nat by {
            assert(old_lists[k] < old_lists.len());
        }
    } else {
        let x = s.available.last();
        assert(old_lists[a - 1] == x);
        assert forall|k: int| 0 <= k < new_lists.len() implies #[trigger] new_lists[k] == old_lists[if k < a - 1 {
            k
        } else if k < a - 1 + u {
            k + 1
        } else {
            a - 1
        }] by {}
        assert forall|k: int| 0 <= k < u implies s.used[k] != x by {
            assert(old_lists[a + k] == s.used[k]);
        }
        assert forall|i: int| 0 <= i < new_lists.len() implies #[trigger] new_lists[i] < new_lists.len() by {
            let pi = if i < a - 1 { i } else if i < a - 1 + u { i + 1 } else { a - 1 };
            assert(new_lists[i] == old_lists[pi]);
        }
        assert forall|i: int, j: int| 0 <= i < j < new_lists.len() implies #[trigger] new_lists[i]
            != #[trigger] new_lists[j] by {
            let pi = if i < a - 1 { i } else if i < a - 1 + u { i + 1 } else { a - 1 };
            let pj = if j < a - 1 { j } else if j < a - 1 + u { j + 1 } else { a - 1 };
            assert(new_lists[i] == old_lists[pi]);
            assert(new_lists[j] == old_lists[pj]);
            assert(pi != pj);
            if pi < pj {
                assert(old_lists[pi] != old_lists[pj]);
            } else {
                assert(old_lists[pj] != old_lists[pi]);
            }
        }
    }
}

/// One frame slot: the watermark of its last submission and its pool of
/// command lists.
pub struct Frame {
    index: usize,
    fence_value: u64,
    available_command_lists: Vec<usize>,
    used_command_lists: Vec<usize>,
    started: bool,
}

impl View for Frame {
    type V = FrameView;

    closed spec fn view(&self) -> FrameView {
        FrameView {
            index: self.index,
            fence_value: self.fence_value as nat,
            available: self.available_command_lists@.map_values(|list: usize| list as nat),
            used: self.used_command_lists@.map_values(|list: usize| list as nat),
            started: self.started,
        }
    }
}

impl Frame {
    /// A slot that never submitted anything and owns no command list yet.
    pub fn new(index: usize) -> (frame: Frame)
        ensures
            frame@ == FrameView::fresh(index),
    {
        let frame = Frame {
            index,
            fence_value: 0,
            available_command_lists: Vec::new(),
            used_command_lists: Vec::new(),
            started: false,
        };
        assert(frame@.available =~= Seq::<nat>::empty());
        assert(frame@.used =~= Seq::<nat>::empty());
        frame
    }

    /// Position of the slot in the manager's array.
    pub fn index(&self) -> (index: usize)
        ensures
            index == self@.index,
    {
        self.index
    }

    /// Fence value of the slot's last submission, 0 if there was none.
    pub fn fence_value(&self) -> (value: u64)
        ensures
            value == self@.fence_value,
    {
        self.fence_value
    }

    /// Whether the slot is between its start and its end.
    pub fn is_started(&self) -> (started: bool)
        ensures
            started == self@.started,
    {
        self.started
    }

    /// The fence value that the caller has to wait for before this slot's
    /// previous submission is known complete, given that the fence is known
    /// to have reached `completed`. `None` if there is nothing to wait for:
    /// the slot never submitted, or its submission has completed.
    pub fn wait(&self, completed: u64) -> (target: Option<u64>)
        ensures
            target is Some <==> self@.fence_value > completed,
            target is Some ==> target->0 == self@.fence_value,
    {
        if self.fence_value > completed {
            Some(self.fence_value)
        } else {
            None
        }
    }

    /// Starts the slot if its previous submission has completed.
    ///
    /// `completed` is the last fence value that the device is known to have
    /// reached. While the slot's watermark is beyond it the slot is left
    /// untouched and the watermark is returned: the caller waits for it and
    /// tries again. Otherwise the slot's command allocator may be reset, all
    /// command lists of the slot are free again and recording may begin.
    pub fn start_new(&mut self, completed: u64) -> (blocked_on: Option<u64>)
        requires
            !old(self)@.started,
        ensures
            blocked_on is Some <==> old(self)@.fence_value > completed,
            blocked_on is Some ==> blocked_on->0 == old(self)@.fence_value && *final(self) == *old(
                self,
            ),
            blocked_on is None ==> final(self)@ == old(self)@.begun(),
    {
        let blocked_on = self.wait(completed);
        if blocked_on.is_none() {
            self.available_command_lists.append(&mut self.used_command_lists);
            self.started = true;
            assert(self@.available =~= old(self)@.available + old(self)@.used);
            assert(self@.used =~= Seq::<nat>::empty());
        }
        blocked_on
    }

    /// Ends the slot: its work was submitted and the queue signals
    /// `next_fence_value` when the device has finished it.
    pub fn end(&mut self, next_fence_value: u64)
        requires
            old(self)@.started,
        ensures
            final(self)@ == old(self)@.ended(next_fence_value as nat),
    {
        self.fence_value = next_fence_value;
        self.started = false;
    }

    /// Hands out a command list for recording: the free list that was
    /// returned to the pool last, or a new one if none is free. The list is
    /// in use from then on and was not in use before.
    pub fn new_command_list(&mut self) -> (list: CommandList)
        requires
            old(self)@.started,
        ensures
            list == old(self)@.next_list(),
            list.index == old(self)@.next_index(),
            final(self)@ == old(self)@.acquired(),
            old(self)@.wf() ==> final(self)@.wf() && !old(self)@.used.contains(list.index as nat),
    {
        let list = if self.available_command_lists.is_empty() {
            let index: usize = self.used_command_lists.len();
            self.used_command_lists.push(index);
            CommandList { frame: self.index, index, recycled: false }
        } else {
            let index: usize = self.available_command_lists.pop().unwrap();
            self.used_command_lists.push(index);
            CommandList { frame: self.index, index, recycled: true }
        };
        proof {
            assert(self@.used =~= old(self)@.used.push(list.index as nat));
            assert(self@.available =~= (if old(self)@.available.len() == 0 {
                old(self)@.available
            } else {
                old(self)@.available.drop_last()
            }));
            if old(self)@.wf() {
                lemma_acquired_wf(old(self)@);
            }
        }
        list
    }
}

} // verus!
