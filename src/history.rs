use std::collections::VecDeque;
use vstd::prelude::*;

verus! {

/// The abstract value of a history: the retained surfaces, oldest first, and
/// how many entries at the tail are currently undone.
pub struct HistoryState<T> {
    pub stack: Seq<T>,
    pub undos: nat,
}

/// One operation on a history, used to speak of sequences of operations.
pub enum HistoryOp<T> {
    PushEdit(T),
    Undo,
    Redo,
    DiscardRedoTail,
}

impl<T> HistoryState<T> {
    /// Some entry is addressable as current whenever the stack is not empty.
    pub open spec fn wf(self) -> bool {
        if self.stack.len() == 0 {
            self.undos == 0
        } else {
            self.undos < self.stack.len()
        }
    }

    /// The bounds that a history with capacity `cap` keeps.
    pub open spec fn bounded(self, cap: int) -> bool {
        &&& 1 <= self.stack.len() <= cap + 1
        &&& self.undos < self.stack.len()
    }

    pub open spec fn current_index(self) -> int {
        self.stack.len() - 1 - self.undos
    }

    pub open spec fn current(self) -> T {
        self.stack[self.current_index()]
    }

    /// Appends `t` as the new tip, evicting the oldest entry when the stack
    /// would exceed `cap + 1` entries, and forgets every undone step.
    pub open spec fn pushed(self, cap: int, t: T) -> Self {
        let s = self.stack.push(t);
        HistoryState { stack: if s.len() > cap + 1 { s.drop_first() } else { s }, undos: 0 }
    }

    /// One more undone step, never past the oldest retained entry.
    pub open spec fn undone(self) -> Self {
        HistoryState {
            stack: self.stack,
            undos: if self.undos + 1 < self.stack.len() { self.undos + 1 } else { self.undos },
        }
    }

    /// One less undone step, never below zero.
    pub open spec fn redone(self) -> Self {
        HistoryState { stack: self.stack, undos: if self.undos > 0 { (self.undos - 1) as nat } else { 0 } }
    }

    /// The undone entries removed from the tail.
    pub open spec fn tail_discarded(self) -> Self {
        HistoryState { stack: self.stack.take(self.stack.len() - self.undos), undos: 0 }
    }

    pub open spec fn step(self, cap: int, op: HistoryOp<T>) -> Self {
        match op {
            HistoryOp::PushEdit(t) => self.pushed(cap, t),
            HistoryOp::Undo => self.undone(),
            HistoryOp::Redo => self.redone(),
            HistoryOp::DiscardRedoTail => self.tail_discarded(),
        }
    }

    pub open spec fn run(self, cap: int, ops: Seq<HistoryOp<T>>) -> Self
        decreases ops.len(),
    {
        if ops.len() == 0 {
            self
        } else {
            self.step(cap, ops[0]).run(cap, ops.drop_first())
        }
    }
}

/// A single operation keeps a history within its bounds.
pub proof fn lemma_step_bounded<T>(st: HistoryState<T>, cap: int, op: HistoryOp<T>)
    requires
        0 <= cap,
        st.bounded(cap),
    ensures
        st.step(cap, op).bounded(cap),
{
}

/// Whatever sequence of pushes, undos, redos and tail discards is applied, a
/// history of capacity `cap` holds between 1 and `cap + 1` entries, and fewer
/// undone steps than entries, so that its current entry lies in the stack.
pub proof fn lemma_ops_keep_bounds<T>(st: HistoryState<T>, cap: int, ops: Seq<HistoryOp<T>>)
    requires
        0 <= cap,
        st.bounded(cap),
    ensures
        st.run(cap, ops).bounded(cap),
        0 <= st.run(cap, ops).current_index() < st.run(cap, ops).stack.len(),
    decreases ops.len(),
{
    if ops.len() > 0 {
        lemma_step_bounded(st, cap, ops[0]);
        lemma_ops_keep_bounds(st.step(cap, ops[0]), cap, ops.drop_first());
    }
}

/// A new edit forgets the undone steps: after an undo, a push of `x` and a
/// redo, the redo does nothing and `x` is current.
pub proof fn lemma_push_clears_redo<T>(st: HistoryState<T>, cap: int, x: T)
    requires
        0 <= cap,
        st.wf(),
    ensures
        st.undone().pushed(cap, x).redone() == st.undone().pushed(cap, x),
        st.undone().pushed(cap, x).redone().current() == x,
{
}

/// From a history with nothing undone and at least three entries, two undos
/// followed by a tail discard remove exactly the two newest entries, leave no
/// undone step, and keep as current the entry that the undos reached.
pub proof fn lemma_discard_after_two_undos<T>(st: HistoryState<T>)
    requires
        st.undos == 0,
        st.stack.len() >= 3,
    ensures
        st.undone().undone().tail_discarded().stack == st.stack.take(st.stack.len() - 2),
        st.undone().undone().tail_discarded().undos == 0,
        st.undone().undone().tail_discarded().current() == st.undone().undone().current(),
{
}

/// A bounded undo/redo stack of surfaces.
pub struct History<T> {
    pub stack: VecDeque<T>,
    pub max_undos: i32,
    undos: usize,
}

impl<T> History<T> {
    /// The retained surfaces and the number of undone steps.
    pub closed spec fn state(&self) -> HistoryState<T> {
        HistoryState { stack: self.stack@, undos: self.undos as nat }
    }

    /// The number of undo steps that the history keeps.
    pub closed spec fn capacity(&self) -> int {
        self.max_undos as int
    }

    pub open spec fn wf(&self) -> bool {
        &&& self.state().wf()
        &&& 0 <= self.capacity()
    }

    /// An empty history that keeps up to ten undo steps.
    pub fn new() -> (r: Self)
        ensures
            r.wf(),
            r.state().stack.len() == 0,
            r.state().undos == 0,
            r.capacity() == 10,
    {
        History { stack: VecDeque::new(), max_undos: 10, undos: 0 }
    }

    /// Commits `texture` as the newest edit.
    pub fn push_back(&mut self, texture: T)
        requires
            old(self).wf(),
        ensures
            final(self).wf(),
            final(self).capacity() == old(self).capacity(),
            final(self).state() == old(self).state().pushed(old(self).capacity(), texture),
    {
        self.stack.push_back(texture);
        if self.stack.len() > self.max_undos as usize + 1 {
            let _ = self.stack.pop_front();
        }
        self.undos = 0;
    }

    /// Removes the newest entry. The number of undone steps shrinks only as
    /// far as needed to keep an entry current.
    pub fn pop_back(&mut self)
        requires
            old(self).wf(),
        ensures
            final(self).wf(),
            final(self).capacity() == old(self).capacity(),
            old(self).state().stack.len() > 0 ==> final(self).state().stack == old(
                self,
            ).state().stack.drop_last(),
            old(self).state().stack.len() == 0 ==> final(self).state() == old(self).state(),
            final(self).state().undos == if final(self).state().stack.len() == 0 {
                0
            } else if old(self).state().undos < final(self).state().stack.len() {
                old(self).state().undos
            } else {
                (final(self).state().stack.len() - 1) as nat
            },
    {
        let _ = self.stack.pop_back();
        let len = self.stack.len();
        if len == 0 {
            self.undos = 0;
        } else if self.undos >= len {
            self.undos = len - 1;
        }
    }

    /// Sets how many undo steps the history keeps. Entries beyond the new
    /// bound stay until later pushes evict them.
    pub fn set_capacity(&mut self, n: i32)
        requires
            old(self).wf(),
            n >= 0,
        ensures
            final(self).wf(),
            final(self).capacity() == n as int,
            final(self).state() == old(self).state(),
    {
        self.max_undos = n;
    }

    /// Removes the oldest entry. The number of undone steps shrinks only as
    /// far as needed to keep an entry current.
    pub fn pop_front(&mut self)
        requires
            old(self).wf(),
        ensures
            final(self).wf(),
            final(self).capacity() == old(self).capacity(),
            old(self).state().stack.len() > 0 ==> final(self).state().stack == old(
                self,
            ).state().stack.drop_first(),
            old(self).state().stack.len() == 0 ==> final(self).state() == old(self).state(),
            final(self).state().undos == if final(self).state().stack.len() == 0 {
                0
            } else if old(self).state().undos < final(self).state().stack.len() {
                old(self).state().undos
            } else {
                (final(self).state().stack.len() - 1) as nat
            },
    {
        let _ = self.stack.pop_front();
        let len = self.stack.len();
        if len == 0 {
            self.undos = 0;
        } else if self.undos >= len {
            self.undos = len - 1;
        }
    }

    /// The entry that is current: the newest one that is not undone.
    pub fn get_current(&self) -> (r: &T)
        requires
            self.wf(),
            self.state().stack.len() > 0,
        ensures
            *r == self.state().current(),
    {
        let index = self.stack.len() - 1 - self.undos;
        &self.stack[index]
    }

    /// Undoes one more step, never past the oldest retained entry.
    pub fn undo(&mut self)
        requires
            old(self).wf(),
        ensures
            final(self).wf(),
            final(self).capacity() == old(self).capacity(),
            final(self).state() == old(self).state().undone(),
    {
        if self.stack.len() > 0 && self.undos < self.stack.len() - 1 {
            self.undos = self.undos + 1;
        }
    }

    /// Redoes one undone step, if there is one.
    pub fn redo(&mut self)
        requires
            old(self).wf(),
        ensures
            final(self).wf(),
            final(self).capacity() == old(self).capacity(),
            final(self).state() == old(self).state().redone(),
    {
        if self.undos > 0 {
            self.undos = self.undos - 1;
        }
    }

    /// Removes the undone entries from the tail, so that they can no longer
    /// be redone.
    pub fn pop_undos(&mut self)
        requires
            old(self).wf(),
        ensures
            final(self).wf(),
            final(self).capacity() == old(self).capacity(),
            final(self).state() == old(self).state().tail_discarded(),
    {
        let ghost start = self.stack@;
        let mut i: usize = 0;
        while i < self.undos
            invariant
                self.undos == old(self).undos,
                self.max_undos == old(self).max_undos,
                start == old(self).stack@,
                old(self).state().wf(),
                i <= self.undos,
                self.stack@ == start.take(start.len() - i),
            decreases self.undos - i,
        {
            let _ = self.stack.pop_back();
            i = i + 1;
        }
        self.undos = 0;
    }

    /// The number of undone steps that a redo can bring back.
    pub fn redo_count(&self) -> (r: usize)
        ensures
            r == self.state().undos,
    {
        self.undos
    }
}

} // verus!
