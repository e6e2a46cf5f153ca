//! A fixed-capacity ring buffer of micro-operations.
use vstd::prelude::*;
use super::ops::MicroOp;

verus! {

pub const QUEUE_CAPACITY: usize = 8;

/// The micro-operations still to run for the current instruction, front first.
pub struct InstructionQueue {
    ops: [MicroOp; 8],
    front: usize,
    len: usize,
}

impl View for InstructionQueue {
    type V = Seq<MicroOp>;

    closed spec fn view(&self) -> Seq<MicroOp> {
        Seq::new(self.len as nat, |i: int| self.ops@[(self.front + i) % 8])
    }
}

impl InstructionQueue {
    pub closed spec fn wf(&self) -> bool {
        self.front < 8 && self.len <= 8
    }

    pub fn new() -> (q: Self)
        ensures
            q.wf(),
            q@ == Seq::<MicroOp>::empty(),
    {
        let q = Self { ops: [MicroOp::Empty; 8], front: 0, len: 0 };
        assert(q@ =~= Seq::<MicroOp>::empty());
        q
    }

    pub fn len(&self) -> (n: usize)
        requires
            self.wf(),
        ensures
            n == self@.len(),
            n <= QUEUE_CAPACITY,
    {
        self.len
    }

    pub fn push_back(&mut self, op: MicroOp)
        requires
            old(self).wf(),
            old(self)@.len() < QUEUE_CAPACITY,
        ensures
            final(self).wf(),
            final(self)@ == old(self)@.push(op),
    {
        let back = (self.front + self.len) % 8;
        self.ops[back] = op;
        self.len = self.len + 1;
        assert(self@ =~= old(self)@.push(op));
    }

    pub fn push_front(&mut self, op: MicroOp)
        requires
            old(self).wf(),
            old(self)@.len() < QUEUE_CAPACITY,
        ensures
            final(self).wf(),
            final(self)@ == seq![op] + old(self)@,
    {
        self.front = if self.front == 0 {
            7
        } else {
            self.front - 1
        };
        self.ops[self.front] = op;
        self.len = self.len + 1;
        assert forall|i: int| 0 <= i < self.len implies #[trigger] self@[i] == (seq![op] + old(
            self,
        )@)[i] by {
            if i > 0 {
                assert((self.front + i) % 8 == (old(self).front + (i - 1)) % 8);
            }
        }
        assert(self@ =~= seq![op] + old(self)@);
    }

    pub fn pop_front(&mut self) -> (r: Option<MicroOp>)
        requires
            old(self).wf(),
        ensures
            final(self).wf(),
            old(self)@.len() == 0 ==> r is None && final(self)@ == old(self)@,
            old(self)@.len() > 0 ==> r == Some(old(self)@[0]) && final(self)@ == old(
                self,
            )@.drop_first(),
    {
        if self.len == 0 {
            return None;
        }
        let op = self.ops[self.front];
        self.front = (self.front + 1) % 8;
        self.len = self.len - 1;
        assert forall|i: int|
            0 <= i < self.len implies #[trigger] self@[i] == old(self)@.drop_first()[i] by {
            assert((self.front + i) % 8 == (old(self).front + (i + 1)) % 8);
        }
        assert(self@ =~= old(self)@.drop_first());
        Some(op)
    }

    /// The next micro-operation, if any, without removing it.
    pub fn peek_front(&self) -> (r: Option<MicroOp>)
        requires
            self.wf(),
        ensures
            self@.len() == 0 ==> r is None,
            self@.len() > 0 ==> r == Some(self@[0]),
    {
        if self.len == 0 {
            None
        } else {
            Some(self.ops[self.front])
        }
    }

    /// The queued micro-operations, front first.
    pub fn to_vec(&self) -> (v: Vec<MicroOp>)
        requires
            self.wf(),
        ensures
            v@ == self@,
    {
        let mut v: Vec<MicroOp> = Vec::new();
        let mut i: usize = 0;
        while i < self.len
            invariant
                self.wf(),
                i <= self.len,
                v@ == self@.subrange(0, i as int),
            decreases self.len - i,
        {
            v.push(self.ops[(self.front + i) % 8]);
            i = i + 1;
            assert(v@ =~= self@.subrange(0, i as int));
        }
        assert(self@.subrange(0, self.len as int) =~= self@);
        v
    }

    pub fn is_empty(&self) -> (b: bool)
        requires
            self.wf(),
        ensures
            b == (self@.len() == 0),
    {
        self.len == 0
    }

    pub fn clear(&mut self)
        ensures
            final(self).wf(),
            final(self)@ == Seq::<MicroOp>::empty(),
    {
        self.front = 0;
        self.len = 0;
        assert(self@ =~= Seq::<MicroOp>::empty());
    }
}

} // verus!
