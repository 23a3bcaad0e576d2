use std::collections::VecDeque;
use vstd::prelude::*;

verus! {

/// The smaller of two naturals.
pub open spec fn at_most(a: nat, b: nat) -> nat {
    if a <= b {
        a
    } else {
        b
    }
}

/// A bounded FIFO of bytes: one producer appends, one consumer takes from the front.
pub struct RingBuffer {
    data: VecDeque<u8>,
    capacity: usize,
}

impl View for RingBuffer {
    type V = Seq<u8>;

    closed spec fn view(&self) -> Seq<u8> {
        self.data@
    }
}

impl RingBuffer {
    /// The most bytes the buffer holds at once.
    pub closed spec fn cap(&self) -> nat {
        self.capacity as nat
    }

    pub closed spec fn wf(&self) -> bool {
        self.data@.len() <= self.capacity
    }

    /// Free room left for the producer.
    pub open spec fn room(&self) -> nat {
        (self.cap() - self@.len()) as nat
    }

    /// A well-formed buffer holds no more than its capacity.
    pub proof fn lemma_fits(&self)
        requires
            self.wf(),
        ensures
            self@.len() <= self.cap(),
            self.room() + self@.len() == self.cap(),
    {
    }

    pub fn new(capacity: usize) -> (r: RingBuffer)
        ensures
            r.wf(),
            r@ == Seq::<u8>::empty(),
            r.cap() == capacity,
    {
        RingBuffer { data: VecDeque::new(), capacity }
    }

    pub fn len(&self) -> (r: usize)
        requires
            self.wf(),
        ensures
            r == self@.len(),
    {
        self.data.len()
    }

    pub fn capacity(&self) -> (r: usize)
        ensures
            r == self.cap(),
    {
        self.capacity
    }

    pub fn is_empty(&self) -> (r: bool)
        requires
            self.wf(),
        ensures
            r == (self@.len() == 0),
    {
        self.data.len() == 0
    }

    /// Appends as many bytes of `src` as there is room for, from its front, and returns
    /// how many were taken. Never blocks: a producer that gets fewer than it offered
    /// waits and offers the rest again.
    pub fn write(&mut self, src: &[u8]) -> (n: usize)
        requires
            old(self).wf(),
        ensures
            final(self).wf(),
            final(self).cap() == old(self).cap(),
            n == at_most(src@.len(), old(self).room()),
            final(self)@ == old(self)@ + src@.subrange(0, n as int),
    {
        let room: usize = self.capacity - self.data.len();
        let n: usize = if src.len() <= room {
            src.len()
        } else {
            room
        };
        let mut i: usize = 0;
        while i < n
            invariant
                i <= n,
                n <= src@.len(),
                n <= room,
                room == self.capacity - old(self)@.len(),
                self.capacity == old(self).capacity,
                old(self)@.len() <= self.capacity,
                self.data@ == old(self)@ + src@.subrange(0, i as int),
            decreases n - i,
        {
            self.data.push_back(src[i]);
            i = i + 1;
            assert(src@.subrange(0, i as int) == src@.subrange(0, i - 1) + seq![src@[i - 1]]);
        }
        n
    }

    /// Takes up to `max` bytes from the front, without blocking; none when empty.
    pub fn try_read(&mut self, max: usize) -> (r: Vec<u8>)
        requires
            old(self).wf(),
        ensures
            final(self).wf(),
            final(self).cap() == old(self).cap(),
            r@.len() == at_most(max as nat, old(self)@.len()),
            r@ == old(self)@.subrange(0, r@.len() as int),
            final(self)@ == old(self)@.subrange(r@.len() as int, old(self)@.len() as int),
    {
        let mut out: Vec<u8> = Vec::new();
        let k: usize = if max <= self.data.len() {
            max
        } else {
            self.data.len()
        };
        while out.len() < k
            invariant
                k == at_most(max as nat, old(self)@.len()),
                out@.len() <= k,
                self.capacity == old(self).capacity,
                out@ == old(self)@.subrange(0, out@.len() as int),
                self.data@ == old(self)@.subrange(out@.len() as int, old(self)@.len() as int),
            decreases k - out@.len(),
        {
            let b = self.data.pop_front();
            match b {
                Some(x) => {
                    out.push(x);
                },
                None => {},
            }
            assert(out@ == old(self)@.subrange(0, out@.len() as int));
        }
        out
    }

    /// Discards every byte held.
    pub fn drain(&mut self)
        requires
            old(self).wf(),
        ensures
            final(self).wf(),
            final(self).cap() == old(self).cap(),
            final(self)@ == Seq::<u8>::empty(),
    {
        self.data.clear();
    }
}

} // verus!
