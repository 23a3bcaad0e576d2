use crate::ring::{at_most, RingBuffer};
use vstd::prelude::*;

verus! {

/// How many bytes a broadcast pump takes from a buffer per send.
pub const STEP_BYTES: usize = 4096;

/// Bytes held for each output of a prepared track.
pub const PREBUFFER_BYTES: usize = 500000;

/// One output of one prepared track: the bytes the transcoder has produced and the
/// pump has not yet sent, and a flag that ends production.
pub struct PreBuffer {
    ring: RingBuffer,
    cancelled: bool,
    /// Every byte the producer has had accepted, in order.
    produced: Ghost<Seq<u8>>,
    /// Every byte handed to the consumer, in order.
    delivered: Ghost<Seq<u8>>,
}

impl PreBuffer {
    pub closed spec fn pending(&self) -> Seq<u8> {
        self.ring@
    }

    pub closed spec fn is_cancelled(&self) -> bool {
        self.cancelled
    }

    pub closed spec fn produced(&self) -> Seq<u8> {
        self.produced@
    }

    pub closed spec fn delivered(&self) -> Seq<u8> {
        self.delivered@
    }

    /// Free room left for the producer.
    pub open spec fn room(&self) -> nat {
        (PREBUFFER_BYTES - self.pending().len()) as nat
    }

    pub closed spec fn wf(&self) -> bool {
        &&& self.ring.wf()
        &&& self.ring.cap() == PREBUFFER_BYTES
        &&& (self.delivered@ + self.ring@).is_prefix_of(self.produced@)
        &&& !self.cancelled ==> self.produced@ == self.delivered@ + self.ring@
    }

    /// How many bytes of `src` an offer takes: none once cancelled, else what fits.
    pub open spec fn accepts(&self, src: Seq<u8>) -> nat {
        if self.is_cancelled() {
            0
        } else {
            at_most(src.len(), self.room())
        }
    }

    /// A prepared output is done when it is cancelled and nothing is left to send.
    pub open spec fn done(&self) -> bool {
        self.is_cancelled() && self.pending().len() == 0
    }

    pub fn new() -> (r: PreBuffer)
        ensures
            r.wf(),
            !r.is_cancelled(),
            r.pending() == Seq::<u8>::empty(),
            r.room() == PREBUFFER_BYTES,
            r.produced() == Seq::<u8>::empty(),
            r.delivered() == Seq::<u8>::empty(),
    {
        PreBuffer {
            ring: RingBuffer::new(PREBUFFER_BYTES),
            cancelled: false,
            produced: Ghost(Seq::empty()),
            delivered: Ghost(Seq::empty()),
        }
    }

    pub fn len(&self) -> (r: usize)
        requires
            self.wf(),
        ensures
            r == self.pending().len(),
    {
        self.ring.len()
    }

    pub fn cancelled(&self) -> (r: bool)
        ensures
            r == self.is_cancelled(),
    {
        self.cancelled
    }

    pub fn is_done(&self) -> (r: bool)
        requires
            self.wf(),
        ensures
            r == self.done(),
    {
        self.cancelled && self.ring.is_empty()
    }

    /// The producer's side: appends the front of `src` that fits, unless cancelled,
    /// and returns how many bytes were taken.
    pub fn offer(&mut self, src: &[u8]) -> (n: usize)
        requires
            old(self).wf(),
        ensures
            final(self).wf(),
            n == old(self).accepts(src@),
            final(self).is_cancelled() == old(self).is_cancelled(),
            final(self).pending() == old(self).pending() + src@.subrange(0, n as int),
            final(self).produced() == old(self).produced() + src@.subrange(0, n as int),
            final(self).delivered() == old(self).delivered(),
    {
        if self.cancelled {
            assert(src@.subrange(0, 0) =~= Seq::<u8>::empty());
            assert(self.ring@ + src@.subrange(0, 0) =~= self.ring@);
            assert(self.produced@ + src@.subrange(0, 0) =~= self.produced@);
            return 0;
        }
        let n = self.ring.write(src);
        proof {
            let w = src@.subrange(0, n as int);
            let d = self.delivered@;
            let p = self.produced@;
            assert(p + w =~= d + (old(self).ring@ + w));
            self.produced = Ghost(p + w);
            assert((d + self.ring@).is_prefix_of(p + w));
        }
        n
    }

    /// The producer's side at the end of its input: no more bytes will come, and
    /// what is held is still sent.
    pub fn close(&mut self)
        requires
            old(self).wf(),
        ensures
            final(self).wf(),
            final(self).is_cancelled(),
            final(self).pending() == old(self).pending(),
            final(self).produced() == old(self).produced(),
            final(self).delivered() == old(self).delivered(),
    {
        self.cancelled = true;
    }

    /// The consumer's side: the next chunk of at most `STEP_BYTES` bytes to send, or
    /// `None` when nothing is held and the pump should wait.
    pub fn next_chunk(&mut self) -> (r: Option<Vec<u8>>)
        requires
            old(self).wf(),
        ensures
            final(self).wf(),
            final(self).is_cancelled() == old(self).is_cancelled(),
            final(self).produced() == old(self).produced(),
            match r {
                None => {
                    &&& old(self).pending().len() == 0
                    &&& final(self).pending() == old(self).pending()
                    &&& final(self).delivered() == old(self).delivered()
                },
                Some(c) => {
                    &&& c@.len() == at_most(STEP_BYTES as nat, old(self).pending().len())
                    &&& c@.len() > 0
                    &&& old(self).pending() == c@ + final(self).pending()
                    &&& final(self).delivered() == old(self).delivered() + c@
                },
            },
    {
        if self.ring.is_empty() {
            return None;
        }
        let c = self.ring.try_read(STEP_BYTES);
        proof {
            let d = self.delivered@;
            let p = self.produced@;
            let old_pending = old(self).ring@;
            assert(old_pending =~= c@ + self.ring@);
            self.delivered = Ghost(d + c@);
            assert((d + c@) + self.ring@ =~= d + old_pending);
        }
        Some(c)
    }

    /// Stops production and throws away what is held, so that a producer waiting
    /// for room sees the flag and ends.
    pub fn cancel(&mut self)
        requires
            old(self).wf(),
        ensures
            final(self).wf(),
            final(self).done(),
            final(self).produced() == old(self).produced(),
            final(self).delivered() == old(self).delivered(),
    {
        self.cancelled = true;
        self.ring.drain();
        assert(self.delivered@ + self.ring@ =~= self.delivered@);
        assert forall|i: int| 0 <= i < self.delivered@.len() implies self.delivered@[i]
            == self.produced@[i] by {
            assert(self.delivered@[i] == (old(self).delivered@ + old(self).ring@)[i]);
        }
    }
}

/// A prepared output never holds more than `PREBUFFER_BYTES` bytes.
pub proof fn pending_fits(pb: &PreBuffer)
    requires
        pb.wf(),
    ensures
        pb.pending().len() <= PREBUFFER_BYTES,
        pb.room() + pb.pending().len() == PREBUFFER_BYTES,
{
    pb.ring.lemma_fits();
}

/// Bytes reach the sink in the order in which the transcoder wrote them: what was
/// delivered is always a prefix of what was produced, and while production goes on
/// the bytes still held are exactly the rest.
pub proof fn delivered_in_order(pb: &PreBuffer)
    requires
        pb.wf(),
    ensures
        pb.delivered().is_prefix_of(pb.produced()),
        (pb.delivered() + pb.pending()).is_prefix_of(pb.produced()),
        !pb.is_cancelled() ==> pb.produced() == pb.delivered() + pb.pending(),
{
    let d = pb.delivered();
    let dp = d + pb.pending();
    assert forall|i: int| 0 <= i < d.len() implies d[i] == pb.produced()[i] by {
        assert(d[i] == dp[i]);
    }
}

/// After a cancel the buffer is empty and stays so: every later offer is refused.
pub proof fn cancelled_accepts_nothing(pb: &PreBuffer, src: Seq<u8>)
    requires
        pb.wf(),
        pb.done(),
    ensures
        pb.accepts(src) == 0,
        pb.pending().len() == 0,
{
}

} // verus!
