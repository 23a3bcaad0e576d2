use crate::entry::{ApiMessage, QueueEntry, QueuePos};
use vstd::prelude::*;

verus! {

/// Real sources tried for one prepared set before the fallback is used. A failure
/// of the random source counts as one of these attempts like any other, so an
/// unreachable random source leads to the fallback rather than to a halt.
pub const MAX_ATTEMPTS: u32 = 5;

/// What a prepared set was built from.
#[derive(Debug, Clone, Copy, PartialEq, Eq, Structural)]
pub enum Origin {
    /// The queue entry with this identifier, which stands at the head of the queue.
    Queued(i64),
    /// A track of the random source, prepared while the queue was empty.
    Random,
    /// The configured fallback payload.
    Fallback,
}

/// The outputs of one upcoming track, one per configured stream, in stream order,
/// and the track's length in milliseconds (zero when unknown).
pub struct Prepared<P> {
    pub dur_ms: u64,
    pub origin: Origin,
    pub bufs: Vec<P>,
}

/// Where the next prebuild attempt takes its source from.
pub enum Attempt {
    Queued { id: i64, path: String },
    Random,
    Fallback,
}

/// What the scheduler does after an operator message.
pub enum Reaction<P> {
    /// Cancel every output of the current track and move on.
    Skip,
    /// Cancel these outputs of a prepared set that no longer fits the queue.
    Cancel(Vec<P>),
}

/// The ordered queue of tracks and the prepared outputs of the one that plays next.
pub struct Queue<P> {
    pub next: Option<Prepared<P>>,
    pub entries: Vec<QueueEntry>,
    /// Length of the track most recently promoted, in milliseconds.
    pub dur_ms: u64,
    /// Source of diagnostic identifiers for prebuilds.
    pub counter: u64,
    /// Number of configured output streams.
    pub streams: usize,
}

/// The outputs held in a prepared slot.
pub open spec fn bufs_of<P>(nx: Option<Prepared<P>>) -> Seq<P> {
    match nx {
        Some(p) => p.bufs@,
        None => Seq::<P>::empty(),
    }
}

/// A prepared set of this origin is the one that plays next for these entries.
pub open spec fn coherent(o: Origin, es: Seq<QueueEntry>) -> bool {
    match o {
        Origin::Queued(id) => es.len() > 0 && es[0].id == id,
        Origin::Random => es.len() == 0,
        Origin::Fallback => true,
    }
}

/// The source of the prebuild attempt numbered `tries` (from zero).
pub open spec fn planned(es: Seq<QueueEntry>, tries: nat) -> Origin {
    if tries >= MAX_ATTEMPTS {
        Origin::Fallback
    } else if es.len() > 0 {
        Origin::Queued(es[0].id)
    } else {
        Origin::Random
    }
}

/// Entries, prepared slot and outputs to cancel after an append.
pub open spec fn push_model<P>(es: Seq<QueueEntry>, nx: Option<Prepared<P>>, qe: QueueEntry) -> (
    Seq<QueueEntry>,
    Option<Prepared<P>>,
    Seq<P>,
) {
    if es.len() == 0 {
        (es.push(qe), None, bufs_of(nx))
    } else {
        (es.push(qe), nx, Seq::<P>::empty())
    }
}

/// Entries, prepared slot and outputs to cancel after an insert at the head.
pub open spec fn push_head_model<P>(
    es: Seq<QueueEntry>,
    nx: Option<Prepared<P>>,
    qe: QueueEntry,
) -> (Seq<QueueEntry>, Option<Prepared<P>>, Seq<P>) {
    (seq![qe] + es, None, bufs_of(nx))
}

/// Entries, prepared slot and outputs to cancel after removing the last entry.
pub open spec fn pop_model<P>(es: Seq<QueueEntry>, nx: Option<Prepared<P>>) -> (
    Seq<QueueEntry>,
    Option<Prepared<P>>,
    Seq<P>,
) {
    if es.len() == 0 {
        (es, nx, Seq::<P>::empty())
    } else if es.len() == 1 {
        (Seq::<QueueEntry>::empty(), None, bufs_of(nx))
    } else {
        (es.drop_last(), nx, Seq::<P>::empty())
    }
}

/// Entries, prepared slot and outputs to cancel after removing the first entry.
pub open spec fn pop_head_model<P>(es: Seq<QueueEntry>, nx: Option<Prepared<P>>) -> (
    Seq<QueueEntry>,
    Option<Prepared<P>>,
    Seq<P>,
) {
    if es.len() == 0 {
        (es, nx, Seq::<P>::empty())
    } else {
        (es.subrange(1, es.len() as int), None, bufs_of(nx))
    }
}

/// Entries, prepared slot and outputs to cancel after a clear: whatever set was
/// prepared goes, so that the next track is prepared afresh for the empty queue.
pub open spec fn clear_model<P>(es: Seq<QueueEntry>, nx: Option<Prepared<P>>) -> (
    Seq<QueueEntry>,
    Option<Prepared<P>>,
    Seq<P>,
) {
    (Seq::<QueueEntry>::empty(), None, bufs_of(nx))
}

/// Entries, prepared slot and outputs to cancel after the source of entry `id`
/// could not be used: the entry leaves the queue if it stands at the head.
pub open spec fn drop_failed_model<P>(es: Seq<QueueEntry>, nx: Option<Prepared<P>>, id: i64) -> (
    Seq<QueueEntry>,
    Option<Prepared<P>>,
    Seq<P>,
) {
    if es.len() > 0 && es[0].id == id {
        pop_head_model(es, nx)
    } else {
        (es, nx, Seq::<P>::empty())
    }
}

/// The entries left after `k` attempts in a row have failed on the head entry:
/// each failure takes the failing head off the queue.
pub open spec fn fail_heads(es: Seq<QueueEntry>, k: nat) -> Seq<QueueEntry>
    decreases k,
{
    if k == 0 {
        es
    } else {
        let e1 = fail_heads(es, (k - 1) as nat);
        if e1.len() > 0 {
            e1.subrange(1, e1.len() as int)
        } else {
            e1
        }
    }
}

/// Entries, prepared slot and outputs to cancel after an operator message.
pub open spec fn apply_model<P>(es: Seq<QueueEntry>, nx: Option<Prepared<P>>, msg: ApiMessage) -> (
    Seq<QueueEntry>,
    Option<Prepared<P>>,
    Seq<P>,
) {
    match msg {
        ApiMessage::Skip => (es, nx, Seq::<P>::empty()),
        ApiMessage::Clear => clear_model(es, nx),
        ApiMessage::Insert(QueuePos::Head, qe) => push_head_model(es, nx, qe),
        ApiMessage::Insert(QueuePos::Tail, qe) => push_model(es, nx, qe),
        ApiMessage::Remove(QueuePos::Head) => pop_head_model(es, nx),
        ApiMessage::Remove(QueuePos::Tail) => pop_model(es, nx),
    }
}

/// Entries, prepared slot and outputs to cancel once a set of origin `o` starts
/// playing: a set built for the head entry takes that entry off the queue.
pub open spec fn promote_model<P>(es: Seq<QueueEntry>, nx: Option<Prepared<P>>, o: Origin) -> (
    Seq<QueueEntry>,
    Option<Prepared<P>>,
    Seq<P>,
) {
    match o {
        Origin::Queued(id) => drop_failed_model(es, nx, id),
        _ => (es, nx, Seq::<P>::empty()),
    }
}

/// The outputs a reaction asks to cancel, besides those of the current track.
pub open spec fn reaction_bufs<P>(r: Reaction<P>) -> Seq<P> {
    match r {
        Reaction::Skip => Seq::<P>::empty(),
        Reaction::Cancel(v) => v@,
    }
}

impl<P> Queue<P> {
    /// Number of configured output streams: the size of every prepared set.
    pub open spec fn stream_count(&self) -> nat {
        self.streams as nat
    }

    /// The diagnostic counter.
    pub open spec fn tag(&self) -> u64 {
        self.counter
    }

    pub open spec fn wf(&self) -> bool {
        match self.next {
            Some(p) => p.bufs@.len() == self.stream_count() && coherent(p.origin, self.entries@),
            None => true,
        }
    }

    /// Everything but the entries and the prepared slot is as in `o`.
    pub open spec fn keeps(&self, o: &Queue<P>) -> bool {
        &&& self.stream_count() == o.stream_count()
        &&& self.tag() == o.tag()
        &&& self.dur_ms == o.dur_ms
    }

    /// An empty queue for `streams` output streams.
    pub fn new(streams: usize) -> (r: Queue<P>)
        ensures
            r.wf(),
            r.entries@.len() == 0,
            r.next.is_none(),
            r.dur_ms == 0,
            r.stream_count() == streams,
            r.tag() == 0,
    {
        Queue { next: None, entries: Vec::new(), dur_ms: 0, counter: 0, streams }
    }

    pub fn stream_len(&self) -> (r: usize)
        ensures
            r == self.stream_count(),
    {
        self.streams
    }

    /// Empties the prepared slot and hands back its outputs.
    fn take_bufs(&mut self) -> (r: Vec<P>)
        ensures
            final(self).next.is_none(),
            final(self).entries == old(self).entries,
            final(self).keeps(old(self)),
            r@ == bufs_of(old(self).next),
    {
        match self.next.take() {
            Some(p) => p.bufs,
            None => Vec::new(),
        }
    }

    /// Appends `qe`. When the queue was empty the prepared set was not for a queue
    /// entry, so it is handed back for cancelling and the slot is emptied.
    pub fn push(&mut self, qe: QueueEntry) -> (stale: Vec<P>)
        requires
            old(self).wf(),
        ensures
            final(self).wf(),
            final(self).keeps(old(self)),
            (final(self).entries@, final(self).next, stale@) == push_model(
                old(self).entries@,
                old(self).next,
                qe,
            ),
    {
        let was_empty = self.entries.len() == 0;
        self.entries.push(qe);
        if was_empty {
            self.take_bufs()
        } else {
            Vec::new()
        }
    }

    /// Inserts `qe` at the head; the prepared set no longer plays next, so it is
    /// handed back for cancelling.
    pub fn push_head(&mut self, qe: QueueEntry) -> (stale: Vec<P>)
        requires
            old(self).wf(),
        ensures
            final(self).wf(),
            final(self).keeps(old(self)),
            (final(self).entries@, final(self).next, stale@) == push_head_model(
                old(self).entries@,
                old(self).next,
                qe,
            ),
    {
        let ghost es = self.entries@;
        self.entries.insert(0, qe);
        assert(self.entries@ =~= seq![qe] + es);
        self.take_bufs()
    }

    /// Removes the last entry, if any. When that empties the queue the prepared set
    /// is handed back for cancelling.
    pub fn pop(&mut self) -> (stale: Vec<P>)
        requires
            old(self).wf(),
        ensures
            final(self).wf(),
            final(self).keeps(old(self)),
            (final(self).entries@, final(self).next, stale@) == pop_model(
                old(self).entries@,
                old(self).next,
            ),
    {
        if self.entries.len() == 0 {
            return Vec::new();
        }
        let ghost es = self.entries@;
        let _ = self.entries.pop();
        if self.entries.len() == 0 {
            assert(self.entries@ =~= Seq::<QueueEntry>::empty());
            self.take_bufs()
        } else {
            assert(self.entries@[0] == es[0]);
            Vec::new()
        }
    }

    /// Removes the first entry, if any, and hands back the prepared set, which was
    /// for the track that no longer plays next.
    pub fn pop_head(&mut self) -> (stale: Vec<P>)
        requires
            old(self).wf(),
        ensures
            final(self).wf(),
            final(self).keeps(old(self)),
            (final(self).entries@, final(self).next, stale@) == pop_head_model(
                old(self).entries@,
                old(self).next,
            ),
    {
        if self.entries.len() == 0 {
            return Vec::new();
        }
        let ghost es = self.entries@;
        let _ = self.entries.remove(0);
        assert(self.entries@ =~= es.subrange(1, es.len() as int));
        self.take_bufs()
    }

    /// Removes every entry and hands back the prepared set, if any, for cancelling.
    pub fn clear(&mut self) -> (stale: Vec<P>)
        requires
            old(self).wf(),
        ensures
            final(self).wf(),
            final(self).keeps(old(self)),
            (final(self).entries@, final(self).next, stale@) == clear_model(
                old(self).entries@,
                old(self).next,
            ),
    {
        self.entries.clear();
        self.take_bufs()
    }

    /// The source of entry `id` could not be used: if that entry is at the head it
    /// leaves the queue, so that it is not tried again and again.
    pub fn drop_failed(&mut self, id: i64) -> (stale: Vec<P>)
        requires
            old(self).wf(),
        ensures
            final(self).wf(),
            final(self).keeps(old(self)),
            (final(self).entries@, final(self).next, stale@) == drop_failed_model(
                old(self).entries@,
                old(self).next,
                id,
            ),
    {
        if self.entries.len() > 0 && self.entries[0].id == id {
            self.pop_head()
        } else {
            Vec::new()
        }
    }

    /// Takes the prepared set out of its slot, with its origin, or `None` when none
    /// is ready. The set's length becomes the current one; the entries stay as they
    /// are (see `promote`).
    pub fn get_next_tc(&mut self) -> (r: Option<(Origin, Vec<P>)>)
        requires
            old(self).wf(),
        ensures
            final(self).wf(),
            final(self).next.is_none(),
            final(self).stream_count() == old(self).stream_count(),
            final(self).tag() == old(self).tag(),
            final(self).entries == old(self).entries,
            match old(self).next {
                None => {
                    &&& r.is_none()
                    &&& final(self).dur_ms == old(self).dur_ms
                },
                Some(p) => {
                    &&& r == Some((p.origin, p.bufs))
                    &&& final(self).dur_ms == p.dur_ms
                },
            },
    {
        match self.next.take() {
            None => None,
            Some(p) => {
                self.dur_ms = p.dur_ms;
                Some((p.origin, p.bufs))
            },
        }
    }

    /// The scheduler's promotion step: a set of `origin` now plays, so when it was
    /// built for the head entry that entry leaves the queue. A set still prepared
    /// for that entry is handed back for cancelling.
    pub fn promote(&mut self, origin: Origin) -> (stale: Vec<P>)
        requires
            old(self).wf(),
        ensures
            final(self).wf(),
            final(self).keeps(old(self)),
            (final(self).entries@, final(self).next, stale@) == promote_model(
                old(self).entries@,
                old(self).next,
                origin,
            ),
    {
        match origin {
            Origin::Queued(id) => self.drop_failed(id),
            _ => Vec::new(),
        }
    }

    /// Decides where attempt number `tries` of a prebuild takes its source: the
    /// head entry while the queue has one, else the random source, and the fallback
    /// once `MAX_ATTEMPTS` attempts have failed.
    pub fn start_next_tc(&self, tries: u32) -> (r: Attempt)
        requires
            self.wf(),
        ensures
            match r {
                Attempt::Queued { id, path } => {
                    &&& planned(self.entries@, tries as nat) == Origin::Queued(id)
                    &&& path@ == self.entries@[0].path@
                },
                Attempt::Random => planned(self.entries@, tries as nat) == Origin::Random,
                Attempt::Fallback => planned(self.entries@, tries as nat) == Origin::Fallback,
            },
    {
        if tries >= MAX_ATTEMPTS {
            Attempt::Fallback
        } else if self.entries.len() > 0 {
            Attempt::Queued { id: self.entries[0].id, path: self.entries[0].path.clone() }
        } else {
            Attempt::Random
        }
    }

    /// Records that `attempt`, number `tries`, did not give a prepared set: a queue
    /// entry whose source failed leaves the head of the queue, and the count of
    /// attempts goes up by one.
    pub fn after_failure(&mut self, attempt: &Attempt, tries: u32) -> (r: (u32, Vec<P>))
        requires
            old(self).wf(),
            tries < MAX_ATTEMPTS,
        ensures
            final(self).wf(),
            final(self).keeps(old(self)),
            r.0 == tries + 1,
            match attempt {
                Attempt::Queued { id, .. } => (final(self).entries@, final(self).next, r.1@)
                    == drop_failed_model(old(self).entries@, old(self).next, *id),
                _ => {
                    &&& final(self).entries@ == old(self).entries@
                    &&& final(self).next == old(self).next
                    &&& r.1@.len() == 0
                },
            },
    {
        let stale = match attempt {
            Attempt::Queued { id, .. } => self.drop_failed(*id),
            _ => Vec::new(),
        };
        (tries + 1, stale)
    }

    /// Puts a freshly built set into the empty slot. It is refused, and handed back,
    /// when the slot is taken, when it has not one output per stream, or when its
    /// origin no longer plays next.
    pub fn install(&mut self, origin: Origin, dur_ms: u64, bufs: Vec<P>) -> (r: Result<(), Vec<P>>)
        requires
            old(self).wf(),
        ensures
            final(self).wf(),
            final(self).keeps(old(self)),
            final(self).entries == old(self).entries,
            r.is_ok() <==> (old(self).next.is_none() && bufs@.len() == old(self).stream_count()
                && coherent(origin, old(self).entries@)),
            match r {
                Ok(()) => final(self).next == Some(Prepared { dur_ms, origin, bufs }),
                Err(b) => b == bufs && final(self).next == old(self).next,
            },
    {
        if self.next.is_some() || bufs.len() != self.streams {
            return Err(bufs);
        }
        let fits = match origin {
            Origin::Queued(id) => self.entries.len() > 0 && self.entries[0].id == id,
            Origin::Random => self.entries.len() == 0,
            Origin::Fallback => true,
        };
        if !fits {
            return Err(bufs);
        }
        self.next = Some(Prepared { dur_ms, origin, bufs });
        Ok(())
    }

    /// A fresh diagnostic identifier for a prebuild; the counter stops at its maximum.
    pub fn next_tag(&mut self) -> (r: u64)
        requires
            old(self).wf(),
        ensures
            final(self).wf(),
            r == old(self).tag(),
            final(self).tag() == (if r < u64::MAX {
                r + 1
            } else {
                r as int
            }),
            final(self).entries == old(self).entries,
            final(self).next == old(self).next,
            final(self).dur_ms == old(self).dur_ms,
            final(self).stream_count() == old(self).stream_count(),
    {
        let r = self.counter;
        if self.counter < u64::MAX {
            self.counter = self.counter + 1;
        }
        r
    }

    /// Applies one operator message to the queue.
    pub fn apply(&mut self, msg: ApiMessage) -> (r: Reaction<P>)
        requires
            old(self).wf(),
        ensures
            final(self).wf(),
            final(self).keeps(old(self)),
            (r is Skip) <==> (msg is Skip),
            (final(self).entries@, final(self).next, reaction_bufs(r)) == apply_model(
                old(self).entries@,
                old(self).next,
                msg,
            ),
    {
        match msg {
            ApiMessage::Skip => Reaction::Skip,
            ApiMessage::Clear => Reaction::Cancel(self.clear()),
            ApiMessage::Insert(QueuePos::Head, qe) => Reaction::Cancel(self.push_head(qe)),
            ApiMessage::Insert(QueuePos::Tail, qe) => Reaction::Cancel(self.push(qe)),
            ApiMessage::Remove(QueuePos::Head) => Reaction::Cancel(self.pop_head()),
            ApiMessage::Remove(QueuePos::Tail) => Reaction::Cancel(self.pop()),
        }
    }
}

/// A prepared set always has exactly one output per configured stream: every
/// operation keeps the queue well formed, and a well-formed slot is empty or full.
pub proof fn prepared_set_fits_streams<P>(q: &Queue<P>)
    requires
        q.wf(),
    ensures
        bufs_of(q.next).len() == 0 || bufs_of(q.next).len() == q.stream_count(),
        q.next.is_some() ==> bufs_of(q.next).len() == q.stream_count(),
{
}

/// After inserting `qe` at the head, the old prepared set is cancelled, every real
/// attempt of the rebuild takes `qe`, and promoting the set built for it takes
/// exactly `qe` off the queue.
pub proof fn insert_head_plays_next<P>(
    es: Seq<QueueEntry>,
    nx: Option<Prepared<P>>,
    qe: QueueEntry,
    tries: nat,
)
    requires
        tries < MAX_ATTEMPTS,
    ensures
        ({
            let (es1, nx1, stale) = push_head_model(es, nx, qe);
            &&& nx1.is_none()
            &&& stale == bufs_of(nx)
            &&& planned(es1, tries) == Origin::Queued(qe.id)
            &&& coherent(Origin::Queued(qe.id), es1)
            &&& promote_model(es1, None::<Prepared<P>>, Origin::Queued(qe.id)) == (
                es,
                None::<Prepared<P>>,
                Seq::<P>::empty(),
            )
        }),
{
    let es1 = seq![qe] + es;
    assert(es1.subrange(1, es1.len() as int) =~= es);
}

/// Clearing removes every entry and cancels the prepared set, so the next track is
/// prepared afresh, from the random source. The current track is not held by the
/// queue, so it is untouched.
pub proof fn clear_cancels_prepared_set<P>(es: Seq<QueueEntry>, nx: Option<Prepared<P>>)
    ensures
        ({
            let (es1, nx1, stale) = clear_model(es, nx);
            &&& es1.len() == 0
            &&& nx1.is_none()
            &&& stale == bufs_of(nx)
            &&& planned(es1, 0) == Origin::Random
        }),
{
}

/// Operations that leave the head in place leave the prepared set alone: an append
/// to a non-empty queue, and removing the last of two or more entries.
pub proof fn tail_ops_keep_prepared<P>(
    es: Seq<QueueEntry>,
    nx: Option<Prepared<P>>,
    qe: QueueEntry,
)
    requires
        es.len() > 0,
    ensures
        ({
            let (es1, nx1, stale) = push_model(es, nx, qe);
            &&& es1[0] == es[0]
            &&& nx1 == nx
            &&& stale.len() == 0
        }),
        es.len() > 1 ==> ({
            let (es1, nx1, stale) = pop_model(es, nx);
            &&& es1 == es.drop_last()
            &&& es1[0] == es[0]
            &&& nx1 == nx
            &&& stale.len() == 0
        }),
{
}

/// A skip leaves the queue and its prepared set as they are.
pub proof fn skip_keeps_queue<P>(es: Seq<QueueEntry>, nx: Option<Prepared<P>>)
    ensures
        apply_model(es, nx, ApiMessage::Skip) == (es, nx, Seq::<P>::empty()),
{
}

/// Stale entries do not linger: after `k` failed attempts on queue entries, the
/// first `k` entries are gone, no other entry is, and the next real attempt takes
/// the entry that followed them, or the random source when none is left.
pub proof fn failing_heads_dropped(es: Seq<QueueEntry>, k: nat)
    requires
        k <= es.len(),
    ensures
        fail_heads(es, k) == es.subrange(k as int, es.len() as int),
        k < MAX_ATTEMPTS ==> planned(fail_heads(es, k), k) == (if k < es.len() {
            Origin::Queued(es[k as int].id)
        } else {
            Origin::Random
        }),
    decreases k,
{
    if k > 0 {
        failing_heads_dropped(es, (k - 1) as nat);
        let e1 = es.subrange(k - 1, es.len() as int);
        assert(e1.subrange(1, e1.len() as int) =~= es.subrange(k as int, es.len() as int));
    } else {
        assert(es.subrange(0, es.len() as int) =~= es);
    }
    if k < es.len() {
        assert(fail_heads(es, k)[0] == es[k as int]);
    }
}

/// A prebuild ends: once `MAX_ATTEMPTS` attempts have failed the fallback is used,
/// and every failure moves the count one step towards it.
pub proof fn prebuild_reaches_fallback(es: Seq<QueueEntry>, tries: nat)
    ensures
        tries >= MAX_ATTEMPTS <==> planned(es, tries) == Origin::Fallback,
{
}

} // verus!
