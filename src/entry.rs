use vstd::prelude::*;

verus! {

/// One track waiting to be played: an identifier and the locator of its source.
/// Two entries are the same entry when their identifiers agree.
#[derive(Debug)]
pub struct QueueEntry {
    pub id: i64,
    pub path: String,
}

impl Clone for QueueEntry {
    fn clone(&self) -> (r: QueueEntry)
        ensures
            r == *self,
    {
        QueueEntry { id: self.id, path: self.path.clone() }
    }
}

impl PartialEq for QueueEntry {
    fn eq(&self, o: &QueueEntry) -> (r: bool) {
        self.id == o.id
    }
}

impl vstd::std_specs::cmp::PartialEqSpecImpl for QueueEntry {
    open spec fn obeys_eq_spec() -> bool {
        true
    }

    open spec fn eq_spec(&self, o: &QueueEntry) -> bool {
        self.id == o.id
    }
}

impl QueueEntry {
    pub fn new(id: i64, path: String) -> (r: QueueEntry)
        ensures
            r.id == id,
            r.path@ == path@,
    {
        QueueEntry { id, path }
    }
}

/// An end of the queue.
#[derive(Debug, Clone, Copy, PartialEq, Eq, Structural)]
pub enum QueuePos {
    Head,
    Tail,
}

/// A command from the operator.
#[derive(Debug)]
pub enum ApiMessage {
    /// End the current track now.
    Skip,
    /// Empty the queue.
    Clear,
    Insert(QueuePos, QueueEntry),
    Remove(QueuePos),
}

/// The outer framing of an output stream.
#[derive(Debug, Clone, Copy, PartialEq, Eq, Structural)]
pub enum Container {
    Ogg,
    MP3,
}

impl Container {
    /// The container's name as the transcoder knows it.
    pub fn name(&self) -> (r: &'static str)
        ensures
            *self == Container::Ogg ==> r@ == "ogg"@,
            *self == Container::MP3 ==> r@ == "mp3"@,
    {
        match self {
            Container::Ogg => "ogg",
            Container::MP3 => "mp3",
        }
    }
}

/// The characters after the last `.` of a locator.
pub open spec fn ext_spec(s: Seq<char>) -> Option<Seq<char>>
    decreases s.len(),
{
    if s.len() == 0 {
        None
    } else if s.last() == '.' {
        Some(Seq::<char>::empty())
    } else {
        match ext_spec(s.drop_last()) {
            Some(e) => Some(e.push(s.last())),
            None => None,
        }
    }
}

/// The container hint of a source locator: what follows its last `.`, or `None`
/// when it has no `.` at all (such a source is skipped).
pub fn extension_of(path: &str) -> (r: Option<String>)
    ensures
        match r {
            Some(e) => ext_spec(path@) == Some(e@),
            None => ext_spec(path@).is_none(),
        },
{
    let len: usize = path.unicode_len();
    let mut i: usize = len;
    while i > 0
        invariant
            i <= len,
            len == path@.len(),
            forall|j: int| i <= j < len ==> path@[j] != '.',
        decreases i,
    {
        if path.get_char(i - 1) == '.' {
            proof {
                lemma_ext_after(path@, (i - 1) as int);
            }
            let e = path.substring_char(i, len);
            return Some(String::from_str(e));
        }
        i = i - 1;
    }
    proof {
        lemma_ext_none(path@);
    }
    None
}

proof fn lemma_ext_after(s: Seq<char>, k: int)
    requires
        0 <= k < s.len(),
        s[k] == '.',
        forall|j: int| k < j < s.len() ==> s[j] != '.',
    ensures
        ext_spec(s) == Some(s.subrange(k + 1, s.len() as int)),
    decreases s.len(),
{
    if k == s.len() - 1 {
        assert(s.subrange(k + 1, s.len() as int) =~= Seq::<char>::empty());
    } else {
        let t = s.drop_last();
        lemma_ext_after(t, k);
        assert(t.subrange(k + 1, t.len() as int).push(s.last()) =~= s.subrange(
            k + 1,
            s.len() as int,
        ));
    }
}

proof fn lemma_ext_none(s: Seq<char>)
    requires
        forall|j: int| 0 <= j < s.len() ==> s[j] != '.',
    ensures
        ext_spec(s).is_none(),
    decreases s.len(),
{
    if s.len() > 0 {
        lemma_ext_none(s.drop_last());
    }
}

} // verus!
