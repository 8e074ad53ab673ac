//! The asset store: a read-only table from relative path to bytes.
use vstd::prelude::*;

verus! {

/// What the store answers for `path`: the content of the last entry whose
/// path is `path`, or `None` where no entry has it.
pub open spec fn lookup(entries: Seq<(Seq<char>, Seq<u8>)>, path: Seq<char>) -> Option<Seq<u8>>
    decreases entries.len(),
{
    if entries.len() == 0 {
        None
    } else if entries.last().0 == path {
        Some(entries.last().1)
    } else {
        lookup(entries.drop_last(), path)
    }
}

/// A path as the store keeps it: relative, so never starting with `/`.
pub open spec fn is_relative(path: Seq<char>) -> bool {
    path.len() == 0 || path[0] != '/'
}

/// The store's well-formedness: every key is relative.
pub open spec fn entries_wf(entries: Seq<(Seq<char>, Seq<u8>)>) -> bool {
    forall|i: int| 0 <= i < entries.len() ==> is_relative(#[trigger] entries[i].0)
}

/// A path that the store answers for is relative.
pub proof fn lemma_lookup_relative(entries: Seq<(Seq<char>, Seq<u8>)>, path: Seq<char>)
    requires
        entries_wf(entries),
        lookup(entries, path) is Some,
    ensures
        is_relative(path),
    decreases entries.len(),
{
    if entries.last().0 != path {
        assert forall|i: int| 0 <= i < entries.drop_last().len() implies is_relative(
            #[trigger] entries.drop_last()[i].0,
        ) by {
            assert(entries.drop_last()[i] == entries[i]);
        }
        lemma_lookup_relative(entries.drop_last(), path);
    } else {
        assert(is_relative(entries[entries.len() - 1].0));
    }
}

/// Copies bytes into a fresh vector.
pub fn copy_bytes(b: &[u8]) -> (r: Vec<u8>)
    ensures
        r@ == b@,
{
    let mut r: Vec<u8> = Vec::new();
    let mut i: usize = 0;
    while i < b.len()
        invariant
            0 <= i <= b@.len(),
            r@ == b@.subrange(0, i as int),
        decreases b@.len() - i,
    {
        r.push(b[i]);
        i += 1;
        assert(r@ =~= b@.subrange(0, i as int));
    }
    assert(r@ =~= b@);
    r
}

/// The embedded build output of the application, as path and content pairs.
pub struct Assets {
    files: Vec<(String, Vec<u8>)>,
}

impl View for Assets {
    type V = Seq<(Seq<char>, Seq<u8>)>;

    closed spec fn view(&self) -> Seq<(Seq<char>, Seq<u8>)> {
        self.files@.map_values(|e: (String, Vec<u8>)| (e.0@, e.1@))
    }
}

impl Assets {
    /// Every path in the store is relative.
    pub open spec fn wf(&self) -> bool {
        entries_wf(self@)
    }

    /// An empty store.
    pub fn new() -> (r: Assets)
        ensures
            r.wf(),
            r@.len() == 0,
    {
        Assets { files: Vec::new() }
    }

    /// Adds (or replaces) the content stored under `path`.
    pub fn insert(&mut self, path: &str, data: Vec<u8>)
        requires
            old(self).wf(),
            is_relative(path@),
        ensures
            final(self).wf(),
            final(self)@ == old(self)@.push((path@, data@)),
            lookup(final(self)@, path@) == Some(data@),
            forall|p: Seq<char>| p != path@ ==> lookup(final(self)@, p) == lookup(old(self)@, p),
    {
        self.files.push((path.to_owned(), data));
        assert(self@ =~= old(self)@.push((path@, data@)));
        assert(self@.drop_last() =~= old(self)@);
    }

    /// Where the content for `path` stands, if it is stored.
    fn find(&self, path: &String) -> (r: Option<usize>)
        ensures
            match r {
                Some(i) => i < self@.len() && lookup(self@, path@) == Some(self@[i as int].1),
                None => lookup(self@, path@) is None,
            },
    {
        let mut i: usize = self.files.len();
        assert(self@.subrange(0, i as int) =~= self@);
        while i > 0
            invariant
                i <= self@.len(),
                self@.len() == self.files@.len(),
                lookup(self@, path@) == lookup(self@.subrange(0, i as int), path@),
            decreases i,
        {
            let ghost prefix = self@.subrange(0, i as int);
            assert(prefix.drop_last() =~= self@.subrange(0, i - 1));
            if self.files[i - 1].0 == *path {
                return Some(i - 1);
            }
            i -= 1;
        }
        assert(self@.subrange(0, 0) =~= Seq::<(Seq<char>, Seq<u8>)>::empty());
        None
    }

    /// The content stored under `path`.
    pub fn get(&self, path: &str) -> (r: Option<Vec<u8>>)
        ensures
            match r {
                Some(d) => lookup(self@, path@) == Some(d@),
                None => lookup(self@, path@) is None,
            },
    {
        let key = path.to_owned();
        match self.find(&key) {
            Some(i) => Some(copy_bytes(self.files[i].1.as_slice())),
            None => None,
        }
    }
}

} // verus!
