use vstd::prelude::*;

use crate::metadata::FileMetadata;
use crate::text::{copy_string, same_text};

verus! {

/// The metadata that a lookup of `path` yields: the cached entry if there is
/// one, else the freshly probed `probed`.
pub open spec fn resolved(
    cache: Map<Seq<char>, FileMetadata>,
    path: Seq<char>,
    probed: FileMetadata,
) -> FileMetadata {
    if cache.contains_key(path) {
        cache[path]
    } else {
        probed
    }
}

/// The cache after a lookup of `path`: a missing entry is added, a present
/// one is never replaced.
pub open spec fn cache_after(
    cache: Map<Seq<char>, FileMetadata>,
    path: Seq<char>,
    probed: FileMetadata,
) -> Map<Seq<char>, FileMetadata> {
    if cache.contains_key(path) {
        cache
    } else {
        cache.insert(path, probed)
    }
}

/// Metadata of the files seen so far, by path. Entries are added on first
/// access and never evicted.
///
/// The entries are a list searched by path equality rather than a
/// `HashMap`: vstd's specification of `HashMap` holds only for keys whose
/// hashing and equality Verus can rely on, which a `String` key is not, so
/// lookups in such a map could not be proved. The list's lookups are.
pub struct MetadataCache {
    entries: Vec<(String, FileMetadata)>,
    map: Ghost<Map<Seq<char>, FileMetadata>>,
}

impl View for MetadataCache {
    type V = Map<Seq<char>, FileMetadata>;

    closed spec fn view(&self) -> Map<Seq<char>, FileMetadata> {
        self.map@
    }
}

impl MetadataCache {
    /// The entries and the map agree, and each path has one entry.
    pub closed spec fn wf(&self) -> bool {
        &&& forall|i: int|
            0 <= i < self.entries@.len() ==> {
                &&& #[trigger] self.map@.contains_key(self.entries@[i].0@)
                &&& self.map@[self.entries@[i].0@] == self.entries@[i].1
            }
        &&& forall|k: Seq<char>|
            #[trigger] self.map@.contains_key(k) ==> exists|i: int|
                0 <= i < self.entries@.len() && self.entries@[i].0@ == k
    }

    /// An empty cache.
    pub fn new() -> (r: MetadataCache)
        ensures
            r.wf(),
            r@ == Map::<Seq<char>, FileMetadata>::empty(),
    {
        MetadataCache { entries: Vec::new(), map: Ghost(Map::empty()) }
    }

    /// The index of the entry for `path`, if any.
    fn find(&self, path: &String) -> (r: Option<usize>)
        requires
            self.wf(),
        ensures
            r is Some <==> self@.contains_key(path@),
            r is Some ==> ({
                let i = r.unwrap() as int;
                &&& 0 <= i < self.entries@.len()
                &&& self.entries@[i].0@ == path@
                &&& self@[path@] == self.entries@[i].1
            }),
    {
        let mut i: usize = 0;
        while i < self.entries.len()
            invariant
                self.wf(),
                0 <= i <= self.entries@.len(),
                forall|j: int| 0 <= j < i ==> self.entries@[j].0@ != path@,
            decreases self.entries@.len() - i,
        {
            if same_text(&self.entries[i].0, path) {
                assert(self.map@.contains_key(self.entries@[i as int].0@));
                return Some(i);
            }
            i = i + 1;
        }
        proof {
            if self@.contains_key(path@) {
                let j = choose|j: int|
                    0 <= j < self.entries@.len() && self.entries@[j].0@ == path@;
                assert(self.entries@[j].0@ != path@);
            }
        }
        None
    }

    /// Whether `path` has an entry.
    pub fn contains(&self, path: &String) -> (r: bool)
        requires
            self.wf(),
        ensures
            r == self@.contains_key(path@),
    {
        self.find(path).is_some()
    }

    /// The entry for `path`, if any.
    pub fn get(&self, path: &String) -> (r: Option<FileMetadata>)
        requires
            self.wf(),
        ensures
            r == if self@.contains_key(path@) {
                Some(self@[path@])
            } else {
                None
            },
    {
        match self.find(path) {
            Some(i) => Some(self.entries[i].1.duplicate()),
            None => None,
        }
    }

    /// The entry for `path`; where there is none, `probed` is stored for it
    /// and returned.
    pub fn get_or_insert(&mut self, path: &String, probed: FileMetadata) -> (r: FileMetadata)
        requires
            old(self).wf(),
        ensures
            final(self).wf(),
            r == resolved(old(self)@, path@, probed),
            final(self)@ == cache_after(old(self)@, path@, probed),
    {
        match self.find(path) {
            Some(i) => self.entries[i].1.duplicate(),
            None => {
                let ghost old_entries = self.entries@;
                let ghost old_map = self.map@;
                let r = probed.duplicate();
                self.entries.push((copy_string(path), probed));
                self.map = Ghost(self.map@.insert(path@, r));
                assert forall|i: int| 0 <= i < self.entries@.len() implies {
                    &&& #[trigger] self.map@.contains_key(self.entries@[i].0@)
                    &&& self.map@[self.entries@[i].0@] == self.entries@[i].1
                } by {
                    if i < old_entries.len() {
                        assert(self.entries@[i] == old_entries[i]);
                        assert(old_map.contains_key(old_entries[i].0@));
                    }
                }
                assert forall|k: Seq<char>| #[trigger] self.map@.contains_key(k) implies exists|i: int|
                    0 <= i < self.entries@.len() && self.entries@[i].0@ == k by {
                    if k == path@ {
                        assert(self.entries@[old_entries.len() as int].0@ == k);
                    } else {
                        assert(old_map.contains_key(k));
                        let j = choose|j: int| 0 <= j < old_entries.len() && old_entries[j].0@ == k;
                        assert(self.entries@[j] == old_entries[j]);
                    }
                }
                r
            },
        }
    }
}

} // verus!
