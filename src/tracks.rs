use vstd::prelude::*;

use crate::engine::LoadError;
use crate::metadata::{playable, track_key, FileMetadata};

verus! {

/// One queued track: a path and its metadata, kept together.
#[derive(Clone, Debug)]
pub struct Track {
    pub path: String,
    pub metadata: FileMetadata,
}

/// A file offered to the queue: its path, its extension, its metadata as
/// probed, and whether its audio could be opened and decoded.
#[derive(Debug)]
pub struct Candidate {
    pub path: String,
    pub extension: Option<String>,
    pub metadata: FileMetadata,
    pub load: Result<(), LoadError>,
}

/// Whether the candidate has a playable extension.
pub open spec fn playable_candidate(c: Candidate) -> bool {
    c.extension is Some && playable(c.extension.unwrap()@)
}

/// Whether the candidate can enter the queue: playable and decoded.
pub open spec fn loadable(c: Candidate) -> bool {
    playable_candidate(c) && c.load is Ok
}

/// The paths of a sequence of tracks.
pub open spec fn paths(ts: Seq<Track>) -> Seq<String> {
    ts.map_values(|t: Track| t.path)
}

/// The metadata of a sequence of tracks, index by index.
pub open spec fn metadata_of(ts: Seq<Track>) -> Seq<FileMetadata> {
    ts.map_values(|t: Track| t.metadata)
}

/// `t` placed after every track of `s`, counted from the end, whose track
/// number is greater than its own.
pub open spec fn insert_by_track(s: Seq<Track>, t: Track) -> Seq<Track>
    decreases s.len(),
{
    if s.len() == 0 {
        seq![t]
    } else if track_key(s.last().metadata) <= track_key(t.metadata) {
        s.push(t)
    } else {
        insert_by_track(s.drop_last(), t).push(s.last())
    }
}

/// The tracks in ascending track number; tracks with equal numbers keep
/// their order.
pub open spec fn sorted_by_track(s: Seq<Track>) -> Seq<Track>
    decreases s.len(),
{
    if s.len() == 0 {
        s
    } else {
        insert_by_track(sorted_by_track(s.drop_last()), s.last())
    }
}

/// Track numbers do not decrease along `s`.
pub open spec fn track_ordered(s: Seq<Track>) -> bool {
    forall|i: int, j: int|
        0 <= i < j < s.len() ==> track_key(#[trigger] s[i].metadata) <= track_key(
            #[trigger] s[j].metadata,
        )
}

/// The tracks of `s` whose track number is `k`, in their order in `s`.
pub open spec fn with_key(s: Seq<Track>, k: u16) -> Seq<Track>
    decreases s.len(),
{
    if s.len() == 0 {
        s
    } else if track_key(s.last().metadata) == k {
        with_key(s.drop_last(), k).push(s.last())
    } else {
        with_key(s.drop_last(), k)
    }
}

proof fn lemma_with_key_push(s: Seq<Track>, t: Track, k: u16)
    ensures
        with_key(s.push(t), k) == if track_key(t.metadata) == k {
            with_key(s, k).push(t)
        } else {
            with_key(s, k)
        },
{
    assert(s.push(t).drop_last() =~= s);
}

proof fn lemma_insert_keeps_key_order(s: Seq<Track>, t: Track, k: u16)
    ensures
        with_key(insert_by_track(s, t), k) == if track_key(t.metadata) == k {
            with_key(s, k).push(t)
        } else {
            with_key(s, k)
        },
    decreases s.len(),
{
    if s.len() == 0 {
        lemma_with_key_push(s, t, k);
        assert(s.push(t) =~= seq![t]);
    } else if track_key(s.last().metadata) <= track_key(t.metadata) {
        lemma_with_key_push(s, t, k);
    } else {
        let d = s.drop_last();
        lemma_insert_keeps_key_order(d, t, k);
        lemma_with_key_push(insert_by_track(d, t), s.last(), k);
        lemma_with_key_push(d, s.last(), k);
        assert(d.push(s.last()) =~= s);
    }
}

/// Sorting keeps, for every track number, the tracks with that number in
/// the order they had.
pub proof fn lemma_sort_is_stable(s: Seq<Track>, k: u16)
    ensures
        with_key(sorted_by_track(s), k) == with_key(s, k),
    decreases s.len(),
{
    if s.len() > 0 {
        lemma_sort_is_stable(s.drop_last(), k);
        lemma_insert_keeps_key_order(sorted_by_track(s.drop_last()), s.last(), k);
    }
}

proof fn lemma_insert_at(s: Seq<Track>, t: Track, p: int)
    requires
        0 <= p <= s.len(),
        forall|j: int| p <= j < s.len() ==> track_key(#[trigger] s[j].metadata) > track_key(t.metadata),
        p > 0 ==> track_key(s[p - 1].metadata) <= track_key(t.metadata),
    ensures
        insert_by_track(s, t) == s.take(p).push(t) + s.skip(p),
    decreases s.len(),
{
    if s.len() == 0 {
        assert(s.take(p).push(t) + s.skip(p) =~= seq![t]);
    } else if track_key(s.last().metadata) <= track_key(t.metadata) {
        if p < s.len() {
            assert(track_key(s[s.len() - 1].metadata) > track_key(t.metadata));
        }
        assert(s.take(p).push(t) + s.skip(p) =~= s.push(t));
    } else {
        let d = s.drop_last();
        assert forall|j: int| p <= j < d.len() implies track_key(#[trigger] d[j].metadata) > track_key(
            t.metadata,
        ) by {
            assert(d[j] == s[j]);
        }
        if p == s.len() {
            assert(track_key(s[p - 1].metadata) <= track_key(t.metadata));
        }
        lemma_insert_at(d, t, p);
        assert(d.take(p).push(t) + d.skip(p) + seq![s.last()] =~= s.take(p).push(t) + s.skip(p));
    }
}

proof fn lemma_insert_keeps_order(s: Seq<Track>, t: Track)
    requires
        track_ordered(s),
    ensures
        track_ordered(insert_by_track(s, t)),
        insert_by_track(s, t).to_multiset() == s.to_multiset().insert(t),
    decreases s.len(),
{
    if s.len() == 0 {
        assert(seq![t].to_multiset() =~= s.to_multiset().insert(t)) by {
            s.to_multiset_ensures();
            seq![t].to_multiset_ensures();
            Seq::<Track>::empty().to_multiset_ensures();
            assert(seq![t] =~= Seq::<Track>::empty().push(t));
            assert(s =~= Seq::<Track>::empty());
        }
    } else if track_key(s.last().metadata) <= track_key(t.metadata) {
        s.to_multiset_ensures();
        let r = s.push(t);
        assert forall|i: int, j: int| 0 <= i < j < r.len() implies track_key(
            #[trigger] r[i].metadata,
        ) <= track_key(#[trigger] r[j].metadata) by {
            if j == s.len() {
                assert(track_key(s[i].metadata) <= track_key(s[s.len() - 1].metadata));
            }
        }
    } else {
        let d = s.drop_last();
        assert forall|i: int, j: int| 0 <= i < j < d.len() implies track_key(
            #[trigger] d[i].metadata,
        ) <= track_key(#[trigger] d[j].metadata) by {
            assert(d[i] == s[i] && d[j] == s[j]);
        }
        lemma_insert_keeps_order(d, t);
        let m = insert_by_track(d, t);
        let r = m.push(s.last());
        assert(d.push(s.last()) =~= s);
        d.to_multiset_ensures();
        m.to_multiset_ensures();
        assert forall|k: int| 0 <= k < m.len() implies track_key(#[trigger] m[k].metadata) <= track_key(
            s.last().metadata,
        ) by {
            assert(m.to_multiset().count(m[k]) > 0);
            assert(d.to_multiset().insert(t).count(m[k]) > 0);
            if m[k] != t {
                assert(d.to_multiset().count(m[k]) > 0);
                assert(d.contains(m[k]));
                let q = choose|q: int| 0 <= q < d.len() && d[q] == m[k];
                assert(track_key(s[q].metadata) <= track_key(s[s.len() - 1].metadata));
            }
        }
        assert forall|i: int, j: int| 0 <= i < j < r.len() implies track_key(
            #[trigger] r[i].metadata,
        ) <= track_key(#[trigger] r[j].metadata) by {
            if j == m.len() {
                assert(r[i] == m[i]);
            } else {
                assert(r[i] == m[i] && r[j] == m[j]);
            }
        }
        assert(r.to_multiset() =~= s.to_multiset().insert(t));
    }
}

/// The stable sort by track number orders the tracks and keeps every one
/// of them, each as often as before.
pub proof fn lemma_sorted_by_track(s: Seq<Track>)
    ensures
        track_ordered(sorted_by_track(s)),
        sorted_by_track(s).to_multiset() == s.to_multiset(),
    decreases s.len(),
{
    if s.len() == 0 {
    } else {
        lemma_sorted_by_track(s.drop_last());
        lemma_insert_keeps_order(sorted_by_track(s.drop_last()), s.last());
        s.drop_last().to_multiset_ensures();
        assert(s.drop_last().push(s.last()) =~= s);
    }
}

fn key_of(t: &Track) -> (r: u16)
    ensures
        r == track_key(t.metadata),
{
    match t.metadata.track_number {
        Some(n) => n,
        None => 0,
    }
}

/// Sorts tracks by ascending track number, a missing number counting as
/// zero; tracks with equal numbers keep their order.
pub fn sort_by_track(v: Vec<Track>) -> (r: Vec<Track>)
    ensures
        r@ == sorted_by_track(v@),
        track_ordered(r@),
        r@.to_multiset() == v@.to_multiset(),
        forall|k: u16| #[trigger] with_key(r@, k) == with_key(v@, k),
{
    let ghost orig = v@;
    let mut rest = v;
    let mut out: Vec<Track> = Vec::new();
    let mut i: usize = 0;
    let n = rest.len();
    while rest.len() > 0
        invariant
            n == orig.len(),
            i + rest@.len() == n,
            rest@ == orig.skip(i as int),
            out@ == sorted_by_track(orig.take(i as int)),
        decreases rest@.len(),
    {
        let t = rest.remove(0);
        let k = key_of(&t);
        let mut p = out.len();
        while p > 0 && key_of(&out[p - 1]) > k
            invariant
                0 <= p <= out@.len(),
                forall|j: int| p <= j < out@.len() ==> track_key(#[trigger] out@[j].metadata) > k,
            decreases p,
        {
            p = p - 1;
        }
        let ghost before = out@;
        proof {
            lemma_insert_at(before, t, p as int);
            assert(orig.take(i + 1).drop_last() =~= orig.take(i as int));
            assert(orig.take(i + 1).last() == orig[i as int]);
            assert(orig.skip(i as int)[0] == orig[i as int]);
        }
        out.insert(p, t);
        assert(out@ =~= before.take(p as int).push(t) + before.skip(p as int));
        i = i + 1;
        assert(rest@ =~= orig.skip(i as int));
    }
    assert(orig.take(i as int) =~= orig);
    proof {
        lemma_sorted_by_track(orig);
        assert forall|k: u16| #[trigger] with_key(out@, k) == with_key(orig, k) by {
            lemma_sort_is_stable(orig, k);
        }
    }
    out
}

} // verus!
