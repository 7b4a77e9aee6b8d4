use vstd::prelude::*;

use crate::engine::{LoadError, SinkCommand};
use crate::cache::{cache_after, resolved};
use crate::metadata::FileMetadata;
use crate::player::{
    append_result, append_state, cached_in, clear_state, finished_state, gather, play_result,
    play_state, reload_commands, skip_commands, skip_state, track_of, AppState, Selection,
};
use crate::tracks::{
    lemma_sorted_by_track, loadable, metadata_of, paths, sorted_by_track, Candidate, Track,
};

verus! {

proof fn lemma_paths_push(q: Seq<Track>, t: Track)
    ensures
        paths(q.push(t)) == paths(q).push(t.path),
{
    assert(paths(q.push(t)) =~= paths(q).push(t.path));
}

proof fn lemma_paths_concat(a: Seq<Track>, b: Seq<Track>)
    ensures
        paths(a + b) == paths(a) + paths(b),
{
    assert(paths(a + b) =~= paths(a) + paths(b));
}

proof fn lemma_paths_drop_first(q: Seq<Track>)
    requires
        q.len() > 0,
    ensures
        paths(q.drop_first()) == paths(q).drop_first(),
{
    assert(paths(q.drop_first()) =~= paths(q).drop_first());
}

/// The queue's paths and its metadata have the same length, and in a
/// well-formed state the sink holds as many sources as the queue has tracks.
pub proof fn lemma_lockstep(s: AppState)
    ensures
        paths(s.queue).len() == metadata_of(s.queue).len(),
        s.wf() ==> s.engine.queued().len() == s.queue.len(),
{
}

/// A directory's gathering keeps every entry the cache had, and each
/// gathered track's metadata is the new cache's entry for its path.
proof fn lemma_gather_cached(m: Map<Seq<char>, FileMetadata>, cs: Seq<Candidate>)
    ensures
        forall|k: Seq<char>|
            m.contains_key(k) ==> #[trigger] gather(m, cs).0.contains_key(k) && gather(m, cs).0[k]
                == m[k],
        cached_in(gather(m, cs).1, gather(m, cs).0),
    decreases cs.len(),
{
    if cs.len() > 0 {
        lemma_gather_cached(m, cs.drop_last());
        let (m1, ts) = gather(m, cs.drop_last());
        let c = cs.last();
        if loadable(c) {
            let m2 = cache_after(m1, c.path@, c.metadata);
            let r = ts.push(track_of(m1, c));
            assert forall|i: int| 0 <= i < r.len() implies {
                &&& m2.contains_key(#[trigger] r[i].path@)
                &&& m2[r[i].path@] == r[i].metadata
            } by {
                if i < ts.len() {
                    assert(r[i] == ts[i]);
                    assert(m1.contains_key(ts[i].path@));
                }
            }
        }
    }
}

proof fn lemma_cached_in_sorted(ts: Seq<Track>, m: Map<Seq<char>, FileMetadata>)
    requires
        cached_in(ts, m),
    ensures
        cached_in(sorted_by_track(ts), m),
{
    let r = sorted_by_track(ts);
    lemma_sorted_by_track(ts);
    r.to_multiset_ensures();
    ts.to_multiset_ensures();
    assert forall|i: int| 0 <= i < r.len() implies {
        &&& m.contains_key(#[trigger] r[i].path@)
        &&& m[r[i].path@] == r[i].metadata
    } by {
        assert(r.to_multiset().count(r[i]) > 0);
        assert(ts.to_multiset().count(r[i]) > 0);
        assert(ts.contains(r[i]));
        let j = choose|j: int| 0 <= j < ts.len() && ts[j] == r[i];
        assert(m.contains_key(ts[j].path@));
    }
}

proof fn lemma_cached_in_grown(
    q: Seq<Track>,
    m: Map<Seq<char>, FileMetadata>,
    m2: Map<Seq<char>, FileMetadata>,
)
    requires
        cached_in(q, m),
        forall|k: Seq<char>| m.contains_key(k) ==> #[trigger] m2.contains_key(k) && m2[k] == m[k],
    ensures
        cached_in(q, m2),
{
    assert forall|i: int| 0 <= i < q.len() implies {
        &&& m2.contains_key(#[trigger] q[i].path@)
        &&& m2[q[i].path@] == q[i].metadata
    } by {
        assert(m.contains_key(q[i].path@));
    }
}

/// Playing or appending a selection keeps the player well formed: the
/// sink holds the queue at the output volume, and the queue's metadata is
/// the cache's.
pub proof fn lemma_selection_ops_keep_invariant(s: AppState, sel: Selection)
    requires
        s.wf(),
    ensures
        play_state(s, sel).wf(),
        append_state(s, sel).wf(),
{
    match sel {
        Selection::File(c) => {
            if loadable(c) {
                let t = track_of(s.cache, c);
                let m2 = cache_after(s.cache, c.path@, c.metadata);
                lemma_paths_push(s.queue, t);
                lemma_cached_in_grown(s.queue, s.cache, m2);
                let q1 = seq![t] + s.queue;
                assert forall|i: int| 0 <= i < q1.len() implies {
                    &&& m2.contains_key(#[trigger] q1[i].path@)
                    &&& m2[q1[i].path@] == q1[i].metadata
                } by {
                    if i > 0 {
                        assert(q1[i] == s.queue[i - 1]);
                    }
                }
                let q2 = s.queue.push(t);
                assert forall|i: int| 0 <= i < q2.len() implies {
                    &&& m2.contains_key(#[trigger] q2[i].path@)
                    &&& m2[q2[i].path@] == q2[i].metadata
                } by {
                    if i < s.queue.len() {
                        assert(q2[i] == s.queue[i]);
                    }
                }
            }
        },
        Selection::Directory(cs) => {
            let (m2, ts) = gather(s.cache, cs@);
            let new = sorted_by_track(ts);
            lemma_gather_cached(s.cache, cs@);
            lemma_cached_in_sorted(ts, m2);
            lemma_cached_in_grown(s.queue, s.cache, m2);
            lemma_paths_concat(s.queue, new);
            let q = s.queue + new;
            assert forall|i: int| 0 <= i < q.len() implies {
                &&& m2.contains_key(#[trigger] q[i].path@)
                &&& m2[q[i].path@] == q[i].metadata
            } by {
                if i < s.queue.len() {
                    assert(q[i] == s.queue[i]);
                } else {
                    assert(q[i] == new[i - s.queue.len()]);
                }
            }
        },
    }
}

/// Skipping, clearing and the end of a track keep the player well formed.
pub proof fn lemma_queue_ops_keep_invariant(s: AppState)
    requires
        s.wf(),
    ensures
        skip_state(s).wf(),
        clear_state(s).wf(),
        finished_state(s).wf(),
{
    if s.queue.len() > 0 {
        lemma_paths_drop_first(s.queue);
        assert(s.engine.cleared().queued() =~= Seq::<String>::empty());
        if s.queue.len() == 1 {
            assert(paths(s.queue.drop_first()) =~= Seq::<String>::empty());
        }
        let q = s.queue.drop_first();
        assert forall|i: int| 0 <= i < q.len() implies {
            &&& s.cache.contains_key(#[trigger] q[i].path@)
            &&& s.cache[q[i].path@] == q[i].metadata
        } by {
            assert(q[i] == s.queue[i + 1]);
        }
    }
    assert(paths(Seq::<Track>::empty()) =~= Seq::<String>::empty());
    assert(clear_state(s).engine.queued() =~= Seq::<String>::empty());
}

/// Every operation of the player keeps it well formed: by induction, so
/// does every sequence of them, and the queue and sink stay in lockstep.
pub proof fn lemma_operations_keep_lockstep(s: AppState, sel: Selection)
    requires
        s.wf(),
    ensures
        play_state(s, sel).wf(),
        append_state(s, sel).wf(),
        skip_state(s).wf(),
        clear_state(s).wf(),
        finished_state(s).wf(),
{
    lemma_selection_ops_keep_invariant(s, sel);
    lemma_queue_ops_keep_invariant(s);
}

/// After a skip with at least two tracks queued, the track that was second
/// is first, plays first in the sink, and its metadata is the current one.
pub proof fn lemma_skip_advances(s: AppState)
    requires
        s.wf(),
        s.queue.len() >= 2,
    ensures
        skip_state(s).queue[0].path == s.queue[1].path,
        skip_state(s).engine.queued()[0] == s.queue[1].path,
        skip_state(s).current() == Some(s.queue[1].metadata),
{
}

/// Clearing twice leaves the queue and the sink empty both times.
pub proof fn lemma_clear_twice(s: AppState)
    ensures
        clear_state(s).queue.len() == 0,
        clear_state(s).engine.queued().len() == 0,
        clear_state(clear_state(s)).queue.len() == 0,
        clear_state(clear_state(s)).engine.queued().len() == 0,
{
}

/// Skipping with an empty queue changes nothing and asks nothing of the
/// backend.
pub proof fn lemma_skip_empty(s: AppState)
    requires
        s.queue.len() == 0,
    ensures
        skip_state(s) == s,
        skip_commands(s) == Seq::<SinkCommand>::empty(),
{
}

proof fn lemma_gather_none_loadable(m: Map<Seq<char>, FileMetadata>, cs: Seq<Candidate>)
    requires
        forall|i: int| 0 <= i < cs.len() ==> !loadable(#[trigger] cs[i]),
    ensures
        gather(m, cs).1.len() == 0,
    decreases cs.len(),
{
    if cs.len() > 0 {
        lemma_gather_none_loadable(m, cs.drop_last());
        assert(!loadable(cs[cs.len() - 1]));
    }
}

/// Appending a directory none of whose files can be played leaves the queue
/// and the sink as they were and asks nothing of the backend.
pub proof fn lemma_append_unplayable_dir(s: AppState, cs: Vec<Candidate>)
    requires
        forall|i: int| 0 <= i < cs@.len() ==> !loadable(#[trigger] cs@[i]),
    ensures
        append_state(s, Selection::Directory(cs)).queue == s.queue,
        append_state(s, Selection::Directory(cs)).engine == s.engine,
        append_result(s, Selection::Directory(cs)) == Ok::<Seq<SinkCommand>, LoadError>(
            Seq::empty(),
        ),
{
    lemma_gather_none_loadable(s.cache, cs@);
}

/// With an empty sink, appending a selection does exactly what playing it
/// does.
pub proof fn lemma_append_to_idle_is_play(s: AppState, sel: Selection)
    requires
        s.wf(),
        s.engine.idle(),
    ensures
        append_state(s, sel) == play_state(s, sel),
        append_result(s, sel) == play_result(s, sel),
{
    assert(s.queue.len() == 0);
    assert(s.queue =~= Seq::<Track>::empty());
    match sel {
        Selection::File(c) => {
            let t = track_of(s.cache, c);
            assert(s.queue.push(t) =~= seq![t] + s.queue);
        },
        Selection::Directory(cs) => {
            let new = sorted_by_track(gather(s.cache, cs@).1);
            assert(s.queue + new =~= new);
        },
    }
}

/// Playing a loadable file with nothing queued queues just that file, loads
/// it alone into the sink at the output volume, and makes its metadata the
/// current one: the probed metadata, where the cache had none for it.
pub proof fn lemma_play_on_empty(s: AppState, c: Candidate)
    requires
        s.wf(),
        s.queue.len() == 0,
        loadable(c),
    ensures
        paths(play_state(s, Selection::File(c)).queue) == seq![c.path],
        play_state(s, Selection::File(c)).engine.queued().len() == 1,
        play_state(s, Selection::File(c)).engine.sink.unwrap().volume == s.out_vol(),
        play_state(s, Selection::File(c)).current() == Some(resolved(s.cache, c.path@, c.metadata)),
        !s.cache.contains_key(c.path@) ==> play_state(s, Selection::File(c)).current() == Some(
            c.metadata,
        ),
        play_result(s, Selection::File(c)) == Ok::<Seq<SinkCommand>, LoadError>(
            seq![SinkCommand::LoadAndPlay(c.path)],
        ),
{
    let t = track_of(s.cache, c);
    let q = seq![t] + s.queue;
    assert(q =~= seq![t]);
    assert(paths(q) =~= seq![c.path]);
    assert(paths(q).drop_first() =~= Seq::<String>::empty());
    assert(reload_commands(paths(q)) =~= seq![SinkCommand::LoadAndPlay(c.path)]);
}

/// Playing a file whose audio could not be loaded changes nothing and
/// reports the load error.
pub proof fn lemma_failed_play_changes_nothing(s: AppState, c: Candidate, e: LoadError)
    requires
        c.load == Err::<(), LoadError>(e),
        crate::tracks::playable_candidate(c),
    ensures
        play_state(s, Selection::File(c)) == s,
        play_result(s, Selection::File(c)) == Err::<Seq<SinkCommand>, LoadError>(e),
{
}

} // verus!
