use vstd::prelude::*;

use crate::cache::{cache_after, resolved, MetadataCache};
use crate::controls::{
    output_volume_of, speed_stepped, stepped_volume, volume_step_in_range, InputHandler, SPEED_NORMAL,
};
use crate::engine::{next_generation, EngineState, LoadError, SinkCommand, SinkEngine, SinkState};
use crate::metadata::{is_playable, FileMetadata};
use crate::laws::{lemma_queue_ops_keep_invariant, lemma_selection_ops_keep_invariant};
use crate::text::copy_string;
use crate::tracks::{
    loadable, metadata_of, paths, playable_candidate, sort_by_track, sorted_by_track, Candidate,
    Track,
};

verus! {

/// What the user picked in the browser.
#[derive(Debug)]
pub enum Selection {
    /// A single file.
    File(Candidate),
    /// The files of a directory, in the order the directory listed them.
    Directory(Vec<Candidate>),
}

/// What to do with a selection once its files are loaded.
#[derive(Clone, Copy, Debug, PartialEq, Eq, Structural)]
pub enum Request {
    Play,
    Append,
}

/// A command list or load error as values.
pub open spec fn outcome_view(r: Result<Vec<SinkCommand>, LoadError>) -> Result<
    Seq<SinkCommand>,
    LoadError,
> {
    match r {
        Ok(cmds) => Ok(cmds@),
        Err(e) => Err(e),
    }
}

/// The abstract state of the player.
pub struct AppState {
    /// The queue: the first track is playing or about to play.
    pub queue: Seq<Track>,
    pub cache: Map<Seq<char>, FileMetadata>,
    pub engine: EngineState,
    pub vol: i16,
    pub muted: bool,
}

impl AppState {
    /// The sink holds exactly the queued tracks, in queue order, and plays
    /// at the output volume; the volume is within range; each queued track's
    /// metadata is the cache's entry for its path.
    pub open spec fn wf(self) -> bool {
        &&& self.engine.queued() == paths(self.queue)
        &&& self.engine.wf()
        &&& self.engine.sink is Some ==> self.engine.sink.unwrap().volume == self.out_vol()
        &&& 0 <= self.vol <= 100
        &&& cached_in(self.queue, self.cache)
    }

    /// The volume new sources play at.
    pub open spec fn out_vol(self) -> u8 {
        output_volume_of(self.vol, self.muted)
    }

    /// The metadata shown as playing: the first track's, or none.
    pub open spec fn current(self) -> Option<FileMetadata> {
        if self.queue.len() > 0 {
            Some(self.queue[0].metadata)
        } else {
            None
        }
    }

    /// This state with another queue, cache and engine; the volume settings
    /// stay.
    pub open spec fn with_queue_engine(
        self,
        queue: Seq<Track>,
        cache: Map<Seq<char>, FileMetadata>,
        engine: EngineState,
    ) -> AppState {
        AppState { queue, cache, engine, vol: self.vol, muted: self.muted }
    }
}

/// Each track's metadata is the cache's entry for its path.
pub open spec fn cached_in(q: Seq<Track>, cache: Map<Seq<char>, FileMetadata>) -> bool {
    forall|i: int|
        0 <= i < q.len() ==> {
            &&& cache.contains_key(#[trigger] q[i].path@)
            &&& cache[q[i].path@] == q[i].metadata
        }
}

/// A new sink holding `ps`: the first loaded and playing, the rest appended.
pub open spec fn reloaded(e: EngineState, ps: Seq<String>, vol: u8) -> EngineState {
    EngineState {
        sink: Some(SinkState { sources: ps, paused: false, volume: vol, speed: 100 }),
        generation: next_generation(e.generation),
    }
}

/// `ps` queued at the end of a sink that is not empty.
pub open spec fn appended_all(e: EngineState, ps: Seq<String>, vol: u8) -> EngineState {
    EngineState {
        sink: Some(
            SinkState {
                sources: e.queued() + ps,
                paused: e.paused(),
                volume: vol,
                speed: e.speed(),
            },
        ),
        generation: e.generation,
    }
}

pub open spec fn append_commands(ps: Seq<String>) -> Seq<SinkCommand> {
    ps.map_values(|p: String| SinkCommand::Append(p))
}

/// Load the first path, then append the others in order.
pub open spec fn reload_commands(ps: Seq<String>) -> Seq<SinkCommand> {
    seq![SinkCommand::LoadAndPlay(ps[0])] + append_commands(ps.drop_first())
}

/// The track a candidate becomes, its metadata taken from the cache when
/// there.
pub open spec fn track_of(cache: Map<Seq<char>, FileMetadata>, c: Candidate) -> Track {
    Track { path: c.path, metadata: resolved(cache, c.path@, c.metadata) }
}

/// The loadable candidates as tracks, in the given order, and the cache
/// after their lookups.
pub open spec fn gather(cache: Map<Seq<char>, FileMetadata>, cs: Seq<Candidate>) -> (
    Map<Seq<char>, FileMetadata>,
    Seq<Track>,
)
    decreases cs.len(),
{
    if cs.len() == 0 {
        (cache, Seq::empty())
    } else {
        let (m, ts) = gather(cache, cs.drop_last());
        let c = cs.last();
        if loadable(c) {
            (cache_after(m, c.path@, c.metadata), ts.push(track_of(m, c)))
        } else {
            (m, ts)
        }
    }
}

/// The tracks a directory contributes: its loadable files by track number.
pub open spec fn dir_tracks(cache: Map<Seq<char>, FileMetadata>, cs: Seq<Candidate>) -> Seq<Track> {
    sorted_by_track(gather(cache, cs).1)
}

/// The state after `play`.
pub open spec fn play_state(s: AppState, sel: Selection) -> AppState {
    match sel {
        Selection::File(c) => {
            if !loadable(c) {
                s
            } else {
                let q = seq![track_of(s.cache, c)] + s.queue;
                s.with_queue_engine(
                    q,
                    cache_after(s.cache, c.path@, c.metadata),
                    reloaded(s.engine, paths(q), s.out_vol()),
                )
            }
        },
        Selection::Directory(cs) => {
            let (m, ts) = gather(s.cache, cs@);
            let q = sorted_by_track(ts);
            if q.len() == 0 {
                s.with_queue_engine(s.queue, m, s.engine)
            } else {
                s.with_queue_engine(q, m, reloaded(s.engine, paths(q), s.out_vol()))
            }
        },
    }
}

/// What `play` returns: the commands for the backend, or the load error of
/// the picked file.
pub open spec fn play_result(s: AppState, sel: Selection) -> Result<Seq<SinkCommand>, LoadError> {
    match sel {
        Selection::File(c) => {
            if !playable_candidate(c) {
                Ok(Seq::empty())
            } else {
                match c.load {
                    Err(e) => Err(e),
                    Ok(_) => Ok(reload_commands(paths(play_state(s, sel).queue))),
                }
            }
        },
        Selection::Directory(cs) => {
            let q = dir_tracks(s.cache, cs@);
            if q.len() == 0 {
                Ok(Seq::empty())
            } else {
                Ok(reload_commands(paths(q)))
            }
        },
    }
}

/// The state after `append`.
pub open spec fn append_state(s: AppState, sel: Selection) -> AppState {
    match sel {
        Selection::File(c) => {
            if !loadable(c) {
                s
            } else {
                let t = track_of(s.cache, c);
                let q = s.queue.push(t);
                s.with_queue_engine(
                    q,
                    cache_after(s.cache, c.path@, c.metadata),
                    if s.engine.idle() {
                        reloaded(s.engine, paths(q), s.out_vol())
                    } else {
                        s.engine.appended(t.path, s.out_vol())
                    },
                )
            }
        },
        Selection::Directory(cs) => {
            let (m, ts) = gather(s.cache, cs@);
            let new = sorted_by_track(ts);
            if new.len() == 0 {
                s.with_queue_engine(s.queue, m, s.engine)
            } else {
                let q = s.queue + new;
                s.with_queue_engine(
                    q,
                    m,
                    if s.engine.idle() {
                        reloaded(s.engine, paths(q), s.out_vol())
                    } else {
                        appended_all(s.engine, paths(new), s.out_vol())
                    },
                )
            }
        },
    }
}

/// What `append` returns.
pub open spec fn append_result(s: AppState, sel: Selection) -> Result<Seq<SinkCommand>, LoadError> {
    match sel {
        Selection::File(c) => {
            if !playable_candidate(c) {
                Ok(Seq::empty())
            } else {
                match c.load {
                    Err(e) => Err(e),
                    Ok(_) => if s.engine.idle() {
                        Ok(reload_commands(paths(append_state(s, sel).queue)))
                    } else {
                        Ok(seq![SinkCommand::Append(c.path)])
                    },
                }
            }
        },
        Selection::Directory(cs) => {
            let new = dir_tracks(s.cache, cs@);
            if new.len() == 0 {
                Ok(Seq::empty())
            } else if s.engine.idle() {
                Ok(reload_commands(paths(append_state(s, sel).queue)))
            } else {
                Ok(append_commands(paths(new)))
            }
        },
    }
}

/// The state after `skip`.
pub open spec fn skip_state(s: AppState) -> AppState {
    if s.queue.len() == 0 {
        s
    } else {
        let q = s.queue.drop_first();
        let e = s.engine.cleared();
        s.with_queue_engine(
            q,
            s.cache,
            if q.len() > 0 {
                reloaded(e, paths(q), s.out_vol())
            } else {
                e
            },
        )
    }
}

/// What `skip` returns.
pub open spec fn skip_commands(s: AppState) -> Seq<SinkCommand> {
    if s.queue.len() == 0 {
        Seq::empty()
    } else if s.queue.len() == 1 {
        seq![SinkCommand::Clear]
    } else {
        seq![SinkCommand::Clear] + reload_commands(paths(s.queue.drop_first()))
    }
}

/// The state after `clear`.
pub open spec fn clear_state(s: AppState) -> AppState {
    s.with_queue_engine(Seq::empty(), s.cache, s.engine.cleared())
}

/// The state after the playing track has ended by itself.
pub open spec fn finished_state(s: AppState) -> AppState {
    s.with_queue_engine(
        if s.queue.len() > 0 {
            s.queue.drop_first()
        } else {
            s.queue
        },
        s.cache,
        s.engine.advanced(),
    )
}

/// The state after `k` tracks ended by themselves.
pub open spec fn finished_times(s: AppState, k: nat) -> AppState
    decreases k,
{
    if k == 0 {
        s
    } else {
        finished_state(finished_times(s, (k - 1) as nat))
    }
}

/// How many tracks the device finished, judged by how many sources it
/// still holds against how many the engine holds.
pub open spec fn finished_count(s: AppState, device_len: nat) -> nat {
    if s.engine.queued().len() > device_len {
        (s.engine.queued().len() - device_len) as nat
    } else {
        0
    }
}

proof fn lemma_finished_times_queue(s: AppState, k: nat)
    requires
        k <= s.queue.len(),
    ensures
        finished_times(s, k).queue == s.queue.skip(k as int),
    decreases k,
{
    if k > 0 {
        lemma_finished_times_queue(s, (k - 1) as nat);
        assert(s.queue.skip(k - 1).drop_first() =~= s.queue.skip(k as int));
    } else {
        assert(s.queue.skip(0) =~= s.queue);
    }
}

/// The queue orchestrator: the track queue, the metadata cache and the
/// sink, changed only together.
pub struct App {
    queue: Vec<Track>,
    cache: MetadataCache,
    audio: InputHandler,
}

impl View for App {
    type V = AppState;

    closed spec fn view(&self) -> AppState {
        AppState {
            queue: self.queue@,
            cache: self.cache@,
            engine: self.audio.engine@,
            vol: self.audio.vol,
            muted: self.audio.muted,
        }
    }
}

fn is_loadable(c: &Candidate) -> (r: bool)
    ensures
        r == loadable(*c),
{
    match &c.extension {
        Some(e) => is_playable(e.as_str()) && c.load.is_ok(),
        None => false,
    }
}

fn is_playable_candidate(c: &Candidate) -> (r: bool)
    ensures
        r == playable_candidate(*c),
{
    match &c.extension {
        Some(e) => is_playable(e.as_str()),
        None => false,
    }
}

impl App {
    pub closed spec fn wf(&self) -> bool {
        &&& self.cache.wf()
        &&& self.audio.wf()
        &&& self@.wf()
    }

    /// A well-formed player's state is well formed.
    pub proof fn lemma_wf_view(&self)
        requires
            self.wf(),
        ensures
            self@.wf(),
    {
    }

    /// An empty queue, an empty cache, no sink, full volume.
    pub fn new() -> (r: App)
        ensures
            r.wf(),
            r@.queue == Seq::<Track>::empty(),
            r@.cache == Map::<Seq<char>, FileMetadata>::empty(),
            r@.engine.sink is None,
            r@.vol == 100,
            !r@.muted,
    {
        let r = App { queue: Vec::new(), cache: MetadataCache::new(), audio: InputHandler::new() };
        assert(paths(r.queue@) =~= Seq::<String>::empty());
        r
    }

    /// Loads the queue into a new sink: its first track played, the others
    /// appended in order.
    fn reload(&mut self, cmds: &mut Vec<SinkCommand>)
        requires
            old(self).cache.wf(),
            old(self).audio.wf(),
            old(self).queue@.len() > 0,
        ensures
            final(self).cache.wf(),
            final(self).audio.wf(),
            final(self)@ == old(self)@.with_queue_engine(
                old(self)@.queue,
                old(self)@.cache,
                reloaded(old(self)@.engine, paths(old(self)@.queue), old(self)@.out_vol()),
            ),
            final(cmds)@ == old(cmds)@ + reload_commands(paths(old(self)@.queue)),
    {
        let ghost e0 = self.audio.engine@;
        let ghost c0 = cmds@;
        let ghost ps = paths(self.queue@);
        let ghost v = self@.out_vol();
        let _ = self.audio.play(&self.queue[0].path, Ok(()));
        cmds.push(SinkCommand::LoadAndPlay(copy_string(&self.queue[0].path)));
        assert(ps.take(1) =~= seq![ps[0]]);
        let mut i: usize = 1;
        while i < self.queue.len()
            invariant
                self.cache.wf(),
                self.audio.wf(),
                self.queue == old(self).queue,
                self.cache == old(self).cache,
                self.audio.vol == old(self).audio.vol,
                self.audio.muted == old(self).audio.muted,
                self.queue@.len() > 0,
                1 <= i <= self.queue@.len(),
                ps == paths(self.queue@),
                v == output_volume_of(self.audio.vol, self.audio.muted),
                self.audio.engine@ == reloaded(e0, ps.take(i as int), v),
                cmds@ == c0 + seq![SinkCommand::LoadAndPlay(ps[0])] + append_commands(
                    ps.subrange(1, i as int),
                ),
            decreases self.queue@.len() - i,
        {
            let _ = self.audio.append(&self.queue[i].path, Ok(()));
            cmds.push(SinkCommand::Append(copy_string(&self.queue[i].path)));
            assert(ps.take(i + 1) =~= ps.take(i as int).push(ps[i as int]));
            assert(append_commands(ps.subrange(1, i + 1)) =~= append_commands(
                ps.subrange(1, i as int),
            ).push(SinkCommand::Append(ps[i as int])));
            i = i + 1;
        }
        assert(ps.take(i as int) =~= ps);
        assert(ps.subrange(1, i as int) =~= ps.drop_first());
        assert(cmds@ =~= c0 + reload_commands(ps));
    }

    /// The loadable candidates as tracks, their metadata looked up in the
    /// cache, which keeps what it did not hold.
    fn gather_tracks(&mut self, cs: &Vec<Candidate>) -> (r: Vec<Track>)
        requires
            old(self).cache.wf(),
        ensures
            final(self).cache.wf(),
            final(self).queue == old(self).queue,
            final(self).audio == old(self).audio,
            (final(self).cache@, r@) == gather(old(self).cache@, cs@),
    {
        let ghost m0 = self.cache@;
        let mut out: Vec<Track> = Vec::new();
        let mut i: usize = 0;
        assert(cs@.take(0) =~= Seq::<Candidate>::empty());
        while i < cs.len()
            invariant
                self.cache.wf(),
                self.queue == old(self).queue,
                self.audio == old(self).audio,
                0 <= i <= cs@.len(),
                (self.cache@, out@) == gather(m0, cs@.take(i as int)),
            decreases cs@.len() - i,
        {
            let c = &cs[i];
            assert(cs@.take(i + 1).drop_last() =~= cs@.take(i as int));
            assert(cs@.take(i + 1).last() == cs@[i as int]);
            if is_loadable(c) {
                let md = self.cache.get_or_insert(&c.path, c.metadata.duplicate());
                out.push(Track { path: copy_string(&c.path), metadata: md });
            }
            i = i + 1;
        }
        assert(cs@.take(i as int) =~= cs@);
        out
    }

    /// Plays the selection. A file goes to the front of the queue and the
    /// sink is rebuilt from the whole queue; a directory's loadable files,
    /// by track number, replace the queue. A file that could not be loaded
    /// changes nothing and its error is returned; a file that cannot be
    /// played is ignored. Returns what the backend must do, in order.
    pub fn handle_play(&mut self, sel: Selection) -> (r: Result<Vec<SinkCommand>, LoadError>)
        requires
            old(self).wf(),
        ensures
            final(self).wf(),
            final(self)@ == play_state(old(self)@, sel),
            match r {
                Ok(cmds) => play_result(old(self)@, sel) == Ok::<Seq<SinkCommand>, LoadError>(
                    cmds@,
                ),
                Err(e) => play_result(old(self)@, sel) == Err::<Seq<SinkCommand>, LoadError>(e),
            },
    {
        let ghost s = self@;
        let ghost sel0 = sel;
        proof {
            lemma_selection_ops_keep_invariant(s, sel0);
        }
        match sel {
            Selection::File(c) => {
                if !is_playable_candidate(&c) {
                    return Ok(Vec::new());
                }
                if let Err(e) = c.load {
                    return Err(e);
                }
                let ghost t = track_of(s.cache, c);
                let md = self.cache.get_or_insert(&c.path, c.metadata);
                self.queue.insert(0, Track { path: c.path, metadata: md });
                assert(self.queue@ =~= seq![t] + s.queue);
                let mut cmds: Vec<SinkCommand> = Vec::new();
                self.reload(&mut cmds);
                assert(cmds@ =~= reload_commands(paths(self@.queue)));
                Ok(cmds)
            },
            Selection::Directory(cs) => {
                let ts = self.gather_tracks(&cs);
                let sorted = sort_by_track(ts);
                if sorted.len() == 0 {
                    return Ok(Vec::new());
                }
                self.queue = sorted;
                let mut cmds: Vec<SinkCommand> = Vec::new();
                self.reload(&mut cmds);
                assert(cmds@ =~= reload_commands(paths(self@.queue)));
                Ok(cmds)
            },
        }
    }

    /// Appends the selection at the end of the queue: a file, or a
    /// directory's loadable files by track number. With an empty sink this
    /// plays the queue from its start. Errors and ignored files as in
    /// `handle_play`. Returns what the backend must do, in order.
    pub fn handle_append(&mut self, sel: Selection) -> (r: Result<Vec<SinkCommand>, LoadError>)
        requires
            old(self).wf(),
        ensures
            final(self).wf(),
            final(self)@ == append_state(old(self)@, sel),
            match r {
                Ok(cmds) => append_result(old(self)@, sel) == Ok::<Seq<SinkCommand>, LoadError>(
                    cmds@,
                ),
                Err(e) => append_result(old(self)@, sel) == Err::<Seq<SinkCommand>, LoadError>(e),
            },
    {
        let ghost s = self@;
        let ghost sel0 = sel;
        proof {
            lemma_selection_ops_keep_invariant(s, sel0);
        }
        match sel {
            Selection::File(c) => {
                if !is_playable_candidate(&c) {
                    return Ok(Vec::new());
                }
                if let Err(e) = c.load {
                    return Err(e);
                }
                let ghost t = track_of(s.cache, c);
                let was_idle = self.audio.is_empty();
                let md = self.cache.get_or_insert(&c.path, c.metadata);
                let path = copy_string(&c.path);
                self.queue.push(Track { path: c.path, metadata: md });
                assert(self.queue@ =~= s.queue.push(t));
                assert(paths(self.queue@) =~= paths(s.queue).push(t.path));
                let mut cmds: Vec<SinkCommand> = Vec::new();
                if was_idle {
                    self.reload(&mut cmds);
                    assert(cmds@ =~= reload_commands(paths(self@.queue)));
                } else {
                    let _ = self.audio.append(&path, Ok(()));
                    cmds.push(SinkCommand::Append(path));
                    assert(cmds@ =~= seq![SinkCommand::Append(t.path)]);
                }
                Ok(cmds)
            },
            Selection::Directory(cs) => {
                let ts = self.gather_tracks(&cs);
                let mut new = sort_by_track(ts);
                if new.len() == 0 {
                    return Ok(Vec::new());
                }
                let ghost nv = new@;
                let ghost ps = paths(nv);
                let mut cmds: Vec<SinkCommand> = Vec::new();
                if self.audio.is_empty() {
                    self.queue.append(&mut new);
                    assert(self.queue@ =~= s.queue + nv);
                    self.reload(&mut cmds);
                    assert(cmds@ =~= reload_commands(paths(self@.queue)));
                } else {
                    let ghost e0 = self.audio.engine@;
                    let ghost v = s.out_vol();
                    let mut i: usize = 0;
                    while i < new.len()
                        invariant
                            self.cache.wf(),
                            self.audio.wf(),
                            self.queue == old(self).queue,
                            self.cache@ == gather(s.cache, cs@).0,
                            self.audio.vol == s.vol,
                            self.audio.muted == s.muted,
                            new@ == nv,
                            ps == paths(nv),
                            v == output_volume_of(s.vol, s.muted),
                            e0 == s.engine,
                            e0.queued().len() > 0,
                            0 <= i <= nv.len(),
                            i == 0 ==> self.audio.engine@ == e0,
                            i > 0 ==> self.audio.engine@ == appended_all(e0, ps.take(i as int), v),
                            cmds@ == append_commands(ps.take(i as int)),
                        decreases nv.len() - i,
                    {
                        let _ = self.audio.append(&new[i].path, Ok(()));
                        cmds.push(SinkCommand::Append(copy_string(&new[i].path)));
                        assert(ps.take(i + 1) =~= ps.take(i as int).push(ps[i as int]));
                        assert(append_commands(ps.take(i + 1)) =~= append_commands(
                            ps.take(i as int),
                        ).push(SinkCommand::Append(ps[i as int])));
                        assert(self.audio.engine@ =~= appended_all(e0, ps.take(i + 1), v));
                        i = i + 1;
                    }
                    assert(ps.take(i as int) =~= ps);
                    self.queue.append(&mut new);
                    assert(self.queue@ =~= s.queue + nv);
                    assert(paths(self.queue@) =~= paths(s.queue) + ps);
                }
                Ok(cmds)
            },
        }
    }

    /// Applies a selection whose files were loaded off the control thread,
    /// the loading having begun at engine generation `started`. Where the
    /// sink was replaced or cleared since, the loads are stale: nothing
    /// changes and `None` is returned. Otherwise the request is carried out.
    pub fn apply_loaded(&mut self, request: Request, started: u64, sel: Selection) -> (r: Option<
        Result<Vec<SinkCommand>, LoadError>,
    >)
        requires
            old(self).wf(),
        ensures
            final(self).wf(),
            started != old(self)@.engine.generation ==> r is None && final(self)@ == old(self)@,
            started == old(self)@.engine.generation && request == Request::Play ==> ({
                &&& r is Some
                &&& final(self)@ == play_state(old(self)@, sel)
                &&& outcome_view(r.unwrap()) == play_result(old(self)@, sel)
            }),
            started == old(self)@.engine.generation && request == Request::Append ==> ({
                &&& r is Some
                &&& final(self)@ == append_state(old(self)@, sel)
                &&& outcome_view(r.unwrap()) == append_result(old(self)@, sel)
            }),
    {
        if !self.audio.engine.is_current(started) {
            return None;
        }
        match request {
            Request::Play => Some(self.handle_play(sel)),
            Request::Append => Some(self.handle_append(sel)),
        }
    }

    /// Leaves the playing track: the queue's first track is dropped, the
    /// sink cleared, and the rest of the queue loaded into it again. With
    /// an empty queue, nothing happens.
    pub fn handle_skip(&mut self) -> (r: Vec<SinkCommand>)
        requires
            old(self).wf(),
        ensures
            final(self).wf(),
            final(self)@ == skip_state(old(self)@),
            r@ == skip_commands(old(self)@),
    {
        proof {
            lemma_queue_ops_keep_invariant(self@);
        }
        if self.queue.len() == 0 {
            return Vec::new();
        }
        let ghost s = self@;
        self.queue.remove(0);
        assert(self.queue@ =~= s.queue.drop_first());
        self.audio.clear_sink();
        let mut cmds: Vec<SinkCommand> = Vec::new();
        cmds.push(SinkCommand::Clear);
        if self.queue.len() > 0 {
            self.reload(&mut cmds);
        } else {
            assert(paths(self.queue@) =~= Seq::<String>::empty());
        }
        assert(cmds@ =~= skip_commands(s));
        cmds
    }

    /// Empties the queue and clears the sink.
    pub fn clear(&mut self) -> (r: Vec<SinkCommand>)
        requires
            old(self).wf(),
        ensures
            final(self).wf(),
            final(self)@ == clear_state(old(self)@),
            r@ == seq![SinkCommand::Clear],
    {
        proof {
            lemma_queue_ops_keep_invariant(self@);
        }
        self.queue.clear();
        self.audio.clear_sink();
        assert(paths(self.queue@) =~= Seq::<String>::empty());
        let mut cmds: Vec<SinkCommand> = Vec::new();
        cmds.push(SinkCommand::Clear);
        assert(cmds@ =~= seq![SinkCommand::Clear]);
        cmds
    }

    /// The playing track has ended by itself: the backend moved on, and so
    /// does the queue.
    pub fn track_finished(&mut self)
        requires
            old(self).wf(),
        ensures
            final(self).wf(),
            final(self)@ == finished_state(old(self)@),
    {
        let ghost s = self@;
        proof {
            lemma_queue_ops_keep_invariant(s);
        }
        if self.queue.len() > 0 {
            self.queue.remove(0);
        }
        self.audio.engine.source_finished();
        assert(paths(self.queue@) =~= self.audio.engine@.queued());
    }

    /// The device reports that it still holds `device_len` sources: the
    /// tracks it finished since, as many as the engine holds beyond that,
    /// leave the queue and the engine from the front.
    pub fn retire_finished(&mut self, device_len: usize)
        requires
            old(self).wf(),
        ensures
            final(self).wf(),
            final(self)@ == finished_times(old(self)@, finished_count(old(self)@, device_len as nat)),
            final(self)@.queue == old(self)@.queue.skip(
                finished_count(old(self)@, device_len as nat) as int,
            ),
    {
        let ghost s = self@;
        let n = self.audio.engine.length();
        if n <= device_len {
            return;
        }
        let k = n - device_len;
        let mut i: usize = 0;
        while i < k
            invariant
                self.wf(),
                0 <= i <= k,
                k == finished_count(s, device_len as nat),
                self@ == finished_times(s, i as nat),
            decreases k - i,
        {
            self.track_finished();
            i = i + 1;
        }
        proof {
            lemma_finished_times_queue(s, k as nat);
        }
    }

    /// After an append, a device that ran empty while the appended sources
    /// decoded has dropped them: where it holds no source while the queue is
    /// not empty, the queue is loaded into a new sink again.
    pub fn reload_if_drained(&mut self, device_len: usize) -> (r: Vec<SinkCommand>)
        requires
            old(self).wf(),
        ensures
            final(self).wf(),
            device_len == 0 && old(self)@.queue.len() > 0 ==> ({
                &&& final(self)@ == old(self)@.with_queue_engine(
                    old(self)@.queue,
                    old(self)@.cache,
                    reloaded(old(self)@.engine, paths(old(self)@.queue), old(self)@.out_vol()),
                )
                &&& r@ == reload_commands(paths(old(self)@.queue))
            }),
            !(device_len == 0 && old(self)@.queue.len() > 0) ==> ({
                &&& final(self)@ == old(self)@
                &&& r@ == Seq::<SinkCommand>::empty()
            }),
    {
        let mut cmds: Vec<SinkCommand> = Vec::new();
        if device_len == 0 && self.queue.len() > 0 {
            self.reload(&mut cmds);
            assert(cmds@ =~= reload_commands(paths(self@.queue)));
        }
        cmds
    }

    /// The metadata of the track playing, or empty metadata when none is.
    pub fn current_metadata(&self) -> (r: FileMetadata)
        requires
            self.wf(),
        ensures
            self@.queue.len() > 0 ==> r == self@.queue[0].metadata,
            self@.queue.len() == 0 ==> r.is_bare_for(Seq::empty()),
    {
        if self.queue.len() > 0 {
            self.queue[0].metadata.duplicate()
        } else {
            FileMetadata::new()
        }
    }

    /// The playing track's length in seconds, where known.
    pub fn playback_length_seconds(&self) -> (r: Option<u64>)
        ensures
            self@.queue.len() > 0 ==> r == self@.queue[0].metadata.duration_as_secs,
            self@.queue.len() == 0 ==> r is None,
    {
        if self.queue.len() > 0 {
            self.queue[0].metadata.duration_as_secs
        } else {
            None
        }
    }

    /// The queued paths, in order.
    pub fn path_queue(&self) -> (r: Vec<String>)
        ensures
            r@ == paths(self@.queue),
    {
        let mut out: Vec<String> = Vec::new();
        let mut i: usize = 0;
        while i < self.queue.len()
            invariant
                0 <= i <= self.queue@.len(),
                out@ == paths(self.queue@.take(i as int)),
            decreases self.queue@.len() - i,
        {
            out.push(copy_string(&self.queue[i].path));
            assert(paths(self.queue@.take(i + 1)) =~= paths(self.queue@.take(i as int)).push(
                self.queue@[i as int].path,
            ));
            i = i + 1;
        }
        assert(self.queue@.take(i as int) =~= self.queue@);
        out
    }

    /// The metadata of the queued tracks, index by index with the paths.
    pub fn metadata_sequence(&self) -> (r: Vec<FileMetadata>)
        ensures
            r@ == metadata_of(self@.queue),
    {
        let mut out: Vec<FileMetadata> = Vec::new();
        let mut i: usize = 0;
        while i < self.queue.len()
            invariant
                0 <= i <= self.queue@.len(),
                out@ == metadata_of(self.queue@.take(i as int)),
            decreases self.queue@.len() - i,
        {
            out.push(self.queue[i].metadata.duplicate());
            assert(metadata_of(self.queue@.take(i + 1)) =~= metadata_of(
                self.queue@.take(i as int),
            ).push(self.queue@[i as int].metadata));
            i = i + 1;
        }
        assert(self.queue@.take(i as int) =~= self.queue@);
        out
    }

    /// How many tracks are queued.
    pub fn queue_depth(&self) -> (r: usize)
        ensures
            r == self@.queue.len(),
    {
        self.queue.len()
    }

    /// The engine's state, to read.
    pub fn engine(&self) -> (r: &SinkEngine)
        ensures
            r@ == self@.engine,
    {
        &self.audio.engine
    }

    /// The cached metadata of `path`, if any.
    pub fn cached(&self, path: &String) -> (r: Option<FileMetadata>)
        requires
            self.wf(),
        ensures
            r == if self@.cache.contains_key(path@) {
                Some(self@.cache[path@])
            } else {
                None
            },
    {
        self.cache.get(path)
    }

    /// The volume in percent.
    pub fn volume(&self) -> (r: i16)
        ensures
            r == self@.vol,
    {
        self.audio.vol
    }

    pub fn is_muted(&self) -> (r: bool)
        ensures
            r == self@.muted,
    {
        self.audio.muted
    }

    pub fn is_paused(&self) -> (r: bool)
        ensures
            r == self@.engine.paused(),
    {
        self.audio.engine.is_paused()
    }

    /// The playback speed in percent.
    pub fn speed(&self) -> (r: u16)
        ensures
            r == self@.engine.speed(),
    {
        self.audio.engine.speed()
    }

    /// Pauses or resumes playback.
    pub fn toggle_pause(&mut self)
        requires
            old(self).wf(),
        ensures
            final(self).wf(),
            final(self)@ == old(self)@.with_queue_engine(
                old(self)@.queue,
                old(self)@.cache,
                old(self)@.engine.toggled(),
            ),
    {
        self.audio.toggle_pause();
    }

    /// Changes the volume by `delta` where it stays within 0 to 100 and sets
    /// the sink to it; a step taken while muted ends the mute. A step out of
    /// range changes nothing.
    pub fn adjust_volume(&mut self, delta: i16)
        requires
            old(self).wf(),
        ensures
            final(self).wf(),
            final(self)@.queue == old(self)@.queue,
            final(self)@.cache == old(self)@.cache,
            final(self)@.vol == stepped_volume(old(self)@.vol, delta),
            volume_step_in_range(old(self)@.vol, delta) ==> ({
                &&& !final(self)@.muted
                &&& final(self)@.engine == old(self)@.engine.with_volume(final(self)@.vol as u8)
            }),
            !volume_step_in_range(old(self)@.vol, delta) ==> ({
                &&& final(self)@.muted == old(self)@.muted
                &&& final(self)@.engine == old(self)@.engine
            }),
    {
        self.audio.adjust_volume(delta);
    }

    /// Mutes, or gives the sink back its volume.
    pub fn toggle_mute(&mut self)
        requires
            old(self).wf(),
        ensures
            final(self).wf(),
            final(self)@.queue == old(self)@.queue,
            final(self)@.cache == old(self)@.cache,
            final(self)@.vol == old(self)@.vol,
            final(self)@.muted == !old(self)@.muted,
            final(self)@.engine == old(self)@.engine.with_volume(final(self)@.out_vol()),
    {
        self.audio.toggle_mute();
    }

    /// Changes the speed by `delta` percent within the allowed range.
    pub fn adjust_speed(&mut self, delta: i16)
        requires
            old(self).wf(),
        ensures
            final(self).wf(),
            final(self)@ == old(self)@.with_queue_engine(
                old(self)@.queue,
                old(self)@.cache,
                speed_stepped(old(self)@.engine, delta),
            ),
    {
        self.audio.adjust_speed(delta);
    }

    /// Back to normal speed.
    pub fn reset_speed(&mut self)
        requires
            old(self).wf(),
        ensures
            final(self).wf(),
            final(self)@ == old(self)@.with_queue_engine(
                old(self)@.queue,
                old(self)@.cache,
                old(self)@.engine.with_speed(SPEED_NORMAL),
            ),
    {
        self.audio.reset_speed();
    }
}

} // verus!
