use vstd::prelude::*;

use crate::text::copy_string;

verus! {

/// Why a track could not be loaded.
#[derive(Clone, Copy, Debug, PartialEq, Eq, Structural)]
pub enum LoadError {
    /// The file is missing or unreadable.
    FileOpen,
    /// The file's audio data is unsupported or corrupt.
    Decode,
}

/// What the audio backend must do to follow the engine, in order.
#[derive(Clone, Debug)]
pub enum SinkCommand {
    /// Replace the sink with a new one holding just this track.
    LoadAndPlay(String),
    /// Queue this track at the end of the sink.
    Append(String),
    /// Drop every queued source and pause.
    Clear,
}

/// The sink that is playing: its sources in playing order and its controls.
pub struct ActiveSink {
    /// Paths of the loaded sources; the first one is playing.
    pub sources: Vec<String>,
    pub paused: bool,
    /// Volume in percent, at most 100.
    pub volume: u8,
    /// Playback speed in percent.
    pub speed: u16,
}

/// The model of the audio output: at most one active sink, and a generation
/// that changes whenever the sink is replaced or cleared, so that a decode
/// begun before the change is known to be stale when it completes.
pub struct SinkEngine {
    pub active: Option<ActiveSink>,
    pub generation: u64,
}

/// The generation after `g`.
pub open spec fn next_generation(g: u64) -> u64 {
    if g == u64::MAX {
        0
    } else {
        (g + 1) as u64
    }
}

fn bump(g: u64) -> (r: u64)
    ensures
        r == next_generation(g),
{
    if g == u64::MAX {
        0
    } else {
        g + 1
    }
}

/// The abstract state of a sink.
pub struct SinkState {
    /// Paths of the loaded sources; the first one is playing.
    pub sources: Seq<String>,
    pub paused: bool,
    pub volume: u8,
    pub speed: u16,
}

/// The abstract state of the engine.
pub struct EngineState {
    pub sink: Option<SinkState>,
    pub generation: u64,
}

impl View for SinkEngine {
    type V = EngineState;

    open spec fn view(&self) -> EngineState {
        EngineState {
            sink: match self.active {
                Some(a) => Some(
                    SinkState {
                        sources: a.sources@,
                        paused: a.paused,
                        volume: a.volume,
                        speed: a.speed,
                    },
                ),
                None => None,
            },
            generation: self.generation,
        }
    }
}

impl EngineState {
    /// The paths of the queued sources, in playing order.
    pub open spec fn queued(self) -> Seq<String> {
        match self.sink {
            Some(k) => k.sources,
            None => Seq::empty(),
        }
    }

    /// Whether no source is queued.
    pub open spec fn idle(self) -> bool {
        self.queued().len() == 0
    }

    pub open spec fn paused(self) -> bool {
        match self.sink {
            Some(k) => k.paused,
            None => false,
        }
    }

    pub open spec fn speed(self) -> u16 {
        match self.sink {
            Some(k) => k.speed,
            None => 100,
        }
    }

    /// Volumes stay within 0 to 100.
    pub open spec fn wf(self) -> bool {
        self.sink is Some ==> self.sink.unwrap().volume <= 100
    }

    /// A new sink that holds just `path`.
    pub open spec fn loaded(self, path: String, volume: u8) -> EngineState {
        EngineState {
            sink: Some(SinkState { sources: seq![path], paused: false, volume, speed: 100 }),
            generation: next_generation(self.generation),
        }
    }

    /// `path` queued at the end; dropped where the sink has run empty.
    pub open spec fn appended(self, path: String, volume: u8) -> EngineState {
        match self.sink {
            None => self.loaded(path, volume),
            Some(k) => EngineState {
                sink: Some(
                    SinkState {
                        sources: if k.sources.len() >= 1 {
                            k.sources.push(path)
                        } else {
                            k.sources
                        },
                        paused: k.paused,
                        volume,
                        speed: k.speed,
                    },
                ),
                generation: self.generation,
            },
        }
    }

    /// Every source dropped and the sink paused.
    pub open spec fn cleared(self) -> EngineState {
        EngineState {
            sink: match self.sink {
                Some(k) => Some(
                    SinkState { sources: Seq::empty(), paused: true, volume: k.volume, speed: k.speed },
                ),
                None => None,
            },
            generation: next_generation(self.generation),
        }
    }

    /// The playing source has ended.
    pub open spec fn advanced(self) -> EngineState {
        EngineState {
            sink: match self.sink {
                Some(k) => Some(
                    SinkState {
                        sources: if k.sources.len() > 0 {
                            k.sources.drop_first()
                        } else {
                            k.sources
                        },
                        paused: k.paused,
                        volume: k.volume,
                        speed: k.speed,
                    },
                ),
                None => None,
            },
            generation: self.generation,
        }
    }

    pub open spec fn toggled(self) -> EngineState {
        EngineState {
            sink: match self.sink {
                Some(k) => Some(
                    SinkState { sources: k.sources, paused: !k.paused, volume: k.volume, speed: k.speed },
                ),
                None => None,
            },
            generation: self.generation,
        }
    }

    pub open spec fn with_volume(self, volume: u8) -> EngineState {
        EngineState {
            sink: match self.sink {
                Some(k) => Some(
                    SinkState { sources: k.sources, paused: k.paused, volume, speed: k.speed },
                ),
                None => None,
            },
            generation: self.generation,
        }
    }

    pub open spec fn with_speed(self, speed: u16) -> EngineState {
        EngineState {
            sink: match self.sink {
                Some(k) => Some(
                    SinkState { sources: k.sources, paused: k.paused, volume: k.volume, speed },
                ),
                None => None,
            },
            generation: self.generation,
        }
    }
}

impl SinkEngine {
    /// An engine with no sink.
    pub fn new() -> (r: SinkEngine)
        ensures
            r@.sink is None,
            r@.generation == 0,
    {
        SinkEngine { active: None, generation: 0 }
    }

    /// Replaces the sink with one holding just `path` at `volume`, playing at
    /// normal speed, once its decode has succeeded; a failed decode leaves
    /// everything as it was and is reported.
    pub fn load_and_play(&mut self, path: &String, volume: u8, decoded: Result<(), LoadError>) -> (r:
        Result<(), LoadError>)
        requires
            volume <= 100,
        ensures
            r == decoded,
            final(self)@ == if decoded is Ok {
                old(self)@.loaded(*path, volume)
            } else {
                old(self)@
            },
    {
        if decoded.is_err() {
            return decoded;
        }
        let mut sources: Vec<String> = Vec::new();
        sources.push(copy_string(path));
        self.active = Some(ActiveSink { sources, paused: false, volume, speed: 100 });
        self.generation = bump(self.generation);
        assert(self@.queued() =~= seq![*path]);
        decoded
    }

    /// Queues `path` after the sources already loaded, once its decode has
    /// succeeded. With no sink this is `load_and_play`. A source decoded while
    /// the sink ran empty is dropped: the caller sees it in `length`.
    pub fn append(&mut self, path: &String, volume: u8, decoded: Result<(), LoadError>) -> (r: Result<
        (),
        LoadError,
    >)
        requires
            volume <= 100,
        ensures
            r == decoded,
            final(self)@ == if decoded is Ok {
                old(self)@.appended(*path, volume)
            } else {
                old(self)@
            },
    {
        if self.active.is_none() {
            return self.load_and_play(path, volume, decoded);
        }
        if decoded.is_err() {
            return decoded;
        }
        match &mut self.active {
            Some(a) => {
                if a.sources.len() >= 1 {
                    a.sources.push(copy_string(path));
                }
                a.volume = volume;
            },
            None => {},
        }
        decoded
    }

    /// Drops every queued source and pauses the sink, which stays in place.
    pub fn clear(&mut self)
        ensures
            final(self)@ == old(self)@.cleared(),
    {
        match &mut self.active {
            Some(a) => {
                a.sources.clear();
                a.paused = true;
            },
            None => {},
        }
        self.generation = bump(self.generation);
        assert(self@.queued() =~= Seq::<String>::empty());
    }

    /// The source that was playing has ended; the next one plays.
    pub fn source_finished(&mut self)
        ensures
            final(self)@ == old(self)@.advanced(),
    {
        match &mut self.active {
            Some(a) => {
                if a.sources.len() > 0 {
                    a.sources.remove(0);
                    assert(a.sources@ =~= old(self)@.queued().drop_first());
                }
            },
            None => {},
        }
    }

    /// Pauses a playing sink and resumes a paused one; without a sink, nothing.
    pub fn toggle_play_pause(&mut self)
        ensures
            final(self)@ == old(self)@.toggled(),
    {
        match &mut self.active {
            Some(a) => {
                a.paused = !a.paused;
            },
            None => {},
        }
    }

    /// Sets the sink's volume; without a sink, nothing.
    pub fn set_volume(&mut self, volume: u8)
        requires
            volume <= 100,
        ensures
            final(self)@ == old(self)@.with_volume(volume),
    {
        match &mut self.active {
            Some(a) => {
                a.volume = volume;
            },
            None => {},
        }
    }

    /// Sets the sink's speed in percent; without a sink, nothing.
    pub fn set_speed(&mut self, percent: u16)
        ensures
            final(self)@ == old(self)@.with_speed(percent),
    {
        match &mut self.active {
            Some(a) => {
                a.speed = percent;
            },
            None => {},
        }
    }

    /// How many sources are queued; zero without a sink.
    pub fn length(&self) -> (r: usize)
        ensures
            r == self@.queued().len(),
    {
        match &self.active {
            Some(a) => a.sources.len(),
            None => 0,
        }
    }

    /// Whether no source is queued.
    pub fn is_empty(&self) -> (r: bool)
        ensures
            r == self@.idle(),
    {
        self.length() == 0
    }

    /// Whether the sink is paused; false without a sink.
    pub fn is_paused(&self) -> (r: bool)
        ensures
            r == self@.paused(),
    {
        match &self.active {
            Some(a) => a.paused,
            None => false,
        }
    }

    /// The sink's speed in percent; normal speed without a sink.
    pub fn speed(&self) -> (r: u16)
        ensures
            r == self@.speed(),
    {
        match &self.active {
            Some(a) => a.speed,
            None => 100,
        }
    }

    /// Whether a decode begun at generation `g` may still be applied.
    pub fn is_current(&self, g: u64) -> (r: bool)
        ensures
            r == (g == self@.generation),
    {
        g == self.generation
    }
}

} // verus!
