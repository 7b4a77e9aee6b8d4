use vstd::prelude::*;

use crate::engine::{EngineState, LoadError, SinkEngine};

verus! {

/// Slowest playback speed, in percent.
pub const SPEED_MIN: i16 = 25;

/// Fastest playback speed, in percent.
pub const SPEED_MAX: i16 = 200;

/// Normal playback speed, in percent.
pub const SPEED_NORMAL: u16 = 100;

/// The user's transport settings and the engine they drive. The volume
/// survives sink replacement; mute silences the sink without losing it.
pub struct InputHandler {
    pub engine: SinkEngine,
    /// Volume in percent, 0 to 100.
    pub vol: i16,
    pub muted: bool,
}

/// The volume the sink plays at: none while muted.
pub open spec fn output_volume_of(vol: i16, muted: bool) -> u8 {
    if muted {
        0
    } else {
        vol as u8
    }
}

/// Whether a volume step of `delta` stays within 0 to 100.
pub open spec fn volume_step_in_range(vol: i16, delta: i16) -> bool {
    0 <= vol + delta <= 100
}

/// The volume after a step of `delta`: the step is taken only where it
/// stays within 0 to 100.
pub open spec fn stepped_volume(vol: i16, delta: i16) -> i16 {
    if volume_step_in_range(vol, delta) {
        (vol + delta) as i16
    } else {
        vol
    }
}

/// The engine after a speed step of `delta`: the step is taken only where
/// the speed stays within the slowest and fastest speeds.
pub open spec fn speed_stepped(e: EngineState, delta: i16) -> EngineState {
    if SPEED_MIN <= e.speed() + delta <= SPEED_MAX {
        e.with_speed((e.speed() + delta) as u16)
    } else {
        e
    }
}

impl InputHandler {
    pub open spec fn wf(self) -> bool {
        0 <= self.vol <= 100 && self.engine@.wf()
    }

    /// Full volume, not muted, no sink.
    pub fn new() -> (r: InputHandler)
        ensures
            r.wf(),
            r.vol == 100,
            !r.muted,
            r.engine@.sink is None,
            r.engine@.generation == 0,
    {
        InputHandler { engine: SinkEngine::new(), vol: 100, muted: false }
    }

    /// The volume the sink plays at.
    pub fn output_volume(&self) -> (r: u8)
        requires
            self.wf(),
        ensures
            r == output_volume_of(self.vol, self.muted),
            r <= 100,
    {
        if self.muted {
            0
        } else {
            self.vol as u8
        }
    }

    /// Starts a new sink with `path` at the output volume.
    pub fn play(&mut self, path: &String, decoded: Result<(), LoadError>) -> (r: Result<(), LoadError>)
        requires
            old(self).wf(),
        ensures
            final(self).wf(),
            r == decoded,
            final(self).vol == old(self).vol,
            final(self).muted == old(self).muted,
            final(self).engine@ == if decoded is Ok {
                old(self).engine@.loaded(*path, output_volume_of(old(self).vol, old(self).muted))
            } else {
                old(self).engine@
            },
    {
        let v = self.output_volume();
        self.engine.load_and_play(path, v, decoded)
    }

    /// Queues `path` on the sink at the output volume.
    pub fn append(&mut self, path: &String, decoded: Result<(), LoadError>) -> (r: Result<
        (),
        LoadError,
    >)
        requires
            old(self).wf(),
        ensures
            final(self).wf(),
            r == decoded,
            final(self).vol == old(self).vol,
            final(self).muted == old(self).muted,
            final(self).engine@ == if decoded is Ok {
                old(self).engine@.appended(*path, output_volume_of(old(self).vol, old(self).muted))
            } else {
                old(self).engine@
            },
    {
        let v = self.output_volume();
        self.engine.append(path, v, decoded)
    }

    /// Drops every queued source and pauses.
    pub fn clear_sink(&mut self)
        requires
            old(self).wf(),
        ensures
            final(self).wf(),
            final(self).vol == old(self).vol,
            final(self).muted == old(self).muted,
            final(self).engine@ == old(self).engine@.cleared(),
    {
        self.engine.clear();
    }

    /// Pauses or resumes the sink.
    pub fn toggle_pause(&mut self)
        requires
            old(self).wf(),
        ensures
            final(self).wf(),
            final(self).vol == old(self).vol,
            final(self).muted == old(self).muted,
            final(self).engine@ == old(self).engine@.toggled(),
    {
        self.engine.toggle_play_pause();
    }

    /// Changes the volume by `delta` where the result stays within 0 to 100,
    /// and sets the sink to it. A step taken while muted ends the mute, so the
    /// sink always plays at the volume that was set; a step out of range
    /// changes nothing.
    pub fn adjust_volume(&mut self, delta: i16)
        requires
            old(self).wf(),
        ensures
            final(self).wf(),
            final(self).vol == stepped_volume(old(self).vol, delta),
            volume_step_in_range(old(self).vol, delta) ==> ({
                &&& !final(self).muted
                &&& final(self).engine@ == old(self).engine@.with_volume(final(self).vol as u8)
            }),
            !volume_step_in_range(old(self).vol, delta) ==> ({
                &&& final(self).muted == old(self).muted
                &&& final(self).engine@ == old(self).engine@
            }),
    {
        let new_vol: i32 = self.vol as i32 + delta as i32;
        if 0 <= new_vol && new_vol <= 100 {
            self.vol = new_vol as i16;
            self.muted = false;
            self.engine.set_volume(new_vol as u8);
        }
    }

    /// Silences the sink, or gives it back its volume.
    pub fn toggle_mute(&mut self)
        requires
            old(self).wf(),
        ensures
            final(self).wf(),
            final(self).vol == old(self).vol,
            final(self).muted == !old(self).muted,
            final(self).engine@ == old(self).engine@.with_volume(
                output_volume_of(final(self).vol, final(self).muted),
            ),
    {
        self.muted = !self.muted;
        let v = self.output_volume();
        self.engine.set_volume(v);
    }

    /// Changes the speed by `delta` percent where the result stays within
    /// the slowest and fastest speeds.
    pub fn adjust_speed(&mut self, delta: i16)
        requires
            old(self).wf(),
        ensures
            final(self).wf(),
            final(self).vol == old(self).vol,
            final(self).muted == old(self).muted,
            final(self).engine@ == speed_stepped(old(self).engine@, delta),
    {
        let s: i32 = self.engine.speed() as i32 + delta as i32;
        if SPEED_MIN as i32 <= s && s <= SPEED_MAX as i32 {
            self.engine.set_speed(s as u16);
        }
    }

    /// Back to normal speed.
    pub fn reset_speed(&mut self)
        requires
            old(self).wf(),
        ensures
            final(self).wf(),
            final(self).vol == old(self).vol,
            final(self).muted == old(self).muted,
            final(self).engine@ == old(self).engine@.with_speed(SPEED_NORMAL),
    {
        self.engine.set_speed(SPEED_NORMAL);
    }

    /// How many sources the sink holds.
    pub fn get_len(&self) -> (r: usize)
        ensures
            r == self.engine@.queued().len(),
    {
        self.engine.length()
    }

    /// Whether the sink holds no source.
    pub fn is_empty(&self) -> (r: bool)
        ensures
            r == self.engine@.idle(),
    {
        self.engine.is_empty()
    }
}

} // verus!
