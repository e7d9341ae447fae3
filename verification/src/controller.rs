//! The playback controller: one session at a time, and what each command
//! does to it.
//!
//! The controller keeps the record of the current session and decides. It
//! starts no thread and opens no device. Each command returns an order that
//! says what is to be done to the shared real-time state and to the threads
//! of a session; the caller carries the order out.
//!
//! A session is `Starting` from `play` until its stream runs, then `Playing`
//! or `Paused`. `stop` makes it `Stopping` until the stream is gone, then
//! the controller is `Idle`. Every session has a token of its own, and the
//! callback of a session whose token is not the current one is inert.

use vstd::prelude::*;
use crate::output::{callback, silence, StageState};
use crate::rt::RtState;
use crate::volume::{clamp_volume, clamped, in_unit_range};

verus! {

/// Bit pattern of `0.5`, the volume before any was set.
pub const DEFAULT_VOLUME_BITS: u32 = 0x3F00_0000;

/// Milliseconds that a stop leaves the callback to see the stop flag before
/// the stream is dropped.
pub const STOP_GRACE_MS: u64 = 50;

/// Where the controller is in the life of a session.
#[derive(Clone, Copy, Debug, PartialEq, Eq, Structural)]
pub enum ControllerPhase {
    Idle,
    Starting,
    Playing,
    Paused,
    Stopping,
}

/// Why a session could not start.
#[derive(Clone, Copy, Debug, PartialEq, Eq, Structural)]
pub enum PlayError {
    /// The file is missing or cannot be read.
    FileUnreadable,
    /// The container is unknown or cannot be probed; an empty or corrupt
    /// file ends here.
    UnsupportedFormat,
    /// No track has a codec, a sample rate and a channel count.
    NoAudioTrack,
    /// No decoder can be made for the track.
    DecoderUnavailable,
    /// There is no output device, or it gives no configuration.
    DeviceUnavailable,
    /// The device wants samples in a format that is not served.
    UnsupportedSampleFormat,
    /// The device did not build or start the stream.
    StreamFailed,
}

impl PlayError {
    /// The failure in words.
    pub fn message(&self) -> (s: &'static str)
        ensures
            s@ == (match *self {
                PlayError::FileUnreadable => "Failed to open file"@,
                PlayError::UnsupportedFormat => "Failed to probe format"@,
                PlayError::NoAudioTrack => "No valid audio track found"@,
                PlayError::DecoderUnavailable => "Failed to create decoder"@,
                PlayError::DeviceUnavailable => "No output device available"@,
                PlayError::UnsupportedSampleFormat => "Unsupported sample format"@,
                PlayError::StreamFailed => "Failed to build stream"@,
            }),
    {
        match self {
            PlayError::FileUnreadable => "Failed to open file",
            PlayError::UnsupportedFormat => "Failed to probe format",
            PlayError::NoAudioTrack => "No valid audio track found",
            PlayError::DecoderUnavailable => "Failed to create decoder",
            PlayError::DeviceUnavailable => "No output device available",
            PlayError::UnsupportedSampleFormat => "Unsupported sample format",
            PlayError::StreamFailed => "Failed to build stream",
        }
    }
}

/// A change that the controller makes to the shared real-time state.
#[derive(Clone, Copy, Debug, PartialEq, Eq, Structural)]
pub enum RtChange {
    Pause,
    Resume,
    /// Set the volume to this bit pattern, which is in `[0.0, 1.0]`.
    Volume(u32),
    /// Raise the stop flag, lift the pause, put the position to zero.
    Stop,
}

/// A change together with the token of the session whose state it is for.
#[derive(Clone, Copy, Debug, PartialEq, Eq, Structural)]
pub struct RtOrder {
    pub generation: u64,
    pub change: RtChange,
}

/// The state `rt` after `change`.
pub open spec fn applied(rt: RtState, change: RtChange) -> RtState {
    match change {
        RtChange::Pause => RtState { is_paused: true, ..rt },
        RtChange::Resume => RtState { is_paused: false, ..rt },
        RtChange::Volume(v) => RtState { volume: clamped(v), ..rt },
        RtChange::Stop => RtState { should_stop: true, is_paused: false, samples_played: 0, ..rt },
    }
}

/// Carries out `change` on `rt`.
pub fn apply(rt: &mut RtState, change: RtChange)
    ensures
        *final(rt) == applied(*old(rt), change),
{
    match change {
        RtChange::Pause => rt.pause(),
        RtChange::Resume => rt.resume(),
        RtChange::Volume(v) => rt.set_volume(v),
        RtChange::Stop => rt.request_stop(),
    }
}

/// The record of the current session.
#[derive(Debug)]
pub struct PlayerState {
    pub is_playing: bool,
    pub is_paused: bool,
    pub current_file: Option<String>,
    /// Bit pattern of the volume.
    pub volume: u32,
    /// Where the session was asked to start, in nanoseconds.
    pub seek_time: Option<u64>,
    pub samples_played: u64,
    /// The shared state as the controller last set it.
    pub rt_state: Option<RtState>,
}

/// A [`PlayerState`] with the file's path as a sequence of characters.
pub struct PlayerModel {
    pub is_playing: bool,
    pub is_paused: bool,
    pub current_file: Option<Seq<char>>,
    pub volume: u32,
    pub seek_time: Option<u64>,
    pub samples_played: u64,
    pub rt_state: Option<RtState>,
}

impl View for PlayerState {
    type V = PlayerModel;

    open spec fn view(&self) -> PlayerModel {
        PlayerModel {
            is_playing: self.is_playing,
            is_paused: self.is_paused,
            current_file: match self.current_file {
                Some(f) => Some(f@),
                None => None,
            },
            volume: self.volume,
            seek_time: self.seek_time,
            samples_played: self.samples_played,
            rt_state: self.rt_state,
        }
    }
}

/// The record while nothing was ever played.
pub open spec fn idle_player() -> PlayerModel {
    PlayerModel {
        is_playing: false,
        is_paused: false,
        current_file: None,
        volume: DEFAULT_VOLUME_BITS,
        seek_time: None,
        samples_played: 0,
        rt_state: None,
    }
}

impl Default for PlayerState {
    fn default() -> (r: Self)
        ensures
            r@ == idle_player(),
    {
        PlayerState {
            is_playing: false,
            is_paused: false,
            current_file: None,
            volume: DEFAULT_VOLUME_BITS,
            seek_time: None,
            samples_played: 0,
            rt_state: None,
        }
    }
}

/// What is to be done to start a session.
#[derive(Debug)]
pub struct PlayOrder {
    /// The stop that the session before is to get first, waited for until
    /// its stream is gone.
    pub stop: Option<RtOrder>,
    pub file_path: String,
    /// Where to seek before the first packet is read, in nanoseconds.
    pub seek_time: Option<u64>,
    /// The shared state that the new session starts with. It carries the
    /// session's token.
    pub rt: RtState,
}

/// The controller as mathematics.
pub struct ControllerModel {
    pub phase: ControllerPhase,
    pub player: PlayerModel,
    /// Token of the current session, or of the last one.
    pub generation: u64,
}

/// The token that follows `generation`. It is never `generation` itself.
pub open spec fn next_generation(generation: u64) -> u64 {
    if generation == u64::MAX {
        0
    } else {
        (generation + 1) as u64
    }
}

/// Whether a session is alive: one that a stop order has to reach.
pub open spec fn live(c: ControllerModel) -> bool {
    c.phase != ControllerPhase::Idle
}

/// The stop that goes to the current session, if one is alive.
pub open spec fn stop_order(c: ControllerModel) -> Option<RtOrder> {
    if live(c) {
        Some(RtOrder { generation: c.generation, change: RtChange::Stop })
    } else {
        None
    }
}

/// The shared state that a session with token `generation` starts with.
pub open spec fn fresh_rt(volume: u32, generation: u64, paused: bool) -> RtState {
    RtState {
        should_stop: false,
        finished: false,
        decoder_finished: false,
        is_paused: paused,
        volume: clamped(volume),
        samples_played: 0,
        generation,
    }
}

/// The controller after a session was ordered for `path`.
pub open spec fn after_play(
    c: ControllerModel,
    path: Seq<char>,
    volume: u32,
    seek: Option<u64>,
    paused: bool,
) -> ControllerModel {
    let generation = next_generation(c.generation);
    ControllerModel {
        phase: ControllerPhase::Starting,
        player: PlayerModel {
            is_playing: true,
            is_paused: paused,
            current_file: Some(path),
            volume: clamped(volume),
            seek_time: seek,
            samples_played: 0,
            rt_state: Some(fresh_rt(volume, generation, paused)),
        },
        generation,
    }
}

/// The controller's record of the shared state after `change`.
pub open spec fn recorded(rt: Option<RtState>, change: RtChange) -> Option<RtState> {
    match rt {
        Some(r) => Some(applied(r, change)),
        None => None,
    }
}

/// Whether a pause or a resume reaches a session: one that is starting,
/// playing or paused.
pub open spec fn pausable(c: ControllerModel) -> bool {
    c.phase == ControllerPhase::Starting || c.phase == ControllerPhase::Playing || c.phase
        == ControllerPhase::Paused
}

/// The controller after `pause`.
pub open spec fn after_pause(c: ControllerModel) -> ControllerModel {
    if pausable(c) {
        ControllerModel {
            phase: if c.phase == ControllerPhase::Starting {
                ControllerPhase::Starting
            } else {
                ControllerPhase::Paused
            },
            player: PlayerModel {
                is_paused: true,
                rt_state: recorded(c.player.rt_state, RtChange::Pause),
                ..c.player
            },
            ..c
        }
    } else {
        c
    }
}

/// The controller after `resume`.
pub open spec fn after_resume(c: ControllerModel) -> ControllerModel {
    if pausable(c) {
        ControllerModel {
            phase: if c.phase == ControllerPhase::Starting {
                ControllerPhase::Starting
            } else {
                ControllerPhase::Playing
            },
            player: PlayerModel {
                is_paused: false,
                is_playing: true,
                rt_state: recorded(c.player.rt_state, RtChange::Resume),
                ..c.player
            },
            ..c
        }
    } else {
        c
    }
}

/// The controller after `stop`.
pub open spec fn after_stop(c: ControllerModel) -> ControllerModel {
    if live(c) {
        ControllerModel {
            phase: ControllerPhase::Stopping,
            player: PlayerModel {
                is_playing: false,
                is_paused: false,
                samples_played: 0,
                rt_state: recorded(c.player.rt_state, RtChange::Stop),
                ..c.player
            },
            ..c
        }
    } else {
        c
    }
}

/// The controller after `set_volume`.
pub open spec fn after_set_volume(c: ControllerModel, volume: u32) -> ControllerModel {
    ControllerModel {
        player: PlayerModel {
            volume: clamped(volume),
            rt_state: recorded(c.player.rt_state, RtChange::Volume(clamped(volume))),
            ..c.player
        },
        ..c
    }
}

/// The controller once the seek of the session with token `generation` has
/// put the demuxer at frame `frames`: where that is the session being
/// started, its record and the shared state as recorded stand at that
/// frame; else nothing changes.
pub open spec fn after_seek_landed(c: ControllerModel, generation: u64, frames: u64) -> ControllerModel {
    if generation == c.generation && c.phase == ControllerPhase::Starting {
        ControllerModel {
            player: PlayerModel {
                samples_played: frames,
                rt_state: match c.player.rt_state {
                    Some(rt) => Some(RtState { samples_played: frames, ..rt }),
                    None => None,
                },
                ..c.player
            },
            ..c
        }
    } else {
        c
    }
}

/// Whether the end of the stream of the session with token `generation` is
/// announced: it is the current session, and it was not stopped.
pub open spec fn announced(c: ControllerModel, generation: u64) -> bool {
    generation == c.generation && pausable(c)
}

/// The controller once the session with token `generation` has come to the
/// end of its stream.
pub open spec fn after_finished(c: ControllerModel, generation: u64) -> ControllerModel {
    if generation == c.generation && pausable(c) {
        ControllerModel {
            phase: ControllerPhase::Idle,
            player: PlayerModel { is_playing: false, is_paused: false, ..c.player },
            ..c
        }
    } else {
        c
    }
}

/// The playback controller.
pub struct Controller {
    phase: ControllerPhase,
    player: PlayerState,
    generation: u64,
}

impl View for Controller {
    type V = ControllerModel;

    closed spec fn view(&self) -> ControllerModel {
        ControllerModel { phase: self.phase, player: self.player@, generation: self.generation }
    }
}

impl Controller {
    /// A controller that has played nothing yet.
    pub fn new() -> (c: Self)
        ensures
            c@ == (ControllerModel {
                phase: ControllerPhase::Idle,
                player: idle_player(),
                generation: 0,
            }),
    {
        Controller { phase: ControllerPhase::Idle, player: PlayerState::default(), generation: 0 }
    }

    pub fn phase(&self) -> (p: ControllerPhase)
        ensures
            p == self@.phase,
    {
        self.phase
    }

    /// Token of the current session, or of the last one.
    pub fn generation(&self) -> (g: u64)
        ensures
            g == self@.generation,
    {
        self.generation
    }

    /// Bit pattern of the volume that is set.
    pub fn volume(&self) -> (v: u32)
        ensures
            v == self@.player.volume,
    {
        self.player.volume
    }

    pub fn is_paused(&self) -> (r: bool)
        ensures
            r == self@.player.is_paused,
    {
        self.player.is_paused
    }

    fn is_live(&self) -> (r: bool)
        ensures
            r == live(self@),
    {
        match self.phase {
            ControllerPhase::Idle => false,
            _ => true,
        }
    }

    fn is_pausable(&self) -> (r: bool)
        ensures
            r == pausable(self@),
    {
        match self.phase {
            ControllerPhase::Starting => true,
            ControllerPhase::Playing => true,
            ControllerPhase::Paused => true,
            _ => false,
        }
    }

    fn record(&mut self, change: RtChange)
        ensures
            final(self)@ == (ControllerModel {
                player: PlayerModel {
                    rt_state: recorded(old(self)@.player.rt_state, change),
                    ..old(self)@.player
                },
                ..old(self)@
            }),
    {
        match self.player.rt_state {
            Some(rt) => {
                let mut next = rt;
                apply(&mut next, change);
                self.player.rt_state = Some(next);
            },
            None => {},
        }
    }

    fn start(&mut self, file_path: String, volume: u32, seek_time: Option<u64>, paused: bool) -> (order:
        PlayOrder)
        ensures
            final(self)@ == after_play(old(self)@, file_path@, volume, seek_time, paused),
            order.stop == stop_order(old(self)@),
            order.file_path@ == file_path@,
            order.seek_time == seek_time,
            order.rt == fresh_rt(volume, next_generation(old(self)@.generation), paused),
    {
        let stop = if self.is_live() {
            Some(RtOrder { generation: self.generation, change: RtChange::Stop })
        } else {
            None
        };
        let generation: u64 = self.generation.wrapping_add(1);
        let mut rt = RtState::new(volume, generation);
        if paused {
            rt.pause();
        }
        let path = file_path.clone();
        self.generation = generation;
        self.phase = ControllerPhase::Starting;
        self.player = PlayerState {
            is_playing: true,
            is_paused: paused,
            current_file: Some(file_path),
            volume: clamp_volume(volume),
            seek_time,
            samples_played: 0,
            rt_state: Some(rt),
        };
        PlayOrder { stop, file_path: path, seek_time, rt }
    }

    /// Orders a session for `file_path` at `volume`, from `seek_time` on.
    /// The session before, if one is alive, is stopped first; the new one
    /// gets a token that the old one does not have, and the volume clamped
    /// to `[0.0, 1.0]`.
    pub fn play(&mut self, file_path: String, volume: u32, seek_time: Option<u64>) -> (order:
        PlayOrder)
        ensures
            final(self)@ == after_play(old(self)@, file_path@, volume, seek_time, false),
            order.stop == stop_order(old(self)@),
            order.file_path@ == file_path@,
            order.seek_time == seek_time,
            order.rt == fresh_rt(volume, next_generation(old(self)@.generation), false),
            order.rt.generation != old(self)@.generation,
    {
        self.start(file_path, volume, seek_time, false)
    }

    /// The stream of the session with token `generation` runs. Returns
    /// whether that is the session the controller was starting; a session
    /// that was overtaken by another is not taken up.
    pub fn started(&mut self, generation: u64) -> (accepted: bool)
        ensures
            accepted == (generation == old(self)@.generation && old(self)@.phase
                == ControllerPhase::Starting),
            accepted ==> final(self)@ == (ControllerModel {
                phase: if old(self)@.player.is_paused {
                    ControllerPhase::Paused
                } else {
                    ControllerPhase::Playing
                },
                ..old(self)@
            }),
            !accepted ==> final(self)@ == old(self)@,
    {
        match self.phase {
            ControllerPhase::Starting => {
                if generation == self.generation {
                    self.phase = if self.player.is_paused {
                        ControllerPhase::Paused
                    } else {
                        ControllerPhase::Playing
                    };
                    true
                } else {
                    false
                }
            },
            _ => false,
        }
    }

    /// The seek at the start of the session with token `generation` has
    /// landed on frame `frames` at the device's rate. Where that is the
    /// session being started, its position is put there, in the record and
    /// in the shared state as recorded. Returns whether it was.
    pub fn seek_landed(&mut self, generation: u64, frames: u64) -> (accepted: bool)
        ensures
            final(self)@ == after_seek_landed(old(self)@, generation, frames),
            accepted == (generation == old(self)@.generation && old(self)@.phase
                == ControllerPhase::Starting),
    {
        match self.phase {
            ControllerPhase::Starting => {
                if generation == self.generation {
                    self.player.samples_played = frames;
                    match self.player.rt_state {
                        Some(rt) => {
                            let mut moved = rt;
                            moved.reposition(frames);
                            self.player.rt_state = Some(moved);
                        },
                        None => {},
                    }
                    true
                } else {
                    false
                }
            },
            _ => false,
        }
    }

    /// Frames played of the current session, as the controller last
    /// recorded them: where its seek landed, and zero after a stop.
    pub fn samples_played(&self) -> (frames: u64)
        ensures
            frames == self@.player.samples_played,
    {
        self.player.samples_played
    }

    /// The session with token `generation` could not start. Where it is
    /// the one that the controller was starting, the controller is idle
    /// again and the failure goes back to the caller of `play`.
    pub fn start_failed(&mut self, generation: u64, error: PlayError) -> (r: Option<PlayError>)
        ensures
            r is Some <==> generation == old(self)@.generation && old(self)@.phase
                == ControllerPhase::Starting,
            r is Some ==> r == Some(error) && final(self)@ == (ControllerModel {
                phase: ControllerPhase::Idle,
                player: PlayerModel { is_playing: false, is_paused: false, ..old(self)@.player },
                ..old(self)@
            }),
            r is None ==> final(self)@ == old(self)@,
    {
        match self.phase {
            ControllerPhase::Starting => {
                if generation == self.generation {
                    self.phase = ControllerPhase::Idle;
                    self.player.is_playing = false;
                    self.player.is_paused = false;
                    Some(error)
                } else {
                    None
                }
            },
            _ => None,
        }
    }

    /// Pauses the session. Returns the change for its shared state, or
    /// nothing where no session is starting, playing or paused.
    pub fn pause(&mut self) -> (order: Option<RtOrder>)
        ensures
            final(self)@ == after_pause(old(self)@),
            order == (if pausable(old(self)@) {
                Some(RtOrder { generation: old(self)@.generation, change: RtChange::Pause })
            } else {
                None
            }),
    {
        if !self.is_pausable() {
            return None;
        }
        self.record(RtChange::Pause);
        self.player.is_paused = true;
        match self.phase {
            ControllerPhase::Starting => {},
            _ => {
                self.phase = ControllerPhase::Paused;
            },
        }
        Some(RtOrder { generation: self.generation, change: RtChange::Pause })
    }

    /// Resumes the session. Returns the change for its shared state, or
    /// nothing where no session is starting, playing or paused.
    pub fn resume(&mut self) -> (order: Option<RtOrder>)
        ensures
            final(self)@ == after_resume(old(self)@),
            order == (if pausable(old(self)@) {
                Some(RtOrder { generation: old(self)@.generation, change: RtChange::Resume })
            } else {
                None
            }),
    {
        if !self.is_pausable() {
            return None;
        }
        self.record(RtChange::Resume);
        self.player.is_paused = false;
        self.player.is_playing = true;
        match self.phase {
            ControllerPhase::Starting => {},
            _ => {
                self.phase = ControllerPhase::Playing;
            },
        }
        Some(RtOrder { generation: self.generation, change: RtChange::Resume })
    }

    /// Stops the session. Returns the stop for its shared state, after
    /// which the caller waits [`STOP_GRACE_MS`], drops the stream and
    /// reports `stopped`. Nothing where no session is alive.
    pub fn stop(&mut self) -> (order: Option<RtOrder>)
        ensures
            final(self)@ == after_stop(old(self)@),
            order == stop_order(old(self)@),
    {
        if !self.is_live() {
            return None;
        }
        self.record(RtChange::Stop);
        self.player.is_playing = false;
        self.player.is_paused = false;
        self.player.samples_played = 0;
        self.phase = ControllerPhase::Stopping;
        Some(RtOrder { generation: self.generation, change: RtChange::Stop })
    }

    /// The stream of the stopped session is gone. The controller is idle
    /// and remembers no file; the volume stays.
    pub fn stopped(&mut self)
        ensures
            old(self)@.phase == ControllerPhase::Stopping ==> final(self)@ == (ControllerModel {
                phase: ControllerPhase::Idle,
                player: PlayerModel { volume: old(self)@.player.volume, ..idle_player() },
                ..old(self)@
            }),
            old(self)@.phase != ControllerPhase::Stopping ==> final(self)@ == old(self)@,
    {
        match self.phase {
            ControllerPhase::Stopping => {
                let volume = self.player.volume;
                self.player = PlayerState::default();
                self.player.volume = volume;
                self.phase = ControllerPhase::Idle;
            },
            _ => {},
        }
    }

    /// Moves playback of the current file to `nanos`: the session is
    /// stopped and a new one is ordered that starts there, at the same
    /// volume, and paused if the old one was. Nothing where the controller
    /// remembers no file.
    pub fn seek(&mut self, nanos: u64) -> (order: Option<PlayOrder>)
        ensures
            match old(self)@.player.current_file {
                Some(path) => {
                    &&& order is Some
                    &&& final(self)@ == after_play(
                        old(self)@,
                        path,
                        old(self)@.player.volume,
                        Some(nanos),
                        old(self)@.player.is_paused,
                    )
                    &&& order->0.stop == stop_order(old(self)@)
                    &&& order->0.file_path@ == path
                    &&& order->0.seek_time == Some(nanos)
                    &&& order->0.rt == fresh_rt(
                        old(self)@.player.volume,
                        next_generation(old(self)@.generation),
                        old(self)@.player.is_paused,
                    )
                },
                None => order is None && final(self)@ == old(self)@,
            },
    {
        let path = match &self.player.current_file {
            Some(p) => p.clone(),
            None => {
                return None;
            },
        };
        let volume = self.player.volume;
        let paused = self.player.is_paused;
        Some(self.start(path, volume, Some(nanos), paused))
    }

    /// Sets the volume, clamped to `[0.0, 1.0]`. Returns the clamped bit
    /// pattern, which is what is saved, and the change for the shared state
    /// of the session that is alive, which takes effect in its next callback.
    pub fn set_volume(&mut self, volume: u32) -> (r: (u32, Option<RtOrder>))
        ensures
            final(self)@ == after_set_volume(old(self)@, volume),
            r.0 == clamped(volume),
            in_unit_range(r.0),
            r.1 == (if old(self)@.player.rt_state is Some {
                Some(
                    RtOrder {
                        generation: old(self)@.generation,
                        change: RtChange::Volume(clamped(volume)),
                    },
                )
            } else {
                None
            }),
    {
        let v = clamp_volume(volume);
        assert(clamped(v) == v);
        let order = match self.player.rt_state {
            Some(_) => Some(RtOrder { generation: self.generation, change: RtChange::Volume(v) }),
            None => None,
        };
        self.record(RtChange::Volume(v));
        self.player.volume = v;
        (v, order)
    }

    /// The session with token `generation` has played its stream to the
    /// end. Returns whether the end of playback is to be announced: only
    /// for the current session, and only once.
    pub fn finished(&mut self, generation: u64) -> (announce: bool)
        ensures
            final(self)@ == after_finished(old(self)@, generation),
            announce == announced(old(self)@, generation),
    {
        if generation == self.generation && self.is_pausable() {
            self.phase = ControllerPhase::Idle;
            self.player.is_playing = false;
            self.player.is_paused = false;
            true
        } else {
            false
        }
    }
}

/// The token of a new session differs from the token of the session before.
pub proof fn law_generation_changes(generation: u64)
    ensures
        next_generation(generation) != generation,
{
}

/// Nothing of an earlier session is heard after a new one was ordered.
/// Under the state of the new session, a callback of the stage of the
/// session before, should one still run, writes silence, takes no sample
/// and leaves the stage as it is, however soon the new session follows.
pub proof fn law_new_session_silences_the_old(
    c: ControllerModel,
    path: Seq<char>,
    volume: u32,
    seek: Option<u64>,
    paused: bool,
    old_stage: StageState,
    requested: nat,
)
    requires
        old_stage.generation == c.generation,
    ensures
        after_play(c, path, volume, seek, paused).player.rt_state == Some(
            fresh_rt(volume, next_generation(c.generation), paused),
        ),
        callback(old_stage, fresh_rt(volume, next_generation(c.generation), paused), requested) == (
            old_stage,
            silence(requested),
            0nat,
        ),
{
}

/// The end of a stream is announced once: after the announcement the same
/// session is not announced again, and no other session is.
pub proof fn law_finished_is_announced_once(c: ControllerModel, generation: u64, other: u64)
    requires
        announced(c, generation),
    ensures
        !announced(after_finished(c, generation), generation),
        !announced(after_finished(c, generation), other),
{
}

/// A stop is not answered by an announcement: once a session was stopped,
/// no end of a stream is announced until a new session is ordered.
pub proof fn law_stopped_session_is_not_announced(c: ControllerModel, generation: u64)
    ensures
        !announced(after_stop(c), generation),
{
}

} // verus!
