//! The state that the controller, the decode worker and the device callback
//! share while a session runs.
//!
//! The record here is one observation of that state. Each operation says how
//! an observation changes; the threads keep the fields in lock-free cells
//! and apply the changes field by field, so that the callback never waits.

use vstd::prelude::*;
use crate::volume::{clamp_volume, clamped, in_unit_range};

verus! {

/// One observation of the shared real-time state.
#[derive(Clone, Copy, Debug, PartialEq, Eq, Structural)]
pub struct RtState {
    /// A stop was requested.
    pub should_stop: bool,
    /// The last sample of the stream has been played.
    pub finished: bool,
    /// The decode worker has ended at the end of the stream.
    pub decoder_finished: bool,
    pub is_paused: bool,
    /// Bit pattern of the volume, a number of `[0.0, 1.0]`.
    pub volume: u32,
    /// Frames played so far, whatever the device's channel count. The one
    /// source of the displayed position.
    pub samples_played: u64,
    /// Token of the session that owns the state.
    pub generation: u64,
}

impl RtState {
    /// The state of a new session with token `generation`: nothing
    /// requested, nothing played, the volume clamped to `[0.0, 1.0]`.
    pub fn new(volume: u32, generation: u64) -> (r: Self)
        ensures
            r == (RtState {
                should_stop: false,
                finished: false,
                decoder_finished: false,
                is_paused: false,
                volume: clamped(volume),
                samples_played: 0,
                generation,
            }),
    {
        RtState {
            should_stop: false,
            finished: false,
            decoder_finished: false,
            is_paused: false,
            volume: clamp_volume(volume),
            samples_played: 0,
            generation,
        }
    }

    /// Bit pattern of the current volume.
    pub fn get_volume(&self) -> (v: u32)
        ensures
            v == self.volume,
    {
        self.volume
    }

    /// Sets the volume, clamped to `[0.0, 1.0]`; nothing else changes.
    pub fn set_volume(&mut self, vol: u32)
        ensures
            *final(self) == (RtState { volume: clamped(vol), ..*old(self) }),
            in_unit_range(final(self).volume),
    {
        self.volume = clamp_volume(vol);
    }

    /// Whether the callback writes silence: after a stop request, after the
    /// end of the stream, and while paused.
    pub open spec fn silenced(self) -> bool {
        self.should_stop || self.finished || self.is_paused
    }

    /// Executable form of [`RtState::silenced`].
    pub fn is_silenced(&self) -> (r: bool)
        ensures
            r == self.silenced(),
    {
        self.should_stop || self.finished || self.is_paused
    }

    /// The position once `frames` more frames have been played: it moves
    /// forward by that many, stopping at the largest number, and stays where
    /// it is while paused.
    pub open spec fn advanced(self, frames: u64) -> u64 {
        if self.is_paused {
            self.samples_played
        } else if self.samples_played + frames > u64::MAX {
            u64::MAX
        } else {
            (self.samples_played + frames) as u64
        }
    }

    /// Counts `frames` frames that the callback has just consumed.
    pub fn advance(&mut self, frames: u64)
        ensures
            *final(self) == (RtState { samples_played: old(self).advanced(frames), ..*old(self) }),
            final(self).samples_played >= old(self).samples_played,
            old(self).is_paused ==> final(self).samples_played == old(self).samples_played,
    {
        if !self.is_paused {
            self.samples_played = self.samples_played.saturating_add(frames);
        }
    }

    /// Pauses: the callback writes silence and the position stands still.
    pub fn pause(&mut self)
        ensures
            *final(self) == (RtState { is_paused: true, ..*old(self) }),
    {
        self.is_paused = true;
    }

    /// Resumes after a pause.
    pub fn resume(&mut self)
        ensures
            *final(self) == (RtState { is_paused: false, ..*old(self) }),
    {
        self.is_paused = false;
    }

    /// Requests the stop of the session: the flag is raised, a pause is
    /// lifted and the position goes back to zero.
    pub fn request_stop(&mut self)
        ensures
            *final(self) == (RtState {
                should_stop: true,
                is_paused: false,
                samples_played: 0,
                ..*old(self)
            }),
    {
        self.should_stop = true;
        self.is_paused = false;
        self.samples_played = 0;
    }

    /// Puts the position at `frames`, where a seek has landed.
    pub fn reposition(&mut self, frames: u64)
        ensures
            *final(self) == (RtState { samples_played: frames, ..*old(self) }),
    {
        self.samples_played = frames;
    }

    /// Records that the decode worker has ended. The end of the stream
    /// counts only where no stop was requested.
    pub fn decoder_exited(&mut self)
        ensures
            *final(self) == (RtState {
                decoder_finished: old(self).decoder_finished || !old(self).should_stop,
                ..*old(self)
            }),
    {
        if !self.should_stop {
            self.decoder_finished = true;
        }
    }

    /// Records that the callback has played the last sample.
    pub fn mark_finished(&mut self)
        ensures
            *final(self) == (RtState { finished: true, ..*old(self) }),
    {
        self.finished = true;
    }

    /// Whether the end of playback is announced once the stream is torn
    /// down: the stream ran out and nobody stopped it.
    pub fn ended_naturally(&self) -> (r: bool)
        ensures
            r == (self.finished && !self.should_stop),
    {
        self.finished && !self.should_stop
    }
}

/// The position is counted in one place and only forwards: over any number
/// of callbacks it never falls while the session is not paused, whatever the
/// callbacks consumed, and while the session is paused it does not move.
pub proof fn law_position_is_monotonic(rt: RtState, frames: u64)
    ensures
        rt.advanced(frames) >= rt.samples_played,
        rt.is_paused ==> rt.advanced(frames) == rt.samples_played,
        !rt.is_paused && rt.samples_played + frames <= u64::MAX ==> rt.advanced(frames)
            == rt.samples_played + frames,
{
}

/// The counts of successive callbacks add up: while the session is not
/// paused and the counter has room, the position after two callbacks is the
/// position before them and the frames of both.
pub proof fn law_position_adds_up(rt: RtState, first: u64, second: u64)
    requires
        !rt.is_paused,
        rt.samples_played + first + second <= u64::MAX,
    ensures
        (RtState { samples_played: rt.advanced(first), ..rt }).advanced(second) == rt.samples_played
            + first + second,
{
}

} // verus!
