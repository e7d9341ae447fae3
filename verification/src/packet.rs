//! One decoded packet, and the guard against packets that claim absurd sizes.

use vstd::prelude::*;

verus! {

/// No packet is cut below this many frames, whatever the sample rate.
pub const MIN_FRAME_LIMIT: u64 = 8192;

/// Seconds of audio that playback accepts from a single packet.
pub const PLAYBACK_LIMIT_SECONDS: u64 = 30;

/// Seconds of audio that waveform analysis accepts from a single packet.
pub const ANALYSIS_LIMIT_SECONDS: u64 = 2;

/// The most frames taken from one packet at `rate` frames per second when
/// `seconds` of audio are allowed.
pub open spec fn frame_limit(rate: u32, seconds: u64) -> int {
    if rate * seconds >= MIN_FRAME_LIMIT {
        rate * seconds
    } else {
        MIN_FRAME_LIMIT as int
    }
}

/// Frame limit of the playback path: thirty seconds of audio, at least 8192 frames.
pub fn playback_frame_limit(source_rate: u32) -> (r: u64)
    ensures
        r as int == frame_limit(source_rate, PLAYBACK_LIMIT_SECONDS),
{
    let by_rate: u64 = source_rate as u64 * PLAYBACK_LIMIT_SECONDS;
    if by_rate >= MIN_FRAME_LIMIT {
        by_rate
    } else {
        MIN_FRAME_LIMIT
    }
}

/// Frame limit of waveform analysis: two seconds of audio, at least 8192 frames.
pub fn analysis_frame_limit(sample_rate: u32) -> (r: u64)
    ensures
        r as int == frame_limit(sample_rate, ANALYSIS_LIMIT_SECONDS),
{
    let by_rate: u64 = sample_rate as u64 * ANALYSIS_LIMIT_SECONDS;
    if by_rate >= MIN_FRAME_LIMIT {
        by_rate
    } else {
        MIN_FRAME_LIMIT
    }
}

/// The frames that are read from a packet which reports `frames` decoded
/// frames in a buffer of `capacity` frames, under `limit`: the smallest of
/// the three. A corrupt file can drive neither allocation nor work beyond
/// the limit.
pub open spec fn guarded_frames(frames: nat, capacity: nat, limit: nat) -> nat {
    let cap = if capacity <= limit {
        capacity
    } else {
        limit
    };
    if frames <= cap {
        frames
    } else {
        cap
    }
}

/// Executable form of [`guarded_frames`].
pub fn safe_frames(frames: usize, capacity: usize, limit: u64) -> (r: usize)
    ensures
        r as nat == guarded_frames(frames as nat, capacity as nat, limit as nat),
        r <= frames,
        r <= capacity,
        r <= limit,
{
    let cap: usize = if capacity as u64 <= limit {
        capacity
    } else {
        limit as usize
    };
    if frames <= cap {
        frames
    } else {
        cap
    }
}

/// The sample planes of a decoded packet, already narrowed to what the
/// pipeline carries: one plane that is played on both sides, or a left and a
/// right plane.
#[derive(Debug)]
pub enum ChannelData {
    Mono(Vec<u32>),
    Stereo(Vec<u32>, Vec<u32>),
}

impl ChannelData {
    /// The stereo frames that the planes hold. A single plane is duplicated;
    /// of two planes only the frames present in both count.
    pub open spec fn frames(self) -> Seq<(u32, u32)> {
        match self {
            ChannelData::Mono(m) => Seq::new(m@.len(), |i: int| (m@[i], m@[i])),
            ChannelData::Stereo(l, r) => Seq::new(
                if l@.len() <= r@.len() {
                    l@.len()
                } else {
                    r@.len()
                },
                |i: int| (l@[i], r@[i]),
            ),
        }
    }

    /// Number of frames held.
    pub fn frame_count(&self) -> (n: usize)
        ensures
            n == self.frames().len(),
    {
        match self {
            ChannelData::Mono(m) => m.len(),
            ChannelData::Stereo(l, r) => if l.len() <= r.len() {
                l.len()
            } else {
                r.len()
            },
        }
    }

    /// The frame at `index`.
    pub fn frame(&self, index: usize) -> (f: (u32, u32))
        requires
            index < self.frames().len(),
        ensures
            f == self.frames()[index as int],
    {
        match self {
            ChannelData::Mono(m) => (m[index], m[index]),
            ChannelData::Stereo(l, r) => (l[index], r[index]),
        }
    }
}

/// A packet as the decoder hands it over.
#[derive(Debug)]
pub struct DecodedPacket {
    /// Frames that the decoder says it produced.
    pub frames: usize,
    /// Frames that the decoder's buffer was sized for.
    pub capacity: usize,
    pub data: ChannelData,
}

impl DecodedPacket {
    /// The frames that the pipeline takes from the packet under `limit`:
    /// the guarded count, and never more than the planes really hold.
    pub open spec fn usable(self, limit: u64) -> Seq<(u32, u32)> {
        let n = guarded_frames(self.frames as nat, self.capacity as nat, limit as nat);
        if n <= self.data.frames().len() {
            self.data.frames().take(n as int)
        } else {
            self.data.frames()
        }
    }

    /// Number of frames of [`DecodedPacket::usable`].
    pub fn usable_count(&self, limit: u64) -> (n: usize)
        ensures
            n == self.usable(limit).len(),
            n <= self.data.frames().len(),
            n <= self.frames,
            n <= limit,
    {
        let guarded = safe_frames(self.frames, self.capacity, limit);
        let held = self.data.frame_count();
        if guarded <= held {
            guarded
        } else {
            held
        }
    }
}

} // verus!
