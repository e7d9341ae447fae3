//! Time in whole nanoseconds, and what is computed from it: positions in
//! frames, durations and bit rates.

use vstd::prelude::*;
use crate::track::{first_decodable_track, is_first_decodable, TimeBase, TrackInfo};

verus! {

pub const NANOS_PER_SECOND: u64 = 1_000_000_000;

/// Frames that pass in `nanos` nanoseconds at `rate` frames per second,
/// rounded down.
pub open spec fn frames_in_time(nanos: u64, rate: u32) -> int {
    (nanos * rate) / (NANOS_PER_SECOND as int)
}

/// The position in frames of the instant `nanos` at `rate` frames per
/// second; the largest number where it does not fit.
pub fn frames_at(nanos: u64, rate: u32) -> (frames: u64)
    ensures
        frames_in_time(nanos, rate) <= u64::MAX ==> frames == frames_in_time(nanos, rate),
        frames_in_time(nanos, rate) > u64::MAX ==> frames == u64::MAX,
{
    proof {
        lemma_wide_product(nanos as int, rate as int);
    }
    let wide: u128 = nanos as u128 * rate as u128 / NANOS_PER_SECOND as u128;
    if wide > u64::MAX as u128 {
        u64::MAX
    } else {
        wide as u64
    }
}

/// The product of a 64-bit and a 32-bit number fits in 128 bits.
pub proof fn lemma_wide_product(a: int, b: int)
    requires
        0 <= a <= u64::MAX,
        0 <= b <= u32::MAX,
    ensures
        0 <= a * b <= 0xFFFF_FFFF_FFFF_FFFF * 0xFFFF_FFFF,
{
    assert(0 <= a * b <= 0xFFFF_FFFF_FFFF_FFFF * 0xFFFF_FFFF) by (nonlinear_arith)
        requires
            0 <= a <= 0xFFFF_FFFF_FFFF_FFFF,
            0 <= b <= 0xFFFF_FFFF;
}

/// A seek to the instant `nanos` puts the position on the frame that is
/// playing at that instant: the position read back as time is not after the
/// instant, and less than one frame before it. One frame is shorter than any
/// buffer period.
pub proof fn law_seek_lands_within_a_frame(nanos: u64, rate: u32)
    requires
        rate > 0,
    ensures
        frames_in_time(nanos, rate) * NANOS_PER_SECOND <= nanos * rate,
        nanos * rate < (frames_in_time(nanos, rate) + 1) * NANOS_PER_SECOND,
{
    let p = nanos * rate;
    let g = NANOS_PER_SECOND as int;
    assert((p / g) * g <= p && p < (p / g + 1) * g) by (nonlinear_arith)
        requires
            p >= 0,
            g > 0;
}

/// At a rate of no more than a frame in a nanosecond every instant has its
/// frame: the position of a seek fits in 64 bits, whatever the instant.
pub proof fn law_position_fits(nanos: u64, rate: u32)
    requires
        rate <= NANOS_PER_SECOND,
    ensures
        0 <= frames_in_time(nanos, rate) <= nanos,
{
    let n = nanos as int;
    let r = rate as int;
    let g = NANOS_PER_SECOND as int;
    assert(0 <= (n * r) / g <= n) by (nonlinear_arith)
        requires
            0 <= n,
            0 <= r <= g,
            g > 0;
}

/// An instant as whole seconds and the nanoseconds beyond them.
pub fn split_seconds(nanos: u64) -> (r: (u64, u32))
    ensures
        r.0 * NANOS_PER_SECOND + r.1 == nanos,
        r.1 < NANOS_PER_SECOND,
{
    (nanos / NANOS_PER_SECOND, (nanos % NANOS_PER_SECOND) as u32)
}

/// How the seek at the start of a session went.
#[derive(Clone, Copy, Debug, PartialEq, Eq, Structural)]
pub enum SeekOutcome {
    /// The demuxer is at the instant asked for.
    Landed,
    /// That seek failed; the demuxer went back to the start instead.
    Restarted,
    /// Both seeks failed; the demuxer is where it was.
    Failed,
}

/// The position that a session starts from after its seek to `nanos`: the
/// frame of that instant where the seek landed, zero where the demuxer went
/// back to the start, and `None`, the position as it stands, where it could
/// not seek at all. The decoder is reset exactly where a position is given.
pub fn position_after_seek(outcome: SeekOutcome, nanos: u64, target_rate: u32) -> (r: Option<u64>)
    ensures
        match outcome {
            SeekOutcome::Landed => r is Some && (frames_in_time(nanos, target_rate) <= u64::MAX
                ==> r->0 == frames_in_time(nanos, target_rate)) && (frames_in_time(
                nanos,
                target_rate,
            ) > u64::MAX ==> r->0 == u64::MAX),
            SeekOutcome::Restarted => r == Some(0u64),
            SeekOutcome::Failed => r is None,
        },
{
    match outcome {
        SeekOutcome::Landed => Some(frames_at(nanos, target_rate)),
        SeekOutcome::Restarted => Some(0),
        SeekOutcome::Failed => None,
    }
}

/// Why a track has no duration.
#[derive(Clone, Copy, Debug, PartialEq, Eq, Structural)]
pub enum DurationError {
    /// No track of the container has a codec.
    NoTrack,
    /// The track declares no time base.
    NoTimeBase,
    /// The track declares no length.
    NoFrameCount,
    /// The time base has a zero in it, or the length is beyond what
    /// nanoseconds in 64 bits can say.
    OutOfRange,
}

impl DurationError {
    /// The failure in words.
    pub fn message(&self) -> (s: &'static str)
        ensures
            s@ == (match *self {
                DurationError::NoTrack => "No valid audio track found"@,
                DurationError::NoTimeBase => "No time base found"@,
                DurationError::NoFrameCount => "Could not calculate duration: no frame count"@,
                DurationError::OutOfRange => "Could not calculate duration: out of range"@,
            }),
    {
        match self {
            DurationError::NoTrack => "No valid audio track found",
            DurationError::NoTimeBase => "No time base found",
            DurationError::NoFrameCount => "Could not calculate duration: no frame count",
            DurationError::OutOfRange => "Could not calculate duration: out of range",
        }
    }
}

/// Nanoseconds that `ticks` ticks of `base` last, rounded down.
pub open spec fn ticks_in_nanos(base: TimeBase, ticks: u64) -> int {
    (ticks * base.numer * NANOS_PER_SECOND) / (base.denom as int)
}

/// The time that `ticks` ticks of `base` last, in nanoseconds. `None` for a
/// time base with a zero in it and for a time beyond 64 bits.
pub fn ticks_to_nanos(base: TimeBase, ticks: u64) -> (r: Option<u64>)
    ensures
        match r {
            Some(n) => base.numer > 0 && base.denom > 0 && n == ticks_in_nanos(base, ticks),
            None => base.numer == 0 || base.denom == 0 || ticks_in_nanos(base, ticks) > u64::MAX,
        },
{
    if base.numer == 0 || base.denom == 0 {
        return None;
    }
    proof {
        lemma_wide_product(ticks as int, base.numer as int);
        assert(0 <= (ticks * base.numer) * NANOS_PER_SECOND <= (0xFFFF_FFFF_FFFF_FFFF
            * 0xFFFF_FFFF) * 1_000_000_000) by (nonlinear_arith)
            requires
                0 <= ticks * base.numer <= 0xFFFF_FFFF_FFFF_FFFF * 0xFFFF_FFFF,
                NANOS_PER_SECOND == 1_000_000_000;
    }
    let product: u128 = ticks as u128 * base.numer as u128;
    let wide: u128 = product * NANOS_PER_SECOND as u128 / base.denom as u128;
    if wide > u64::MAX as u128 {
        None
    } else {
        Some(wide as u64)
    }
}

/// The duration of the first track with a codec, in nanoseconds, from its
/// declared length and time base.
pub fn track_duration(tracks: &Vec<TrackInfo>) -> (r: Result<u64, DurationError>)
    ensures
        match r {
            Ok(nanos) => exists|i: int|
                {
                    &&& is_first_decodable(tracks@, i)
                    &&& tracks@[i].time_base is Some
                    &&& tracks@[i].n_frames is Some
                    &&& tracks@[i].time_base->0.numer > 0
                    &&& tracks@[i].time_base->0.denom > 0
                    &&& nanos == ticks_in_nanos(tracks@[i].time_base->0, tracks@[i].n_frames->0)
                },
            Err(DurationError::NoTrack) => forall|j: int|
                0 <= j < tracks@.len() ==> !(#[trigger] tracks@[j]).has_codec,
            Err(DurationError::NoTimeBase) => exists|i: int|
                is_first_decodable(tracks@, i) && tracks@[i].time_base is None,
            Err(DurationError::NoFrameCount) => exists|i: int|
                is_first_decodable(tracks@, i) && tracks@[i].time_base is Some
                    && tracks@[i].n_frames is None,
            Err(DurationError::OutOfRange) => exists|i: int|
                {
                    &&& is_first_decodable(tracks@, i)
                    &&& tracks@[i].time_base is Some
                    &&& tracks@[i].n_frames is Some
                    &&& (tracks@[i].time_base->0.numer == 0 || tracks@[i].time_base->0.denom == 0
                        || ticks_in_nanos(tracks@[i].time_base->0, tracks@[i].n_frames->0)
                        > u64::MAX)
                },
        },
{
    let index = match first_decodable_track(tracks) {
        Some(i) => i,
        None => {
            return Err(DurationError::NoTrack);
        },
    };
    let track = &tracks[index];
    let base = match track.time_base {
        Some(b) => b,
        None => {
            assert(is_first_decodable(tracks@, index as int));
            return Err(DurationError::NoTimeBase);
        },
    };
    let frames = match track.n_frames {
        Some(n) => n,
        None => {
            assert(is_first_decodable(tracks@, index as int));
            return Err(DurationError::NoFrameCount);
        },
    };
    match ticks_to_nanos(base, frames) {
        Some(nanos) => {
            assert(is_first_decodable(tracks@, index as int));
            Ok(nanos)
        },
        None => {
            assert(is_first_decodable(tracks@, index as int));
            Err(DurationError::OutOfRange)
        },
    }
}

/// Kilobits per second of a file of `file_size` bytes that lasts
/// `duration_nanos`, rounded down.
pub open spec fn kilobits_per_second(file_size: u64, duration_nanos: u64) -> int {
    (file_size * 8_000_000) / (duration_nanos as int)
}

/// The average bit rate of a file in kilobits per second; the largest number
/// where it does not fit, and `None` for a file without duration.
pub fn bitrate_kbps(file_size: u64, duration_nanos: u64) -> (r: Option<u32>)
    ensures
        match r {
            Some(rate) => {
                &&& duration_nanos > 0
                &&& kilobits_per_second(file_size, duration_nanos) <= u32::MAX ==> rate
                    == kilobits_per_second(file_size, duration_nanos)
                &&& kilobits_per_second(file_size, duration_nanos) > u32::MAX ==> rate == u32::MAX
            },
            None => duration_nanos == 0,
        },
{
    if duration_nanos == 0 {
        return None;
    }
    let wide: u128 = file_size as u128 * 8_000_000u128 / duration_nanos as u128;
    if wide > u32::MAX as u128 {
        Some(u32::MAX)
    } else {
        Some(wide as u32)
    }
}

} // verus!
