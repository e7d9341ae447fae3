//! Waveform extraction: which bucket each decoded frame falls into, and when
//! a stored waveform may be used in place of decoding.
//!
//! A waveform is a fixed number of amplitudes, one for each slice of equal
//! time of the track. The arithmetic on the samples (the mixdown to one
//! channel, the squares, the root and the division by the peak) is done by
//! the caller, on numbers. Here is everything else: the counting.

use vstd::prelude::*;
use crate::packet::{analysis_frame_limit, frame_limit, guarded_frames, safe_frames,
    ANALYSIS_LIMIT_SECONDS};
use crate::volume::INFINITY_BITS;

verus! {

/// Frames per bucket while the length of the track is not known.
pub const DEFAULT_CHUNK_SIZE: u64 = 1024;

/// While the length is not known, the bucket size is looked at again
/// whenever a packet begins on a multiple of this many frames.
pub const ADJUST_INTERVAL: u64 = 10000;

/// The sample rate taken for a track that declares none.
pub const DEFAULT_SAMPLE_RATE: u32 = 44100;

/// Why no waveform can be given.
#[derive(Clone, Copy, Debug, PartialEq, Eq, Structural)]
pub enum WaveformError {
    /// Zero buckets were asked for.
    NoBuckets,
    /// Not one frame could be decoded.
    NoAudioData,
}

impl WaveformError {
    /// The failure in words.
    pub fn message(&self) -> (s: &'static str)
        ensures
            s@ == (match *self {
                WaveformError::NoBuckets => "samples must be > 0"@,
                WaveformError::NoAudioData => "No audio data found"@,
            }),
    {
        match self {
            WaveformError::NoBuckets => "samples must be > 0",
            WaveformError::NoAudioData => "No audio data found",
        }
    }
}

/// Frames per bucket for a track of `estimated` frames in `buckets`
/// buckets: the quotient rounded up, and at least one.
pub open spec fn chunk_size_for(estimated: nat, buckets: nat) -> nat {
    if estimated == 0 || buckets == 0 {
        1
    } else {
        ((estimated + buckets - 1) / buckets as int) as nat
    }
}

/// Frames per bucket once `seen` frames were counted of a track of unknown
/// length: as if the track ended here, and at least one.
pub open spec fn adjusted_chunk_size(seen: nat, buckets: nat) -> nat {
    if buckets == 0 || seen / buckets == 0 {
        1
    } else {
        seen / buckets
    }
}

/// The bucket of frame number `index` (from zero) with `chunk_size` frames
/// per bucket: its slice of time, or the last bucket for frames beyond the
/// estimate.
pub open spec fn bucket_of(index: nat, chunk_size: nat, buckets: nat) -> nat {
    if chunk_size == 0 || buckets == 0 {
        0
    } else if index / chunk_size < buckets {
        index / chunk_size
    } else {
        (buckets - 1) as nat
    }
}

/// The counting state of one extraction, as mathematics.
pub struct PlanModel {
    /// Number of buckets, at least one.
    pub buckets: nat,
    /// Frames per bucket, at least one.
    pub chunk_size: nat,
    /// Whether the length of the track is unknown, so that the bucket size
    /// follows the frames seen.
    pub adaptive: bool,
    /// Frames counted so far.
    pub seen: nat,
    /// Frames counted in each bucket.
    pub counts: Seq<u64>,
}

/// The counting state of one extraction.
pub struct WaveformPlan {
    buckets: usize,
    chunk_size: u64,
    adaptive: bool,
    seen: u64,
    counts: Vec<u64>,
}

impl View for WaveformPlan {
    type V = PlanModel;

    closed spec fn view(&self) -> PlanModel {
        PlanModel {
            buckets: self.buckets as nat,
            chunk_size: self.chunk_size as nat,
            adaptive: self.adaptive,
            seen: self.seen as nat,
            counts: self.counts@,
        }
    }
}

/// The plan after the start of a packet.
pub open spec fn after_packet_start(p: PlanModel) -> PlanModel {
    if p.adaptive && p.seen > 0 && p.seen % (ADJUST_INTERVAL as nat) == 0 {
        PlanModel { chunk_size: adjusted_chunk_size(p.seen, p.buckets), ..p }
    } else {
        p
    }
}

/// `n` counted one further; the largest number stays.
pub open spec fn counted(n: u64) -> u64 {
    if n == u64::MAX {
        n
    } else {
        (n + 1) as u64
    }
}

/// The plan after one more frame was placed.
pub open spec fn after_place(p: PlanModel) -> PlanModel {
    let b = bucket_of(p.seen, p.chunk_size, p.buckets) as int;
    PlanModel { seen: counted(p.seen as u64) as nat, counts: p.counts.update(b, counted(p.counts[b])), ..p }
}

/// What holds of every plan: it has a bucket, a bucket takes at least one
/// frame, and there is a count for each bucket.
pub open spec fn well_formed(p: PlanModel) -> bool {
    &&& p.buckets > 0
    &&& p.chunk_size > 0
    &&& p.counts.len() == p.buckets
}

impl WaveformPlan {

    /// A plan for `buckets` buckets. `estimated` is the number of frames
    /// that the track is expected to have, `None` where its duration is
    /// unknown or zero. Asking for no bucket is an error.
    pub fn new(buckets: usize, estimated: Option<u64>) -> (r: Result<Self, WaveformError>)
        ensures
            match r {
                Ok(plan) => buckets > 0 && well_formed(plan@) && plan@ == (PlanModel {
                    buckets: buckets as nat,
                    chunk_size: match estimated {
                        Some(e) => chunk_size_for(e as nat, buckets as nat),
                        None => DEFAULT_CHUNK_SIZE as nat,
                    },
                    adaptive: estimated is None,
                    seen: 0,
                    counts: Seq::new(buckets as nat, |i: int| 0u64),
                }),
                Err(e) => buckets == 0 && e == WaveformError::NoBuckets,
            },
    {
        if buckets == 0 {
            return Err(WaveformError::NoBuckets);
        }
        let chunk_size: u64 = match estimated {
            Some(e) => {
                if e == 0 {
                    1
                } else {
                    let wide: u128 = (e as u128 + buckets as u128 - 1) / buckets as u128;
                    assert(wide <= e) by (nonlinear_arith)
                        requires
                            wide == (e as int + buckets as int - 1) / buckets as int,
                            buckets >= 1,
                            e >= 1;
                    assert(wide >= 1) by (nonlinear_arith)
                        requires
                            wide == (e as int + buckets as int - 1) / buckets as int,
                            buckets >= 1,
                            e >= 1;
                    wide as u64
                }
            },
            None => DEFAULT_CHUNK_SIZE,
        };
        let mut counts: Vec<u64> = Vec::new();
        let mut i: usize = 0;
        while i < buckets
            invariant
                0 <= i <= buckets,
                counts@ == Seq::new(i as nat, |k: int| 0u64),
            decreases buckets - i,
        {
            counts.push(0u64);
            assert(counts@ =~= Seq::new((i + 1) as nat, |k: int| 0u64));
            i += 1;
        }
        Ok(WaveformPlan { buckets, chunk_size, adaptive: estimated.is_none(), seen: 0, counts })
    }

    /// Number of buckets.
    pub fn buckets(&self) -> (n: usize)
        ensures
            n == self@.buckets,
    {
        self.buckets
    }

    /// Frames counted so far.
    pub fn seen(&self) -> (n: u64)
        ensures
            n == self@.seen,
    {
        self.seen
    }

    /// Frames per bucket at present.
    pub fn chunk_size(&self) -> (n: u64)
        ensures
            n == self@.chunk_size,
    {
        self.chunk_size
    }

    /// Frames counted in bucket `index`; zero for an index beyond the buckets.
    pub fn count(&self, index: usize) -> (n: u64)
        ensures
            n == (if index < self@.counts.len() {
                self@.counts[index as int]
            } else {
                0
            }),
    {
        if index < self.counts.len() {
            self.counts[index]
        } else {
            0
        }
    }

    /// A packet begins that reports `frames` decoded frames in a buffer of
    /// `capacity` frames, at `sample_rate` frames per second. Returns how
    /// many of its frames are to be placed: those within two seconds of
    /// audio. Where the length of the track is unknown and the count stands
    /// on a multiple of [`ADJUST_INTERVAL`], the bucket size is set anew.
    pub fn begin_packet(&mut self, frames: usize, capacity: usize, sample_rate: u32) -> (n: usize)
        requires
            well_formed(old(self)@),
        ensures
            well_formed(final(self)@),
            final(self)@ == after_packet_start(old(self)@),
            n as nat == guarded_frames(
                frames as nat,
                capacity as nat,
                frame_limit(sample_rate, ANALYSIS_LIMIT_SECONDS) as nat,
            ),
    {
        if self.adaptive && self.seen > 0 && self.seen % ADJUST_INTERVAL == 0 {
            let per_bucket: u64 = self.seen / self.buckets as u64;
            self.chunk_size = if per_bucket == 0 {
                1
            } else {
                per_bucket
            };
        }
        safe_frames(frames, capacity, analysis_frame_limit(sample_rate))
    }

    /// Places the next frame: counts it and returns the bucket that its
    /// square is added to.
    pub fn place(&mut self) -> (bucket: usize)
        requires
            well_formed(old(self)@),
        ensures
            well_formed(final(self)@),
            bucket == bucket_of(old(self)@.seen, old(self)@.chunk_size, old(self)@.buckets),
            bucket < old(self)@.buckets,
            final(self)@ == after_place(old(self)@),
    {
        let slice: u64 = self.seen / self.chunk_size;
        let bucket: usize = if slice < self.buckets as u64 {
            slice as usize
        } else {
            self.buckets - 1
        };
        let n: u64 = self.counts[bucket];
        let next: u64 = if n == u64::MAX {
            n
        } else {
            n + 1
        };
        self.counts.set(bucket, next);
        if self.seen < u64::MAX {
            self.seen = self.seen + 1;
        }
        bucket
    }

    /// Whether a waveform can be made of what was counted: at least one
    /// frame was.
    pub fn outcome(&self) -> (r: Result<(), WaveformError>)
        ensures
            match r {
                Ok(_) => self@.seen > 0,
                Err(e) => self@.seen == 0 && e == WaveformError::NoAudioData,
            },
    {
        if self.seen == 0 {
            Err(WaveformError::NoAudioData)
        } else {
            Ok(())
        }
    }
}

/// Whether `bits` encodes a number that can be the peak of a waveform:
/// positive, infinity included, and no NaN.
pub open spec fn is_amplitude(bits: u32) -> bool {
    0 < bits <= INFINITY_BITS
}

/// Whether `p` is the peak of `values`: the largest of their amplitudes, or
/// zero where none is one. Bit patterns of positive numbers order as the
/// numbers do.
pub open spec fn is_peak(values: Seq<u32>, p: u32) -> bool {
    &&& forall|i: int| 0 <= i < values.len() && is_amplitude(#[trigger] values[i]) ==> values[i] <= p
    &&& (p == 0 || (is_amplitude(p) && exists|i: int| 0 <= i < values.len() && values[i] == p))
}

/// The peak of the bucket amplitudes `values`, by which they are divided.
/// A result of zero says that the waveform is silent and stays as it is.
pub fn peak(values: &Vec<u32>) -> (p: u32)
    ensures
        is_peak(values@, p),
{
    let mut best: u32 = 0;
    let mut i: usize = 0;
    while i < values.len()
        invariant
            0 <= i <= values@.len(),
            is_peak(values@.take(i as int), best),
        decreases values@.len() - i,
    {
        let v = values[i];
        let ghost prev = values@.take(i as int);
        let ghost next = values@.take(i as int + 1);
        assert(forall|k: int| 0 <= k < i ==> next[k] == prev[k]);
        assert(next[i as int] == v);
        if v > best && v <= INFINITY_BITS {
            best = v;
        } else {
            proof {
                if best != 0 {
                    let k = choose|k: int| 0 <= k < prev.len() && prev[k] == best;
                    assert(next[k] == best);
                }
            }
        }
        i += 1;
    }
    assert(values@.take(i as int) =~= values@);
    best
}

/// Whether `bits` encodes zero, positive or negative.
pub open spec fn is_zero(bits: u32) -> bool {
    bits == 0 || bits == 0x8000_0000u32
}

/// Whether every value is a zero.
pub open spec fn all_zero(values: Seq<u32>) -> bool {
    forall|i: int| 0 <= i < values.len() ==> is_zero(#[trigger] values[i])
}

/// Whether a stored waveform is served for a request of `requested`
/// buckets: it was stored no earlier than the file was last modified, it
/// has the length asked for, and it is not all zero.
pub open spec fn cache_valid(
    values: Seq<u32>,
    stored_at: u64,
    requested: nat,
    file_modified: u64,
) -> bool {
    &&& stored_at >= file_modified
    &&& requested > 0
    &&& values.len() == requested
    &&& !all_zero(values)
}

/// Executable form of [`cache_valid`], asked before a file is decoded. An
/// entry that is empty, of another length, all zero or older than the file
/// is not served; the file is decoded again.
pub fn cache_usable(values: &Vec<u32>, stored_at: u64, requested: usize, file_modified: u64) -> (r:
    bool)
    ensures
        r == cache_valid(values@, stored_at, requested as nat, file_modified),
{
    if stored_at < file_modified || requested == 0 || values.len() != requested {
        return false;
    }
    let mut i: usize = 0;
    while i < values.len()
        invariant
            0 <= i <= values@.len(),
            values@.len() == requested,
            stored_at >= file_modified,
            requested > 0,
            forall|k: int| 0 <= k < i ==> is_zero(#[trigger] values@[k]),
        decreases values@.len() - i,
    {
        let v = values[i];
        if v != 0 && v != 0x8000_0000u32 {
            assert(!is_zero(values@[i as int]));
            return true;
        }
        i += 1;
    }
    false
}

/// What is served from the store for a request of `requested` buckets: the
/// stored waveform where it is valid, and nothing where there is none or
/// it is not, in which case the file is decoded.
pub open spec fn served(
    stored: Option<(Seq<u32>, u64)>,
    requested: nat,
    file_modified: u64,
) -> Option<Seq<u32>> {
    match stored {
        Some((values, stored_at)) => if cache_valid(values, stored_at, requested, file_modified) {
            Some(values)
        } else {
            None
        },
        None => None,
    }
}

/// Looks a waveform up in what the store holds for the file: the values and
/// the time at which they were stored.
pub fn lookup(stored: Option<(Vec<u32>, u64)>, requested: usize, file_modified: u64) -> (r: Option<
    Vec<u32>,
>)
    ensures
        (match r {
            Some(values) => Some(values@),
            None => None,
        }) == served(
            match stored {
                Some((values, stored_at)) => Some((values@, stored_at)),
                None => None,
            },
            requested as nat,
            file_modified,
        ),
{
    match stored {
        Some((values, stored_at)) => {
            if cache_usable(&values, stored_at, requested, file_modified) {
                Some(values)
            } else {
                None
            }
        },
        None => None,
    }
}

/// Number of buckets of the waveforms that are made in the background.
pub const BACKGROUND_BUCKETS: usize = 150;

/// The waveforms that are made in the background: one song at a time.
///
/// The worker that makes them asks for the next song when it is free, and
/// says so when it is done; nothing is started while a song is in the making.
pub struct WaveformJobs {
    current: Option<i64>,
}

impl View for WaveformJobs {
    type V = Option<i64>;

    closed spec fn view(&self) -> Option<i64> {
        self.current
    }
}

impl WaveformJobs {
    /// No song is in the making.
    pub fn new() -> (r: Self)
        ensures
            r@ is None,
    {
        WaveformJobs { current: None }
    }

    /// The song whose waveform is in the making, if there is one.
    pub fn current(&self) -> (r: Option<i64>)
        ensures
            r == self@,
    {
        self.current
    }

    /// Takes up `candidate`, the next song without a waveform, unless a
    /// song is in the making. Returns the song to work on now.
    pub fn claim(&mut self, candidate: Option<i64>) -> (r: Option<i64>)
        ensures
            old(self)@ is Some ==> r is None && final(self)@ == old(self)@,
            old(self)@ is None ==> r == candidate && final(self)@ == candidate,
    {
        match self.current {
            Some(_) => None,
            None => {
                self.current = candidate;
                candidate
            },
        }
    }

    /// The waveform of `song_id` is done, or was given up. Returns whether
    /// that song was the one in the making, after which the next may be
    /// claimed.
    pub fn complete(&mut self, song_id: i64) -> (r: bool)
        ensures
            r == (old(self)@ == Some(song_id)),
            r ==> final(self)@ is None,
            !r ==> final(self)@ == old(self)@,
    {
        match self.current {
            Some(id) => {
                if id == song_id {
                    self.current = None;
                    true
                } else {
                    false
                }
            },
            None => false,
        }
    }
}

/// Every frame lands in a bucket that exists, frames that come later never
/// land in an earlier bucket, and while the estimate lasts a bucket takes
/// exactly the frames of its own slice of time.
pub proof fn law_buckets_follow_time(first: nat, second: nat, chunk_size: nat, buckets: nat)
    requires
        chunk_size > 0,
        buckets > 0,
        first <= second,
    ensures
        bucket_of(first, chunk_size, buckets) < buckets,
        bucket_of(first, chunk_size, buckets) <= bucket_of(second, chunk_size, buckets),
        first < chunk_size * buckets ==> bucket_of(first, chunk_size, buckets) * chunk_size
            <= first < (bucket_of(first, chunk_size, buckets) + 1) * chunk_size,
{
    let c = chunk_size as int;
    let a = first as int;
    let b = second as int;
    let n = buckets as int;
    assert(a / c <= b / c) by (nonlinear_arith)
        requires
            0 <= a <= b,
            c > 0;
    assert((a / c) * c <= a && a < (a / c + 1) * c) by (nonlinear_arith)
        requires
            0 <= a,
            c > 0;
    if a < c * n {
        assert(a / c < n) by (nonlinear_arith)
            requires
                0 <= a < c * n,
                c > 0;
    }
}

/// With the estimate right, the buckets share the track evenly: the bucket
/// size times the number of buckets covers every frame of the track.
pub proof fn law_chunks_cover_track(estimated: nat, buckets: nat)
    requires
        buckets > 0,
    ensures
        chunk_size_for(estimated, buckets) >= 1,
        chunk_size_for(estimated, buckets) * buckets >= estimated,
{
    let e = estimated as int;
    let n = buckets as int;
    if e > 0 {
        let q = (e + n - 1) / n;
        assert(q * n >= e && q >= 1) by (nonlinear_arith)
            requires
                q == (e + n - 1) / n,
                n > 0,
                e > 0;
    } else {
        assert(1 * n >= 0) by (nonlinear_arith)
            requires
                n > 0;
    }
}

/// A waveform that was stored after the file was last changed, has the
/// length asked for and is not silent, is served again as it is: a second
/// extraction of an unchanged file gives the same array without decoding.
/// A silent waveform is never served; a silent file is decoded each time.
pub proof fn law_stored_waveform_is_served(
    values: Seq<u32>,
    stored_at: u64,
    requested: nat,
    file_modified: u64,
)
    requires
        values.len() == requested,
        requested > 0,
        stored_at >= file_modified,
    ensures
        !all_zero(values) ==> served(Some((values, stored_at)), requested, file_modified) == Some(
            values,
        ),
        all_zero(values) ==> served(Some((values, stored_at)), requested, file_modified) is None,
{
}

/// A waveform that is older than its file is not served, whatever it holds.
pub proof fn law_changed_file_is_decoded_again(
    values: Seq<u32>,
    stored_at: u64,
    requested: nat,
    file_modified: u64,
)
    requires
        stored_at < file_modified,
    ensures
        served(Some((values, stored_at)), requested, file_modified) is None,
{
}

/// The peak of a waveform is one number: the contract of [`peak`] leaves
/// no choice.
pub proof fn law_peak_is_unique(values: Seq<u32>, p: u32, q: u32)
    requires
        is_peak(values, p),
        is_peak(values, q),
    ensures
        p == q,
{
    if p != 0 {
        let i = choose|i: int| 0 <= i < values.len() && values[i] == p;
        assert(is_amplitude(values[i]));
    }
    if q != 0 {
        let j = choose|j: int| 0 <= j < values.len() && values[j] == q;
        assert(is_amplitude(values[j]));
    }
}

/// A waveform has the peak zero exactly when none of its values is a
/// positive number. Then it stays as it is; else the bucket that holds the
/// peak is the one that the division by the peak turns into one.
pub proof fn law_silent_waveform_has_no_peak(values: Seq<u32>, p: u32)
    requires
        is_peak(values, p),
    ensures
        p == 0 <==> forall|i: int| 0 <= i < values.len() ==> !is_amplitude(#[trigger] values[i]),
        all_zero(values) ==> p == 0,
{
    if p != 0 {
        let i = choose|i: int| 0 <= i < values.len() && values[i] == p;
        assert(is_amplitude(values[i]));
        assert(!is_zero(values[i]));
    }
}

} // verus!
