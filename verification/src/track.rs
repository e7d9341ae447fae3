//! Choosing the track of a container that is played or analysed.

use vstd::prelude::*;

verus! {

/// Ratio that turns a track's timestamps into seconds: one tick lasts
/// `numer / denom` seconds.
#[derive(Clone, Copy, Debug, PartialEq, Eq, Structural)]
pub struct TimeBase {
    pub numer: u32,
    pub denom: u32,
}

/// What the demuxer declares of one track of a container.
#[derive(Clone, Copy, Debug, PartialEq, Eq, Structural)]
pub struct TrackInfo {
    /// Identifier that every packet of the track carries.
    pub id: u32,
    /// Whether the demuxer recognised a codec for the track.
    pub has_codec: bool,
    pub sample_rate: Option<u32>,
    pub channels: Option<u32>,
    /// Declared length in frames, where the container gives one.
    pub n_frames: Option<u64>,
    pub time_base: Option<TimeBase>,
}

impl TrackInfo {
    /// A track that can be played: it has a codec, a sample rate and a channel count.
    pub open spec fn playable(self) -> bool {
        self.has_codec && self.sample_rate is Some && self.channels is Some
    }

    /// The length by which playable tracks are ranked; an undeclared length counts as zero.
    pub open spec fn declared_frames(self) -> int {
        match self.n_frames {
            Some(n) => n as int,
            None => 0,
        }
    }

    /// Executable form of [`TrackInfo::playable`].
    pub fn is_playable(&self) -> (r: bool)
        ensures
            r == self.playable(),
    {
        self.has_codec && self.sample_rate.is_some() && self.channels.is_some()
    }

    /// Executable form of [`TrackInfo::declared_frames`].
    pub fn frame_count(&self) -> (r: u64)
        ensures
            r as int == self.declared_frames(),
    {
        match self.n_frames {
            Some(n) => n,
            None => 0,
        }
    }
}

/// Whether `i` is the track that playback takes from `tracks`: playable, at
/// least as long as every other playable track, and the last of those that
/// are as long.
pub open spec fn is_playback_choice(tracks: Seq<TrackInfo>, i: int) -> bool {
    &&& 0 <= i < tracks.len()
    &&& tracks[i].playable()
    &&& forall|j: int|
        0 <= j < tracks.len() && tracks[j].playable() ==> #[trigger] tracks[j].declared_frames()
            <= tracks[i].declared_frames()
    &&& forall|j: int|
        i < j < tracks.len() && tracks[j].playable() ==> #[trigger] tracks[j].declared_frames()
            < tracks[i].declared_frames()
}

/// Whether `i` is the first track of `tracks` with a recognised codec.
pub open spec fn is_first_decodable(tracks: Seq<TrackInfo>, i: int) -> bool {
    &&& 0 <= i < tracks.len()
    &&& tracks[i].has_codec
    &&& forall|j: int| 0 <= j < i ==> !(#[trigger] tracks[j]).has_codec
}

/// Picks the track to play: among the tracks with a codec, a sample rate and
/// a channel count, the one that declares the most frames. Album art and
/// subtitle streams declare none and lose to the audio. Of several tracks
/// of the greatest length the last one is taken. Returns its index, or
/// `None` when no track is playable.
pub fn select_playback_track(tracks: &Vec<TrackInfo>) -> (r: Option<usize>)
    ensures
        match r {
            Some(i) => is_playback_choice(tracks@, i as int),
            None => forall|j: int| 0 <= j < tracks@.len() ==> !(#[trigger] tracks@[j]).playable(),
        },
{
    let mut best: Option<usize> = None;
    let mut best_frames: u64 = 0;
    let mut k: usize = 0;
    while k < tracks.len()
        invariant
            0 <= k <= tracks@.len(),
            match best {
                Some(i) => {
                    &&& is_playback_choice(tracks@.take(k as int), i as int)
                    &&& best_frames as int == tracks@[i as int].declared_frames()
                },
                None => forall|j: int| 0 <= j < k ==> !(#[trigger] tracks@[j]).playable(),
            },
        decreases tracks@.len() - k,
    {
        let t = &tracks[k];
        let ghost prev = tracks@.take(k as int);
        let ghost next = tracks@.take(k as int + 1);
        assert(forall|j: int| 0 <= j < k ==> prev[j] == tracks@[j]);
        assert(forall|j: int| 0 <= j <= k ==> next[j] == tracks@[j]);
        if t.is_playable() {
            let frames = t.frame_count();
            let takes = match best {
                Some(_) => frames >= best_frames,
                None => true,
            };
            if takes {
                best = Some(k);
                best_frames = frames;
            }
        }
        k += 1;
    }
    assert(tracks@.take(k as int) =~= tracks@);
    best
}

/// Index of the first track with a recognised codec, which the duration,
/// format and waveform queries read; `None` when there is none.
pub fn first_decodable_track(tracks: &Vec<TrackInfo>) -> (r: Option<usize>)
    ensures
        match r {
            Some(i) => is_first_decodable(tracks@, i as int),
            None => forall|j: int| 0 <= j < tracks@.len() ==> !(#[trigger] tracks@[j]).has_codec,
        },
{
    let mut k: usize = 0;
    while k < tracks.len()
        invariant
            0 <= k <= tracks@.len(),
            forall|j: int| 0 <= j < k ==> !(#[trigger] tracks@[j]).has_codec,
        decreases tracks@.len() - k,
    {
        if tracks[k].has_codec {
            return Some(k);
        }
        k += 1;
    }
    None
}

} // verus!
