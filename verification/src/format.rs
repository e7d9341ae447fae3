//! What is reported of the format of an audio file.

use vstd::prelude::*;
use crate::text::{
    bare_extension, bare_name, chars_of, follows_a_dot, path_extension, uppercase, uppercase_of,
};
use crate::time::{bitrate_kbps, kilobits_per_second, ticks_in_nanos, ticks_to_nanos};
use crate::track::{first_decodable_track, is_first_decodable, TrackInfo};

verus! {

/// Container, sample rate, bit rate in kilobits per second, and channel
/// count of a file.
#[derive(Debug)]
pub struct FormatInfo {
    pub format_name: String,
    pub sample_rate: Option<u32>,
    pub bitrate: Option<u32>,
    pub channels: Option<u8>,
}

/// The name of a container by the extension of its file: the extension in
/// upper case, `Unknown` for a file without one.
pub open spec fn format_name_of(extension: Option<Seq<char>>) -> Seq<char> {
    match extension {
        Some(e) => uppercase_of(e),
        None => "Unknown"@,
    }
}

/// Names the container of a file with the given extension.
pub fn format_name_for(extension: Option<&str>) -> (name: String)
    ensures
        name@ == format_name_of(
            match extension {
                Some(e) => Some(e@),
                None => None,
            },
        ),
{
    match extension {
        Some(e) => uppercase(e),
        None => "Unknown".to_owned(),
    }
}

/// Names the container of the file at `path` by the extension that the
/// path has: `Unknown` for a path without a dot; for a bare file name, the
/// text behind its last dot in upper case, `Unknown` where the
/// only dot comes first or the name is `..`; and for any path the name for
/// an extension that stands in it behind a dot, or for none. Where the last
/// component of a path with separators begins is the platform's to say.
pub fn format_name(path: &str) -> (name: String)
    ensures
        !path@.contains('.') ==> name@ == "Unknown"@,
        bare_name(path@) ==> name@ == format_name_of(bare_extension(path@)),
        exists|extension: Option<Seq<char>>|
            (extension is Some ==> follows_a_dot(path@, extension->0)) && name@ == format_name_of(
                extension,
            ),
{
    let extension = path_extension(path);
    let name = match &extension {
        Some(e) => format_name_for(Some(e.as_str())),
        None => format_name_for(None),
    };
    assert((chars_of(extension) is Some ==> follows_a_dot(path@, chars_of(extension)->0)) && name@
        == format_name_of(chars_of(extension)));
    name
}

/// The channel count in eight bits, as it is reported; counts beyond 255
/// lose their upper bits.
pub open spec fn reported_channels(channels: Option<u32>) -> Option<u8> {
    match channels {
        Some(c) => Some((c % 256) as u8),
        None => None,
    }
}

/// The bit rate that is reported of a track in a file of `file_size`
/// bytes: the file's size over the track's duration, where the track
/// declares a length and a time base that give a duration above zero, and
/// the size is known.
pub open spec fn reported_bitrate(track: TrackInfo, file_size: Option<u64>) -> Option<u32> {
    if track.time_base is Some && track.n_frames is Some && file_size is Some
        && track.time_base->0.numer > 0 && track.time_base->0.denom > 0 {
        let nanos = ticks_in_nanos(track.time_base->0, track.n_frames->0);
        if 0 < nanos <= u64::MAX {
            let rate = kilobits_per_second(file_size->0, nanos as u64);
            if rate > u32::MAX {
                Some(u32::MAX)
            } else {
                Some(rate as u32)
            }
        } else {
            None
        }
    } else {
        None
    }
}

/// Rate, bit rate and channels of the first track with a codec; `None`
/// where no track has one.
pub fn track_format(tracks: &Vec<TrackInfo>, file_size: Option<u64>) -> (r: Option<
    (Option<u32>, Option<u32>, Option<u8>),
>)
    ensures
        match r {
            Some((sample_rate, bitrate, channels)) => exists|i: int|
                {
                    &&& is_first_decodable(tracks@, i)
                    &&& sample_rate == tracks@[i].sample_rate
                    &&& bitrate == reported_bitrate(tracks@[i], file_size)
                    &&& channels == reported_channels(tracks@[i].channels)
                },
            None => forall|j: int| 0 <= j < tracks@.len() ==> !(#[trigger] tracks@[j]).has_codec,
        },
{
    let index = match first_decodable_track(tracks) {
        Some(i) => i,
        None => {
            return None;
        },
    };
    let track = &tracks[index];
    let channels = match track.channels {
        Some(c) => Some((c % 256) as u8),
        None => None,
    };
    let duration = match (track.time_base, track.n_frames) {
        (Some(base), Some(frames)) => ticks_to_nanos(base, frames),
        _ => None,
    };
    let bitrate = match (duration, file_size) {
        (Some(nanos), Some(size)) => bitrate_kbps(size, nanos),
        _ => None,
    };
    assert(is_first_decodable(tracks@, index as int));
    Some((track.sample_rate, bitrate, channels))
}

} // verus!
