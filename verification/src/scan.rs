//! Rules for the files of a library folder: which are audio, which carry
//! tags that can be rewritten, and when a stored record is refreshed.

use vstd::prelude::*;
use crate::text::{lowercase, lowercase_of, same_text};

verus! {

/// Whether a file with this extension, in lower case, is taken into the
/// library.
pub open spec fn audio_extension(extension: Seq<char>) -> bool {
    extension == "mp3"@ || extension == "flac"@ || extension == "wav"@ || extension == "m4a"@
        || extension == "aac"@ || extension == "ogg"@ || extension == "opus"@ || extension
        == "wma"@ || extension == "mp4"@ || extension == "m4v"@
}

/// Whether a file with this extension is taken into the library, whatever
/// the letter case of the extension.
pub fn is_audio_extension(extension: &str) -> (r: bool)
    ensures
        r == audio_extension(lowercase_of(extension@)),
{
    let lower = lowercase(extension);
    let e = lower.as_str();
    same_text(e, "mp3") || same_text(e, "flac") || same_text(e, "wav") || same_text(e, "m4a")
        || same_text(e, "aac") || same_text(e, "ogg") || same_text(e, "opus") || same_text(
        e,
        "wma",
    ) || same_text(e, "mp4") || same_text(e, "m4v")
}

/// A kind of file whose tags can be rewritten.
#[derive(Clone, Copy, Debug, PartialEq, Eq, Structural)]
pub enum TagFormat {
    Mp3,
    Flac,
}

/// The kind of tags of a file with this extension in lower case.
pub open spec fn tag_format_of(extension: Seq<char>) -> Option<TagFormat> {
    if extension == "mp3"@ {
        Some(TagFormat::Mp3)
    } else if extension == "flac"@ {
        Some(TagFormat::Flac)
    } else {
        None
    }
}

/// The kind of tags of a file with this extension; `None` for a file whose
/// metadata cannot be rewritten.
pub fn tag_format(extension: &str) -> (r: Option<TagFormat>)
    ensures
        r == tag_format_of(lowercase_of(extension@)),
{
    let lower = lowercase(extension);
    let e = lower.as_str();
    if same_text(e, "mp3") {
        Some(TagFormat::Mp3)
    } else if same_text(e, "flac") {
        Some(TagFormat::Flac)
    } else {
        None
    }
}

/// Whether a stored field is as good as unknown: absent, or the
/// marker that stands for unknown.
pub open spec fn unknown(field: Option<Seq<char>>, marker: Seq<char>) -> bool {
    match field {
        Some(text) => text == marker,
        None => true,
    }
}

/// Executable form of [`unknown`].
pub fn is_unknown(field: &Option<String>, marker: &str) -> (r: bool)
    ensures
        r == unknown(
            match *field {
                Some(text) => Some(text@),
                None => None,
            },
            marker@,
        ),
{
    match field {
        Some(text) => same_text(text.as_str(), marker),
        None => true,
    }
}

/// Whether the record of a song is refreshed from its file: title, artist
/// or album is unknown, and the file says something.
pub fn needs_refresh(
    title: &Option<String>,
    artist: &Option<String>,
    album: &Option<String>,
    marker: &str,
    file_says_something: bool,
) -> (r: bool)
    ensures
        r == (file_says_something && (unknown(
            match *title {
                Some(t) => Some(t@),
                None => None,
            },
            marker@,
        ) || unknown(
            match *artist {
                Some(t) => Some(t@),
                None => None,
            },
            marker@,
        ) || unknown(
            match *album {
                Some(t) => Some(t@),
                None => None,
            },
            marker@,
        ))),
{
    file_says_something && (is_unknown(title, marker) || is_unknown(artist, marker)
        || is_unknown(album, marker))
}

} // verus!
