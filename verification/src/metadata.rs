//! Metadata of a song as it is read from the tags of its file, and how it
//! is merged into what the library knows.

use vstd::prelude::*;
use vstd::slice::slice_index_get;
use vstd::string::StringSliceAdditionalSpecFns;
use crate::text::same_text;

verus! {

/// A field of a song that a tag of its file can fill.
#[derive(Clone, Copy, Debug, PartialEq, Eq, Structural)]
pub enum MetaField {
    Title,
    Artist,
    Album,
    Year,
    Genre,
}

/// The field that an ID3 frame with identifier `frame_id` fills, in either
/// version of the identifiers.
pub open spec fn field_of_frame(frame_id: Seq<char>) -> Option<MetaField> {
    if frame_id == "TIT2"@ || frame_id == "TT2"@ {
        Some(MetaField::Title)
    } else if frame_id == "TPE1"@ || frame_id == "TP1"@ {
        Some(MetaField::Artist)
    } else if frame_id == "TALB"@ || frame_id == "TAL"@ {
        Some(MetaField::Album)
    } else if frame_id == "TDRC"@ || frame_id == "TYER"@ {
        Some(MetaField::Year)
    } else if frame_id == "TCON"@ || frame_id == "TCO"@ {
        Some(MetaField::Genre)
    } else {
        None
    }
}

/// Executable form of [`field_of_frame`].
pub fn id3_field(frame_id: &str) -> (r: Option<MetaField>)
    ensures
        r == field_of_frame(frame_id@),
{
    if same_text(frame_id, "TIT2") || same_text(frame_id, "TT2") {
        Some(MetaField::Title)
    } else if same_text(frame_id, "TPE1") || same_text(frame_id, "TP1") {
        Some(MetaField::Artist)
    } else if same_text(frame_id, "TALB") || same_text(frame_id, "TAL") {
        Some(MetaField::Album)
    } else if same_text(frame_id, "TDRC") || same_text(frame_id, "TYER") {
        Some(MetaField::Year)
    } else if same_text(frame_id, "TCON") || same_text(frame_id, "TCO") {
        Some(MetaField::Genre)
    } else {
        None
    }
}

/// The value of a decimal digit in ASCII.
pub open spec fn digit(byte: u8) -> Option<int> {
    if 48 <= byte <= 57 {
        Some(byte - 48)
    } else {
        None
    }
}

/// The year at the start of a date: its first four bytes read as a decimal
/// number, which may have a sign in place of its first digit. `None` for a
/// shorter text and for four bytes that are no number.
pub open spec fn year_of(bytes: Seq<u8>) -> Option<int> {
    if bytes.len() < 4 {
        None
    } else if digit(bytes[1]) is Some && digit(bytes[2]) is Some && digit(bytes[3]) is Some {
        let tail = digit(bytes[1])->0 * 100 + digit(bytes[2])->0 * 10 + digit(bytes[3])->0;
        if digit(bytes[0]) is Some {
            Some(digit(bytes[0])->0 * 1000 + tail)
        } else if bytes[0] == 43 {
            Some(tail)
        } else if bytes[0] == 45 {
            Some(-tail)
        } else {
            None
        }
    } else {
        None
    }
}

fn digit_value(byte: u8) -> (r: Option<i32>)
    ensures
        match r {
            Some(d) => digit(byte) == Some(d as int),
            None => digit(byte) is None,
        },
{
    if byte >= 48 && byte <= 57 {
        Some((byte - 48) as i32)
    } else {
        None
    }
}

/// Reads the year from the start of a date such as `2019-05-01`.
pub fn parse_year(text: &str) -> (r: Option<i32>)
    ensures
        match r {
            Some(y) => year_of(text.spec_bytes()) == Some(y as int),
            None => year_of(text.spec_bytes()) is None,
        },
{
    let bytes = text.as_bytes();
    if bytes.len() < 4 {
        return None;
    }
    let b0 = *slice_index_get(bytes, 0);
    let d1 = digit_value(*slice_index_get(bytes, 1));
    let d2 = digit_value(*slice_index_get(bytes, 2));
    let d3 = digit_value(*slice_index_get(bytes, 3));
    match (d1, d2, d3) {
        (Some(h), Some(t), Some(u)) => {
            let tail: i32 = h * 100 + t * 10 + u;
            match digit_value(b0) {
                Some(m) => Some(m * 1000 + tail),
                None => if b0 == 43 {
                    Some(tail)
                } else if b0 == 45 {
                    Some(-tail)
                } else {
                    None
                },
            }
        },
        _ => None,
    }
}

/// What the tags of a file say of a song.
#[derive(Debug)]
pub struct ExtractedMeta {
    pub title: Option<String>,
    pub artist: Option<String>,
    pub album: Option<String>,
    pub year: Option<i32>,
    pub genre: Option<String>,
    /// Duration in nanoseconds.
    pub duration: Option<u64>,
    pub tags: Vec<String>,
}

/// Whether `after` is what a text field holds once a frame's text was
/// offered: the text, where the frame is for the field and the field was
/// open; else what it held.
pub open spec fn offered(before: Option<String>, hit: bool, text: Seq<char>, after: Option<String>) -> bool {
    if hit && before is None {
        after is Some && after->0@ == text
    } else {
        after == before
    }
}

impl ExtractedMeta {
    /// Metadata that says nothing.
    pub fn new() -> (r: Self)
        ensures
            r.title is None,
            r.artist is None,
            r.album is None,
            r.year is None,
            r.genre is None,
            r.duration is None,
            r.tags@.len() == 0,
    {
        ExtractedMeta {
            title: None,
            artist: None,
            album: None,
            year: None,
            genre: None,
            duration: None,
            tags: Vec::new(),
        }
    }

    /// Takes in the text of an ID3 frame for `field`. The first frame of
    /// a field counts; later ones are passed over. A year is read from the
    /// start of the text, and a text without one leaves the year open.
    pub fn offer(&mut self, field: MetaField, text: &str)
        ensures
            offered(old(self).title, field == MetaField::Title, text@, final(self).title),
            offered(old(self).artist, field == MetaField::Artist, text@, final(self).artist),
            offered(old(self).album, field == MetaField::Album, text@, final(self).album),
            offered(old(self).genre, field == MetaField::Genre, text@, final(self).genre),
            final(self).year == (if field == MetaField::Year && old(self).year is None {
                match year_of(text.spec_bytes()) {
                    Some(y) => Some(y as i32),
                    None => None,
                }
            } else {
                old(self).year
            }),
            final(self).duration == old(self).duration,
            final(self).tags == old(self).tags,
    {
        match field {
            MetaField::Title => {
                if self.title.is_none() {
                    self.title = Some(text.to_owned());
                }
            },
            MetaField::Artist => {
                if self.artist.is_none() {
                    self.artist = Some(text.to_owned());
                }
            },
            MetaField::Album => {
                if self.album.is_none() {
                    self.album = Some(text.to_owned());
                }
            },
            MetaField::Genre => {
                if self.genre.is_none() {
                    self.genre = Some(text.to_owned());
                }
            },
            MetaField::Year => {
                if self.year.is_none() {
                    self.year = parse_year(text);
                }
            },
        }
    }
}

/// What the library knows of a song and a file can tell anew.
#[derive(Debug)]
pub struct SongFields {
    pub title: Option<String>,
    pub artist: Option<String>,
    pub album: Option<String>,
    pub year: Option<i32>,
    pub genre: Option<String>,
    /// Duration in nanoseconds.
    pub duration: Option<u64>,
}

/// One field merged: the value read from the file where there is one, else
/// the value known.
pub open spec fn merged<T>(fresh: Option<T>, known: Option<T>) -> Option<T> {
    if fresh is Some {
        fresh
    } else {
        known
    }
}

/// Merges one field.
pub fn merge_field<T>(fresh: Option<T>, known: Option<T>) -> (r: Option<T>)
    ensures
        r == merged(fresh, known),
{
    match fresh {
        Some(value) => Some(value),
        None => known,
    }
}

/// Merges what the file says into what the library knows of a song, field
/// by field: a value from the file replaces the known one, and a field on
/// which the file is silent stays as it is. Returns the file's tags.
pub fn merge_file_metadata(song: &mut SongFields, fresh: ExtractedMeta) -> (tags: Vec<String>)
    ensures
        final(song).title == merged(fresh.title, old(song).title),
        final(song).artist == merged(fresh.artist, old(song).artist),
        final(song).album == merged(fresh.album, old(song).album),
        final(song).year == merged(fresh.year, old(song).year),
        final(song).genre == merged(fresh.genre, old(song).genre),
        final(song).duration == merged(fresh.duration, old(song).duration),
        tags == fresh.tags,
{
    if fresh.title.is_some() {
        song.title = fresh.title;
    }
    if fresh.artist.is_some() {
        song.artist = fresh.artist;
    }
    if fresh.album.is_some() {
        song.album = fresh.album;
    }
    if fresh.year.is_some() {
        song.year = fresh.year;
    }
    if fresh.genre.is_some() {
        song.genre = fresh.genre;
    }
    if fresh.duration.is_some() {
        song.duration = fresh.duration;
    }
    fresh.tags
}

/// Whether what was read from a file when it was last modified at
/// `cached_mtime` still holds of the file, last modified at `mtime`.
pub fn cached_metadata_current(cached_mtime: u64, mtime: u64) -> (r: bool)
    ensures
        r == (cached_mtime == mtime),
{
    cached_mtime == mtime
}

/// Merging never erases: a field that was known is known afterwards, and a
/// field that the file gives has the file's value.
pub proof fn law_merge_keeps_what_is_known<T>(fresh: Option<T>, known: Option<T>)
    ensures
        known is Some ==> merged(fresh, known) is Some,
        fresh is Some ==> merged(fresh, known) == fresh,
        fresh is None ==> merged(fresh, known) == known,
{
}

} // verus!
