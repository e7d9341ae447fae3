//! The records of the library store, as they cross the boundary to it, and
//! the rules by which requests to change them are tidied before they are
//! stored.

use vstd::prelude::*;
use crate::tags::{json_list, json_of_string_list, normalize_tags, normalized_tags, texts};
use crate::text::{chars_of, normalize_optional_string, tidied};

verus! {

/// A folder of the library.
#[derive(Debug)]
pub struct Folder {
    pub id: i64,
    pub path: String,
    pub name: Option<String>,
    pub order: i64,
    pub added_at: String,
}

#[derive(Debug)]
pub struct FolderList {
    pub folders: Vec<Folder>,
}

/// A playlist of the library.
#[derive(Debug)]
pub struct Playlist {
    pub id: i64,
    pub name: String,
    pub description: Option<String>,
    /// 0 for a playlist with a fixed list of songs, 1 for one that is
    /// filled by its tag filter.
    pub is_dynamic: i32,
    /// The tags of the filter, as a JSON array.
    pub filter_tags: Option<String>,
    /// `AND` or `OR`.
    pub filter_mode: Option<String>,
    pub order: i64,
    pub created_at: String,
    pub updated_at: String,
}

#[derive(Debug)]
pub struct PlaylistList {
    pub playlists: Vec<Playlist>,
}

/// A tag of the library.
#[derive(Debug)]
pub struct Tag {
    pub id: i64,
    pub name: String,
    pub color: Option<String>,
    pub created_at: String,
}

/// The video that goes with a song, and by how much it is delayed.
#[derive(Debug)]
pub struct VideoSync {
    pub song_id: i64,
    pub video_path: String,
    pub delay_ms: i64,
}

#[derive(Debug)]
pub struct DashboardDateCount {
    pub label: String,
    pub count: i64,
}

#[derive(Debug)]
pub struct DashboardSongStat {
    pub id: i64,
    pub title: Option<String>,
    pub artist: Option<String>,
    pub file_path: String,
    pub play_count: i64,
}

#[derive(Debug)]
pub struct DashboardRecentSong {
    pub id: i64,
    pub title: Option<String>,
    pub artist: Option<String>,
    pub created_at: String,
}

#[derive(Debug)]
pub struct DashboardNamedCount {
    pub name: String,
    pub count: i64,
}

#[derive(Debug)]
pub struct DashboardTagUsage {
    pub name: String,
    pub song_count: i64,
}

#[derive(Debug)]
pub struct DashboardPlaylistCount {
    pub id: i64,
    pub name: String,
    pub count: i64,
}

#[derive(Debug)]
pub struct DashboardFolderCount {
    pub id: i64,
    pub name: String,
    pub count: i64,
}

/// The tag on the most songs and the tag on the fewest, from the tags in
/// the order of their use, most used first: the first and the last of the
/// list, and none for an empty list.
pub fn tag_usage_extremes(usage: &Vec<DashboardTagUsage>) -> (r: (
    Option<DashboardNamedCount>,
    Option<DashboardNamedCount>,
))
    ensures
        usage@.len() == 0 ==> r.0 is None && r.1 is None,
        usage@.len() > 0 ==> {
            &&& r.0 is Some
            &&& r.0->0.name@ == usage@[0].name@
            &&& r.0->0.count == usage@[0].song_count
            &&& r.1 is Some
            &&& r.1->0.name@ == usage@[usage@.len() - 1].name@
            &&& r.1->0.count == usage@[usage@.len() - 1].song_count
        },
{
    if usage.len() == 0 {
        return (None, None);
    }
    let first = &usage[0];
    let last = &usage[usage.len() - 1];
    (
        Some(DashboardNamedCount { name: first.name.clone(), count: first.song_count }),
        Some(DashboardNamedCount { name: last.name.clone(), count: last.song_count }),
    )
}

/// A request to change the metadata of a song.
#[derive(Debug)]
pub struct UpdateSongMetadataPayload {
    pub song_id: i64,
    pub title: Option<String>,
    pub artist: Option<String>,
    pub album: Option<String>,
    pub year: Option<i32>,
    pub genre: Option<String>,
    pub album_artist: Option<String>,
    pub track_number: Option<u32>,
    pub disc_number: Option<u32>,
    pub comment: Option<String>,
    pub album_art_path: Option<String>,
    pub composer: Option<String>,
    pub lyricist: Option<String>,
    pub bpm: Option<u32>,
    pub key: Option<String>,
    pub copyright: Option<String>,
    pub encoder: Option<String>,
    pub isrc: Option<String>,
    pub publisher: Option<String>,
    pub subtitle: Option<String>,
    pub grouping: Option<String>,
    pub tags: Option<Vec<String>>,
}

/// A request to change the tags of a song.
#[derive(Debug)]
pub struct UpdateSongTagsPayload {
    pub song_id: i64,
    pub tags: Vec<String>,
}

/// The tags of an optional list, as characters.
pub open spec fn optional_texts(tags: Option<Vec<String>>) -> Option<Seq<Seq<char>>> {
    match tags {
        Some(list) => Some(texts(list@)),
        None => None,
    }
}

/// An optional list of tags tidied.
pub open spec fn tidied_tags(tags: Option<Seq<Seq<char>>>) -> Option<Seq<Seq<char>>> {
    match tags {
        Some(list) => Some(normalized_tags(list)),
        None => None,
    }
}

impl UpdateSongMetadataPayload {
    /// The request as it is carried out: every text trimmed and absent
    /// where nothing is left of it, the tags tidied, the numbers as they are.
    pub fn normalized(self) -> (r: Self)
        ensures
            r.song_id == self.song_id,
            r.year == self.year,
            r.track_number == self.track_number,
            r.disc_number == self.disc_number,
            r.bpm == self.bpm,
            chars_of(r.title) == tidied(chars_of(self.title)),
            chars_of(r.artist) == tidied(chars_of(self.artist)),
            chars_of(r.album) == tidied(chars_of(self.album)),
            chars_of(r.genre) == tidied(chars_of(self.genre)),
            chars_of(r.album_artist) == tidied(chars_of(self.album_artist)),
            chars_of(r.comment) == tidied(chars_of(self.comment)),
            chars_of(r.album_art_path) == tidied(chars_of(self.album_art_path)),
            chars_of(r.composer) == tidied(chars_of(self.composer)),
            chars_of(r.lyricist) == tidied(chars_of(self.lyricist)),
            chars_of(r.key) == tidied(chars_of(self.key)),
            chars_of(r.copyright) == tidied(chars_of(self.copyright)),
            chars_of(r.encoder) == tidied(chars_of(self.encoder)),
            chars_of(r.isrc) == tidied(chars_of(self.isrc)),
            chars_of(r.publisher) == tidied(chars_of(self.publisher)),
            chars_of(r.subtitle) == tidied(chars_of(self.subtitle)),
            chars_of(r.grouping) == tidied(chars_of(self.grouping)),
            optional_texts(r.tags) == tidied_tags(optional_texts(self.tags)),
    {
        UpdateSongMetadataPayload {
            song_id: self.song_id,
            title: normalize_optional_string(self.title),
            artist: normalize_optional_string(self.artist),
            album: normalize_optional_string(self.album),
            year: self.year,
            genre: normalize_optional_string(self.genre),
            album_artist: normalize_optional_string(self.album_artist),
            track_number: self.track_number,
            disc_number: self.disc_number,
            comment: normalize_optional_string(self.comment),
            album_art_path: normalize_optional_string(self.album_art_path),
            composer: normalize_optional_string(self.composer),
            lyricist: normalize_optional_string(self.lyricist),
            bpm: self.bpm,
            key: normalize_optional_string(self.key),
            copyright: normalize_optional_string(self.copyright),
            encoder: normalize_optional_string(self.encoder),
            isrc: normalize_optional_string(self.isrc),
            publisher: normalize_optional_string(self.publisher),
            subtitle: normalize_optional_string(self.subtitle),
            grouping: normalize_optional_string(self.grouping),
            tags: match self.tags {
                Some(list) => Some(normalize_tags(list)),
                None => None,
            },
        }
    }
}

impl UpdateSongTagsPayload {
    /// The request as it is carried out: the tags tidied.
    pub fn normalized(self) -> (r: Self)
        ensures
            r.song_id == self.song_id,
            texts(r.tags@) == normalized_tags(texts(self.tags@)),
    {
        UpdateSongTagsPayload { song_id: self.song_id, tags: normalize_tags(self.tags) }
    }
}

/// The place in the order that each of `ids` gets when the records are
/// put in the order of the list: its index.
pub fn order_updates(ids: &Vec<i64>) -> (updates: Vec<(i64, i64)>)
    requires
        ids@.len() <= i64::MAX,
    ensures
        updates@.len() == ids@.len(),
        forall|i: int| 0 <= i < ids@.len() ==> #[trigger] updates@[i] == (i as i64, ids@[i]),
{
    let mut updates: Vec<(i64, i64)> = Vec::new();
    let mut i: usize = 0;
    while i < ids.len()
        invariant
            0 <= i <= ids@.len(),
            ids@.len() <= i64::MAX,
            updates@.len() == i,
            forall|k: int| 0 <= k < i ==> #[trigger] updates@[k] == (k as i64, ids@[k]),
        decreases ids@.len() - i,
    {
        updates.push((i as i64, ids[i]));
        i += 1;
    }
    updates
}

/// What is stored of a playlist's definition.
#[derive(Debug)]
pub struct PlaylistDefinition {
    pub description: String,
    pub is_dynamic: i32,
    pub filter_tags: Option<String>,
    pub filter_mode: String,
}

/// The definition of a playlist as it is stored, given the JSON text of its
/// filter tags where there is one. A playlist that is not dynamic has no
/// filter and the mode `OR`. A dynamic one has its tags as a JSON array,
/// the empty array where none were given, and its mode, `OR` where none was
/// given.
pub fn definition_from_encoded(
    description: Option<String>,
    is_dynamic: Option<bool>,
    encoded_tags: Option<String>,
    filter_mode: Option<String>,
) -> (r: PlaylistDefinition)
    ensures
        r.description@ == (match description {
            Some(d) => d@,
            None => Seq::<char>::empty(),
        }),
        r.is_dynamic == (if is_dynamic == Some(true) {
            1i32
        } else {
            0i32
        }),
        is_dynamic != Some(true) ==> r.filter_tags is None && r.filter_mode@ == "OR"@,
        is_dynamic == Some(true) ==> r.filter_tags is Some && r.filter_tags->0@ == (match encoded_tags {
            Some(t) => t@,
            None => "[]"@,
        }) && r.filter_mode@ == (match filter_mode {
            Some(m) => m@,
            None => "OR"@,
        }),
{
    let dynamic = match is_dynamic {
        Some(d) => d,
        None => false,
    };
    let description = match description {
        Some(d) => d,
        None => String::new(),
    };
    if dynamic {
        let filter_tags = match encoded_tags {
            Some(t) => t,
            None => "[]".to_owned(),
        };
        let filter_mode = match filter_mode {
            Some(m) => m,
            None => "OR".to_owned(),
        };
        PlaylistDefinition { description, is_dynamic: 1, filter_tags: Some(filter_tags), filter_mode }
    } else {
        PlaylistDefinition {
            description,
            is_dynamic: 0,
            filter_tags: None,
            filter_mode: "OR".to_owned(),
        }
    }
}

/// The definition of a playlist as it is stored.
pub fn playlist_definition(
    description: Option<String>,
    is_dynamic: Option<bool>,
    filter_tags: Option<Vec<String>>,
    filter_mode: Option<String>,
) -> (r: PlaylistDefinition)
    ensures
        r.description@ == (match description {
            Some(d) => d@,
            None => Seq::<char>::empty(),
        }),
        r.is_dynamic == (if is_dynamic == Some(true) {
            1i32
        } else {
            0i32
        }),
        is_dynamic != Some(true) ==> r.filter_tags is None && r.filter_mode@ == "OR"@,
        is_dynamic == Some(true) ==> r.filter_tags is Some && r.filter_tags->0@ == (match filter_tags {
            Some(tags) => json_of_string_list(texts(tags@)),
            None => "[]"@,
        }) && r.filter_mode@ == (match filter_mode {
            Some(m) => m@,
            None => "OR"@,
        }),
{
    let encoded = match &filter_tags {
        Some(tags) => Some(json_list(tags)),
        None => None,
    };
    definition_from_encoded(description, is_dynamic, encoded, filter_mode)
}

} // verus!
