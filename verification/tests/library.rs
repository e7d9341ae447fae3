use lcmp_core::album_art::{
    album_art_candidates, extension_from_mime, guess_mime_type, mime_for_extension,
    pick_album_art_path, CachePruneResult,
};
use lcmp_core::format::{format_name, format_name_for, track_format};
use lcmp_core::metadata::{
    cached_metadata_current, id3_field, merge_field, merge_file_metadata, parse_year,
    ExtractedMeta, MetaField, SongFields,
};
use lcmp_core::models::{
    order_updates, playlist_definition, UpdateSongMetadataPayload, UpdateSongTagsPayload,
};
use lcmp_core::tags::{
    encode_tags, field_from_encoded, json_list, normalize_tags, parse_tags_value,
    resolve_song_tags, split_tags, tags_from_parsed, TagField, TAG_KEY,
};
use lcmp_core::text::{non_empty, normalize_optional_string, same_text};
use lcmp_core::track::{TimeBase, TrackInfo};

fn s(text: &str) -> String {
    text.to_string()
}

fn list(items: &[&str]) -> Vec<String> {
    items.iter().map(|t| t.to_string()).collect()
}

#[test]
fn optional_text_is_trimmed() {
    assert_eq!(normalize_optional_string(Some(s("  Abbey Road \t\n"))), Some(s("Abbey Road")));
    assert_eq!(normalize_optional_string(Some(s("x"))), Some(s("x")));
    assert_eq!(normalize_optional_string(Some(s("a  b"))), Some(s("a  b")));
    assert_eq!(normalize_optional_string(Some(s("\u{3000}title\u{a0}"))), Some(s("title")));
}

#[test]
fn blank_text_becomes_absent() {
    assert_eq!(normalize_optional_string(Some(s(""))), None);
    assert_eq!(normalize_optional_string(Some(s("   \t "))), None);
    assert_eq!(normalize_optional_string(None), None);
    assert_eq!(non_empty(""), None);
    assert_eq!(non_empty(" "), Some(s(" ")));
}

#[test]
fn tags_are_trimmed_and_deduplicated_without_regard_to_case() {
    assert_eq!(
        normalize_tags(list(&["Rock", " rock ", "", "  ", "Jazz", "ROCK", "jazz", "Hip Hop"])),
        list(&["Rock", "Jazz", "Hip Hop"])
    );
    assert_eq!(normalize_tags(vec![]), Vec::<String>::new());
    assert_eq!(normalize_tags(list(&[" a", "A ", "b"])), list(&["a", "b"]));
}

#[test]
fn normalizing_tags_twice_changes_nothing_more() {
    let once = normalize_tags(list(&[" Ambient", "ambient", "Live ", "", "LIVE", "Ärger", "ärger"]));
    assert_eq!(once, list(&["Ambient", "Live", "Ärger"]));
    let twice = normalize_tags(once.clone());
    assert_eq!(twice, once);
}

#[test]
fn tag_value_as_json_array() {
    assert_eq!(parse_tags_value("[\"rock\", \"live, 1999\"]"), list(&["rock", "live, 1999"]));
    assert_eq!(parse_tags_value("[]"), Vec::<String>::new());
    assert_eq!(parse_tags_value("[\" keep spaces \"]"), list(&[" keep spaces "]));
}

#[test]
fn tag_value_as_comma_list() {
    assert_eq!(parse_tags_value("rock, live ,, 1999 ,"), list(&["rock", "live", "1999"]));
    assert_eq!(parse_tags_value(""), Vec::<String>::new());
    assert_eq!(parse_tags_value(" , ,"), Vec::<String>::new());
    assert_eq!(parse_tags_value("single"), list(&["single"]));
    assert_eq!(parse_tags_value("[1, 2]"), list(&["[1", "2]"]));
    assert_eq!(parse_tags_value("{\"a\": 1}"), list(&["{\"a\": 1}"]));
    assert_eq!(split_tags("é, ö ,ü"), list(&["é", "ö", "ü"]));
    assert_eq!(split_tags(",a"), list(&["a"]));
}

#[test]
fn tags_from_parsed_prefers_the_list() {
    assert_eq!(tags_from_parsed(Some(list(&["x"])), "a,b"), list(&["x"]));
    assert_eq!(tags_from_parsed(None, "a,b"), list(&["a", "b"]));
}

#[test]
fn tags_are_written_as_json_or_removed() {
    assert_eq!(TAG_KEY, "LCMP_TAGS");
    match encode_tags(&list(&["rock", "say \"hi\""])) {
        TagField::Write(text) => assert_eq!(text, "[\"rock\",\"say \\\"hi\\\"\"]"),
        other => panic!("expected a value, got {:?}", other),
    }
    assert!(matches!(encode_tags(&vec![]), TagField::Remove));
    match encode_tags(&list(&["a", "b"])) {
        TagField::Write(text) => assert_eq!(parse_tags_value(&text), list(&["a", "b"])),
        other => panic!("expected a value, got {:?}", other),
    }
    assert_eq!(json_list(&list(&["é", "line\nbreak", ""])), "[\"é\",\"line\\nbreak\",\"\"]");
    assert_eq!(json_list(&vec![]), "[]");
    assert!(matches!(field_from_encoded(0, "[]".to_string()), TagField::Remove));
    assert!(matches!(field_from_encoded(2, "x".to_string()), TagField::Write(t) if t == "x"));
}

#[test]
fn library_tags_win_over_file_tags() {
    assert_eq!(resolve_song_tags(list(&["db"]), list(&["file"])), (list(&["db"]), false));
    assert_eq!(resolve_song_tags(vec![], list(&["file"])), (list(&["file"]), true));
    assert_eq!(resolve_song_tags(vec![], vec![]), (vec![], false));
    assert_eq!(resolve_song_tags(list(&["db"]), vec![]), (list(&["db"]), false));
}

#[test]
fn mime_type_by_extension() {
    assert_eq!(guess_mime_type("cover.jpg"), Some("image/jpeg"));
    assert_eq!(guess_mime_type("/music/a.b/Cover.JPEG"), Some("image/jpeg"));
    assert_eq!(guess_mime_type("art.PNG"), Some("image/png"));
    assert_eq!(guess_mime_type("art.webp"), Some("image/webp"));
    assert_eq!(guess_mime_type("art.bmp"), Some("image/bmp"));
    assert_eq!(guess_mime_type("art.gif"), None);
    assert_eq!(guess_mime_type("png"), None);
    assert_eq!(guess_mime_type("dir.png/file"), None);
    assert_eq!(guess_mime_type(""), None);
    assert_eq!(mime_for_extension("Jpg"), Some("image/jpeg"));
    assert_eq!(mime_for_extension("tiff"), None);
}

#[test]
fn mime_type_reads_the_text_behind_the_last_dot() {
    assert_eq!(guess_mime_type("cover.png.jpg"), Some("image/jpeg"));
    assert_eq!(guess_mime_type("cover.jpg.txt"), None);
    assert_eq!(guess_mime_type("cover.png."), None);
    assert_eq!(guess_mime_type(".png"), None);
    assert_eq!(guess_mime_type("a/b.c/d.WebP"), Some("image/webp"));
}

#[test]
fn extension_by_mime_type() {
    assert_eq!(extension_from_mime("image/png"), "png");
    assert_eq!(extension_from_mime("image/webp"), "webp");
    assert_eq!(extension_from_mime("image/bmp"), "bmp");
    assert_eq!(extension_from_mime("image/jpeg"), "jpg");
    assert_eq!(extension_from_mime("image/jpg"), "jpg");
    assert_eq!(extension_from_mime("image/gif"), "jpg");
    assert_eq!(extension_from_mime("IMAGE/PNG"), "jpg");
    assert_eq!(extension_from_mime(""), "jpg");
}

#[test]
fn cached_cover_is_the_first_candidate_that_exists() {
    assert_eq!(
        album_art_candidates("00ab"),
        list(&["00ab.jpg", "00ab.jpeg", "00ab.png", "00ab.webp", "00ab.bmp"])
    );
    assert_eq!(pick_album_art_path("00ab", &vec![false, false, true, false, true]), Some(s("00ab.png")));
    assert_eq!(pick_album_art_path("00ab", &vec![true, true, true, true, true]), Some(s("00ab.jpg")));
    assert_eq!(pick_album_art_path("k", &vec![false, false, false, false, true]), Some(s("k.bmp")));
    assert_eq!(pick_album_art_path("k", &vec![false; 5]), None);
    assert_eq!(pick_album_art_path("k", &vec![]), None);
    assert_eq!(pick_album_art_path("k", &vec![false, true]), Some(s("k.jpeg")));
    assert_eq!(pick_album_art_path("k", &vec![false, false, false, false, false, true]), None);
}

#[test]
fn empty_prune_result() {
    let r = CachePruneResult::empty();
    assert_eq!(r, CachePruneResult { removed_files: 0, freed_bytes: 0, remaining_files: 0, remaining_bytes: 0 });
}

#[test]
fn id3_frames_map_to_fields() {
    assert_eq!(id3_field("TIT2"), Some(MetaField::Title));
    assert_eq!(id3_field("TT2"), Some(MetaField::Title));
    assert_eq!(id3_field("TPE1"), Some(MetaField::Artist));
    assert_eq!(id3_field("TP1"), Some(MetaField::Artist));
    assert_eq!(id3_field("TALB"), Some(MetaField::Album));
    assert_eq!(id3_field("TAL"), Some(MetaField::Album));
    assert_eq!(id3_field("TDRC"), Some(MetaField::Year));
    assert_eq!(id3_field("TYER"), Some(MetaField::Year));
    assert_eq!(id3_field("TCON"), Some(MetaField::Genre));
    assert_eq!(id3_field("TCO"), Some(MetaField::Genre));
    assert_eq!(id3_field("TXXX"), None);
    assert_eq!(id3_field("tit2"), None);
    assert_eq!(id3_field(""), None);
}

#[test]
fn year_is_read_from_the_start_of_a_date() {
    assert_eq!(parse_year("2019-05-01"), Some(2019));
    assert_eq!(parse_year("1987"), Some(1987));
    assert_eq!(parse_year("0007"), Some(7));
    assert_eq!(parse_year("+123"), Some(123));
    assert_eq!(parse_year("-123x"), Some(-123));
    assert_eq!(parse_year("-000"), Some(0));
    assert_eq!(parse_year("199"), None);
    assert_eq!(parse_year(""), None);
    assert_eq!(parse_year("abcd"), None);
    assert_eq!(parse_year("19a9"), None);
    assert_eq!(parse_year(" 199"), None);
    assert_eq!(parse_year("20é"), None);
    assert_eq!(parse_year("202é"), None);
    assert_eq!(parse_year("12-3"), None);
}

#[test]
fn year_agrees_with_the_standard_parser() {
    for text in ["2024", "0000", "9999", "+001", "-999", "1a34", "++12", "12+3", "    ", "-12-"] {
        assert_eq!(parse_year(text), text[..4].parse::<i32>().ok());
    }
}

#[test]
fn first_id3_frame_of_a_field_counts() {
    let mut meta = ExtractedMeta::new();
    meta.offer(MetaField::Title, "First");
    meta.offer(MetaField::Title, "Second");
    meta.offer(MetaField::Artist, "Band");
    meta.offer(MetaField::Album, "Record");
    meta.offer(MetaField::Genre, "Rock");
    meta.offer(MetaField::Year, "no year");
    meta.offer(MetaField::Year, "2001-02-03");
    meta.offer(MetaField::Year, "1999");
    assert_eq!(meta.title, Some(s("First")));
    assert_eq!(meta.artist, Some(s("Band")));
    assert_eq!(meta.album, Some(s("Record")));
    assert_eq!(meta.genre, Some(s("Rock")));
    assert_eq!(meta.year, Some(2001));
    assert_eq!(meta.duration, None);
    assert!(meta.tags.is_empty());
}

#[test]
fn merge_keeps_known_values_where_the_file_is_silent() {
    let mut song = SongFields {
        title: Some(s("Old title")),
        artist: Some(s("Old artist")),
        album: None,
        year: Some(1990),
        genre: None,
        duration: Some(5),
    };
    let mut fresh = ExtractedMeta::new();
    fresh.title = Some(s("New title"));
    fresh.album = Some(s("New album"));
    fresh.duration = Some(180_000_000_000);
    fresh.tags = list(&["a", "b"]);
    let tags = merge_file_metadata(&mut song, fresh);
    assert_eq!(tags, list(&["a", "b"]));
    assert_eq!(song.title, Some(s("New title")));
    assert_eq!(song.artist, Some(s("Old artist")));
    assert_eq!(song.album, Some(s("New album")));
    assert_eq!(song.year, Some(1990));
    assert_eq!(song.genre, None);
    assert_eq!(song.duration, Some(180_000_000_000));
}

#[test]
fn merge_field_prefers_the_fresh_value() {
    assert_eq!(merge_field(Some(1), Some(2)), Some(1));
    assert_eq!(merge_field(None, Some(2)), Some(2));
    assert_eq!(merge_field(Some(1), None), Some(1));
    assert_eq!(merge_field::<i32>(None, None), None);
    assert!(cached_metadata_current(5, 5));
    assert!(!cached_metadata_current(5, 6));
}

#[test]
fn metadata_request_is_normalized() {
    let payload = UpdateSongMetadataPayload {
        song_id: 7,
        title: Some(s("  Title ")),
        artist: Some(s("")),
        album: None,
        year: Some(2001),
        genre: Some(s(" Rock")),
        album_artist: Some(s("  ")),
        track_number: Some(3),
        disc_number: None,
        comment: Some(s("c ")),
        album_art_path: Some(s(" /tmp/cover.png ")),
        composer: Some(s(" A")),
        lyricist: Some(s("B ")),
        bpm: Some(120),
        key: Some(s(" Am ")),
        copyright: Some(s("\t")),
        encoder: Some(s(" e")),
        isrc: Some(s(" i")),
        publisher: Some(s(" p")),
        subtitle: Some(s(" s")),
        grouping: Some(s(" g")),
        tags: Some(list(&["x", " X", "y "])),
    };
    let n = payload.normalized();
    assert_eq!(n.song_id, 7);
    assert_eq!(n.title, Some(s("Title")));
    assert_eq!(n.artist, None);
    assert_eq!(n.album, None);
    assert_eq!(n.year, Some(2001));
    assert_eq!(n.genre, Some(s("Rock")));
    assert_eq!(n.album_artist, None);
    assert_eq!(n.track_number, Some(3));
    assert_eq!(n.disc_number, None);
    assert_eq!(n.comment, Some(s("c")));
    assert_eq!(n.album_art_path, Some(s("/tmp/cover.png")));
    assert_eq!(n.composer, Some(s("A")));
    assert_eq!(n.lyricist, Some(s("B")));
    assert_eq!(n.bpm, Some(120));
    assert_eq!(n.key, Some(s("Am")));
    assert_eq!(n.copyright, None);
    assert_eq!(n.encoder, Some(s("e")));
    assert_eq!(n.isrc, Some(s("i")));
    assert_eq!(n.publisher, Some(s("p")));
    assert_eq!(n.subtitle, Some(s("s")));
    assert_eq!(n.grouping, Some(s("g")));
    assert_eq!(n.tags, Some(list(&["x", "y"])));
}

#[test]
fn tags_request_is_normalized() {
    let n = UpdateSongTagsPayload { song_id: 3, tags: list(&[" a", "A", "", "b"]) }.normalized();
    assert_eq!(n.song_id, 3);
    assert_eq!(n.tags, list(&["a", "b"]));
}

#[test]
fn records_are_ordered_by_their_place_in_the_list() {
    assert_eq!(order_updates(&vec![30, 10, 20]), vec![(0, 30), (1, 10), (2, 20)]);
    assert_eq!(order_updates(&vec![]), vec![]);
}

#[test]
fn static_playlist_has_no_filter() {
    let d = playlist_definition(Some(s("desc")), None, Some(list(&["a"])), Some(s("AND")));
    assert_eq!(d.description, "desc");
    assert_eq!(d.is_dynamic, 0);
    assert_eq!(d.filter_tags, None);
    assert_eq!(d.filter_mode, "OR");
    let d = playlist_definition(None, Some(false), None, None);
    assert_eq!(d.description, "");
    assert_eq!(d.is_dynamic, 0);
    assert_eq!(d.filter_tags, None);
    assert_eq!(d.filter_mode, "OR");
}

#[test]
fn dynamic_playlist_stores_its_filter_as_json() {
    let d = playlist_definition(None, Some(true), Some(list(&["rock", "live"])), Some(s("AND")));
    assert_eq!(d.is_dynamic, 1);
    assert_eq!(d.filter_tags, Some(s("[\"rock\",\"live\"]")));
    assert_eq!(d.filter_mode, "AND");
    let d = playlist_definition(None, Some(true), None, None);
    assert_eq!(d.filter_tags, Some(s("[]")));
    assert_eq!(d.filter_mode, "OR");
}

#[test]
fn format_name_is_the_extension_in_upper_case() {
    assert_eq!(format_name("/music/song.flac"), "FLAC");
    assert_eq!(format_name("song.Mp3"), "MP3");
    assert_eq!(format_name("noextension"), "Unknown");
    assert_eq!(format_name_for(Some("ogg")), "OGG");
    assert_eq!(format_name_for(None), "Unknown");
}

#[test]
fn track_format_reports_rate_bitrate_and_channels() {
    let tracks = vec![
        TrackInfo { id: 0, has_codec: false, sample_rate: None, channels: None, n_frames: None, time_base: None },
        TrackInfo {
            id: 1,
            has_codec: true,
            sample_rate: Some(44100),
            channels: Some(2),
            n_frames: Some(441000),
            time_base: Some(TimeBase { numer: 1, denom: 44100 }),
        },
    ];
    assert_eq!(track_format(&tracks, Some(1_000_000)), Some((Some(44100), Some(800), Some(2))));
    assert_eq!(track_format(&tracks, None), Some((Some(44100), None, Some(2))));
    assert_eq!(track_format(&vec![], Some(5)), None);
    let bare = vec![TrackInfo { id: 0, has_codec: true, sample_rate: None, channels: Some(258), n_frames: Some(0), time_base: Some(TimeBase { numer: 1, denom: 44100 }) }];
    assert_eq!(track_format(&bare, Some(5)), Some((None, None, Some(2))));
}

#[test]
fn bare_names_have_the_extension_behind_their_last_dot() {
    assert_eq!(format_name("song.flac"), "FLAC");
    assert_eq!(format_name("a.tar.gz"), "GZ");
    assert_eq!(format_name("..a"), "A");
    assert_eq!(format_name("name."), "");
    assert_eq!(format_name("..."), "");
    assert_eq!(format_name(".hidden"), "Unknown");
    assert_eq!(format_name(".."), "Unknown");
    assert_eq!(format_name("."), "Unknown");
    assert_eq!(format_name(""), "Unknown");
    assert_eq!(format_name("nodot"), "Unknown");
    assert_eq!(format_name("dir/nodot"), "Unknown");
    assert_eq!(guess_mime_type("x.y.Png"), Some("image/png"));
    assert_eq!(guess_mime_type(".png"), None);
    assert_eq!(guess_mime_type(".."), None);
    assert_eq!(guess_mime_type("..png"), Some("image/png"));
}

#[test]
fn every_white_space_character_is_trimmed() {
    let spaces = [
        '\u{9}', '\u{a}', '\u{b}', '\u{c}', '\u{d}', ' ', '\u{85}', '\u{a0}', '\u{1680}', '\u{2000}',
        '\u{2001}', '\u{2002}', '\u{2003}', '\u{2004}', '\u{2005}', '\u{2006}', '\u{2007}', '\u{2008}',
        '\u{2009}', '\u{200a}', '\u{2028}', '\u{2029}', '\u{202f}', '\u{205f}', '\u{3000}',
    ];
    for c in spaces {
        assert_eq!(normalize_optional_string(Some(format!("{}x{}", c, c))), Some(s("x")));
        assert_eq!(normalize_optional_string(Some(format!("{}", c))), None);
    }
    for c in ['\u{8}', '\u{e}', '\u{1f}', '\u{200b}', '\u{feff}', '\u{180e}', '\u{2060}', '_'] {
        assert_eq!(normalize_optional_string(Some(format!("{}x{}", c, c))), Some(format!("{}x{}", c, c)));
    }
}

#[test]
fn white_space_is_what_the_character_type_says() {
    let mut count = 0;
    for n in 0..=0x10FFFFu32 {
        if let Some(c) = char::from_u32(n) {
            let kept = normalize_optional_string(Some(c.to_string())).is_some();
            assert_eq!(kept, !c.is_whitespace());
            if !kept {
                count += 1;
            }
        }
    }
    assert_eq!(count, 25);
}

#[test]
fn same_text_compares_characters() {
    assert!(same_text("", ""));
    assert!(same_text("flac", "flac"));
    assert!(!same_text("flac", "FLAC"));
    assert!(!same_text("flac", "flac "));
    assert!(same_text("é", "\u{e9}"));
}
