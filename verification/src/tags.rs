//! The tags of a song: how a list of tags is tidied, how it is read from
//! and written to the field of an audio file that carries it, and which of
//! two lists counts.

use vstd::prelude::*;
use vstd::string::StrSliceExecFns;
use crate::text::{law_trimming_twice_changes_nothing, lowercase, lowercase_of, trim, trimmed};

verus! {

/// Name of the field of an audio file that carries the tags.
pub const TAG_KEY: &'static str = "LCMP_TAGS";

/// The characters of each string of a list.
pub open spec fn texts(list: Seq<String>) -> Seq<Seq<char>> {
    Seq::new(list.len(), |i: int| list[i]@)
}

/// Whether a tag of `list` is, in lower case, `key`.
pub open spec fn has_key(list: Seq<Seq<char>>, key: Seq<char>) -> bool {
    exists|j: int| 0 <= j < list.len() && #[trigger] lowercase_of(list[j]) == key
}

/// A list of tags tidied: every tag trimmed, empty ones left out, and of
/// tags that are equal but for letter case only the first kept. The order
/// stays.
pub open spec fn normalized_tags(tags: Seq<Seq<char>>) -> Seq<Seq<char>>
    decreases tags.len(),
{
    if tags.len() == 0 {
        Seq::empty()
    } else {
        let head = normalized_tags(tags.drop_last());
        let tag = trimmed(tags.last());
        if tag.len() == 0 || has_key(head, lowercase_of(tag)) {
            head
        } else {
            head.push(tag)
        }
    }
}

/// Tidies a list of tags.
pub fn normalize_tags(tags: Vec<String>) -> (result: Vec<String>)
    ensures
        texts(result@) == normalized_tags(texts(tags@)),
{
    let mut result: Vec<String> = Vec::new();
    let mut keys: Vec<String> = Vec::new();
    let ghost all = texts(tags@);
    let mut i: usize = 0;
    assert(texts(result@) =~= normalized_tags(all.take(0)));
    while i < tags.len()
        invariant
            0 <= i <= tags@.len(),
            all == texts(tags@),
            keys@.len() == result@.len(),
            forall|j: int| 0 <= j < keys@.len() ==> (#[trigger] keys@[j])@ == lowercase_of(result@[j]@),
            texts(result@) == normalized_tags(all.take(i as int)),
        decreases tags@.len() - i,
    {
        let ghost before = texts(result@);
        let tag = trim(tags[i].as_str());
        proof {
            assert(all.take(i as int + 1).drop_last() =~= all.take(i as int));
            assert(all.take(i as int + 1).last() == tags@[i as int]@);
        }
        if !tag.is_empty() {
            let key = lowercase(tag);
            let mut known = false;
            let mut j: usize = 0;
            while j < keys.len()
                invariant
                    0 <= j <= keys@.len(),
                    keys@.len() == result@.len(),
                    before == texts(result@),
                    forall|k: int|
                        0 <= k < keys@.len() ==> (#[trigger] keys@[k])@ == lowercase_of(result@[k]@),
                    known == (exists|k: int| 0 <= k < j && #[trigger] lowercase_of(before[k]) == key@),
                decreases keys@.len() - j,
            {
                if keys[j] == key {
                    assert(lowercase_of(before[j as int]) == key@);
                    known = true;
                }
                j += 1;
            }
            assert(known == has_key(before, key@));
            if !known {
                result.push(tag.to_owned());
                keys.push(key);
                assert(texts(result@) =~= before.push(tag@));
            }
        }
        i += 1;
    }
    assert(all.take(i as int) =~= all);
    result
}

/// Number of characters of `text` before the first `sep`, or all of them.
pub open spec fn first_piece_len(text: Seq<char>, sep: char) -> nat
    decreases text.len(),
{
    if text.len() == 0 || text[0] == sep {
        0
    } else {
        1 + first_piece_len(text.drop_first(), sep)
    }
}

/// The pieces that `sep` cuts `text` into. A text without `sep` is one
/// piece; the empty text is one empty piece.
pub open spec fn pieces(text: Seq<char>, sep: char) -> Seq<Seq<char>>
    decreases text.len(),
{
    let n = first_piece_len(text, sep);
    if n >= text.len() {
        seq![text]
    } else {
        seq![text.take(n as int)] + pieces(text.skip(n as int + 1), sep)
    }
}

/// The pieces of a list trimmed, the empty ones left out.
pub open spec fn tidy_all(list: Seq<Seq<char>>) -> Seq<Seq<char>>
    decreases list.len(),
{
    if list.len() == 0 {
        Seq::empty()
    } else {
        let head = tidy_all(list.drop_last());
        let piece = trimmed(list.last());
        if piece.len() == 0 {
            head
        } else {
            head.push(piece)
        }
    }
}

/// The tags of a text that lists them with commas between.
pub open spec fn comma_separated(value: Seq<char>) -> Seq<Seq<char>> {
    tidy_all(pieces(value, ','))
}

proof fn lemma_first_piece(text: Seq<char>, sep: char, n: nat)
    requires
        n <= text.len(),
        forall|k: int| 0 <= k < n ==> text[k] != sep,
        n < text.len() ==> text[n as int] == sep,
    ensures
        first_piece_len(text, sep) == n,
    decreases n,
{
    if n > 0 {
        let rest = text.drop_first();
        assert(forall|k: int| 0 <= k < n - 1 ==> rest[k] == text[k + 1]);
        lemma_first_piece(rest, sep, (n - 1) as nat);
    }
}

/// Reads the tags of a text that lists them with commas between: the
/// pieces between the commas, trimmed, the empty ones left out.
pub fn split_tags(value: &str) -> (result: Vec<String>)
    ensures
        texts(result@) == comma_separated(value@),
{
    let len = value.unicode_len();
    let mut result: Vec<String> = Vec::new();
    let ghost mut done: Seq<Seq<char>> = Seq::empty();
    let mut start: usize = 0;
    let mut i: usize = 0;
    assert(value@.skip(0) =~= value@);
    assert(done + pieces(value@, ',') =~= pieces(value@, ','));
    assert(texts(result@) =~= tidy_all(done));
    while i < len
        invariant
            0 <= start <= i <= len,
            len == value@.len(),
            pieces(value@, ',') == done + pieces(value@.skip(start as int), ','),
            texts(result@) == tidy_all(done),
            forall|k: int| start <= k < i ==> value@[k] != ',',
        decreases len - i,
    {
        let c = value.get_char(i);
        if c == ',' {
            let ghost rest = value@.skip(start as int);
            let ghost n = (i - start) as nat;
            proof {
                assert(forall|k: int| 0 <= k < n ==> rest[k] == value@[start + k]);
                assert(rest[n as int] == value@[i as int]);
                lemma_first_piece(rest, ',', n);
                assert(rest.take(n as int) =~= value@.subrange(start as int, i as int));
                assert(rest.skip(n as int + 1) =~= value@.skip(i as int + 1));
                assert(pieces(rest, ',') == seq![rest.take(n as int)] + pieces(
                    rest.skip(n as int + 1),
                    ',',
                ));
            }
            let piece = trim(value.substring_char(start, i));
            proof {
                let grown = done.push(rest.take(n as int));
                assert(grown.drop_last() =~= done);
                assert(grown + pieces(rest.skip(n as int + 1), ',') =~= done + (seq![rest.take(n as int)]
                    + pieces(rest.skip(n as int + 1), ',')));
                done = grown;
            }
            if !piece.is_empty() {
                let ghost before = texts(result@);
                result.push(piece.to_owned());
                assert(texts(result@) =~= before.push(piece@));
            }
            start = i + 1;
        }
        i += 1;
    }
    let ghost rest = value@.skip(start as int);
    proof {
        assert(forall|k: int| 0 <= k < rest.len() ==> rest[k] == value@[start + k]);
        lemma_first_piece(rest, ',', rest.len());
        assert(pieces(rest, ',') == seq![rest]);
        assert(rest =~= value@.subrange(start as int, len as int));
        let grown = done.push(rest);
        assert(grown.drop_last() =~= done);
        assert(grown =~= done + seq![rest]);
    }
    let piece = trim(value.substring_char(start, len));
    if !piece.is_empty() {
        let ghost before = texts(result@);
        result.push(piece.to_owned());
        assert(texts(result@) =~= before.push(piece@));
    }
    result
}

/// The list of strings that a JSON text encodes, as `serde_json::from_str`
/// reads it; `None` where the text is not a JSON array of strings.
pub uninterp spec fn json_string_list(text: Seq<char>) -> Option<Seq<Seq<char>>>;

/// The JSON text of a list of strings, as `serde_json::to_string` writes it.
pub uninterp spec fn json_of_string_list(list: Seq<Seq<char>>) -> Seq<char>;

#[verifier::external_type_specification]
#[verifier::external_body]
pub struct ExJsonError(serde_json::Error);

/// Calls `serde_json::from_str` for a list of strings. Believed: whether
/// it succeeds, and the list it gives, depend on the text alone.
#[verifier::external_body]
fn read_json_list(text: &str) -> (r: Result<Vec<String>, serde_json::Error>)
    ensures
        match r {
            Ok(list) => json_string_list(text@) == Some(texts(list@)),
            Err(_) => json_string_list(text@) is None,
        },
{
    serde_json::from_str::<Vec<String>>(text)
}

/// Calls `serde_json::to_string` on a list of strings. Believed: it
/// succeeds, since strings are always written and the text is gathered in
/// memory, and the text it gives depends on the list alone.
#[verifier::external_body]
pub(crate) fn write_json_list(list: &Vec<String>) -> (r: Result<String, serde_json::Error>)
    ensures
        r is Ok,
        r->Ok_0@ == json_of_string_list(texts(list@)),
{
    serde_json::to_string(list)
}

/// The JSON array of a list of strings.
pub fn json_list(list: &Vec<String>) -> (text: String)
    ensures
        text@ == json_of_string_list(texts(list@)),
{
    match write_json_list(list) {
        Ok(text) => text,
        Err(_) => vstd::pervasive::unreached(),
    }
}

/// The tags that the value of the tag field stands for, given what reading
/// it as JSON gave: that list where it is one, else the value read as a
/// list with commas.
pub open spec fn tags_of_value(parsed: Option<Seq<Seq<char>>>, value: Seq<char>) -> Seq<
    Seq<char>,
> {
    match parsed {
        Some(list) => list,
        None => comma_separated(value),
    }
}

/// Picks the tags of a field's value once the value was read as JSON.
pub fn tags_from_parsed(parsed: Option<Vec<String>>, value: &str) -> (result: Vec<String>)
    ensures
        texts(result@) == tags_of_value(
            match parsed {
                Some(list) => Some(texts(list@)),
                None => None,
            },
            value@,
        ),
{
    match parsed {
        Some(list) => list,
        None => split_tags(value),
    }
}

/// Reads the tags from the value of the tag field: a JSON array of strings
/// as it stands, anything else as a list with commas between.
pub fn parse_tags_value(value: &str) -> (result: Vec<String>)
    ensures
        texts(result@) == tags_of_value(json_string_list(value@), value@),
{
    match read_json_list(value) {
        Ok(list) => tags_from_parsed(Some(list), value),
        Err(_) => tags_from_parsed(None, value),
    }
}

/// What to do with the tag field of a file.
#[derive(Debug)]
pub enum TagField {
    /// Remove the field.
    Remove,
    /// Set the field to this text.
    Write(String),
}

/// The tag field for a list of `tags_len` tags, given the JSON text of
/// the list: removed for no tags, else set to the text.
pub fn field_from_encoded(tags_len: usize, encoded: String) -> (r: TagField)
    ensures
        match r {
            TagField::Remove => tags_len == 0,
            TagField::Write(text) => tags_len > 0 && text@ == encoded@,
        },
{
    if tags_len == 0 {
        TagField::Remove
    } else {
        TagField::Write(encoded)
    }
}

/// The tag field that stands for `tags`: removed for no tags, else their
/// JSON array.
pub fn encode_tags(tags: &Vec<String>) -> (r: TagField)
    ensures
        match r {
            TagField::Remove => tags@.len() == 0,
            TagField::Write(text) => tags@.len() > 0 && text@ == json_of_string_list(texts(tags@)),
        },
{
    field_from_encoded(tags.len(), json_list(tags))
}

/// Which tags a song shows, given those of the library and those of its
/// file: the library's where it has any, else the file's. The flag says
/// whether the file's tags are to be written to the library, which is when
/// they are shown.
pub fn resolve_song_tags(db_tags: Vec<String>, file_tags: Vec<String>) -> (r: (Vec<String>, bool))
    ensures
        db_tags@.len() > 0 ==> r.0 == db_tags && !r.1,
        db_tags@.len() == 0 ==> r.0 == file_tags && r.1 == (file_tags@.len() > 0),
{
    if db_tags.len() > 0 {
        (db_tags, false)
    } else {
        let write_back = file_tags.len() > 0;
        (file_tags, write_back)
    }
}

/// Tidying leaves no empty tag and no white space around a tag.
pub proof fn law_normalized_tags_are_trimmed(tags: Seq<Seq<char>>, i: int)
    requires
        0 <= i < normalized_tags(tags).len(),
    ensures
        normalized_tags(tags)[i].len() > 0,
        exists|k: int| 0 <= k < tags.len() && normalized_tags(tags)[i] == trimmed(#[trigger] tags[k]),
    decreases tags.len(),
{
    let head = normalized_tags(tags.drop_last());
    let tag = trimmed(tags.last());
    if i < head.len() {
        law_normalized_tags_are_trimmed(tags.drop_last(), i);
        let k = choose|k: int|
            0 <= k < tags.drop_last().len() && head[i] == trimmed(#[trigger] tags.drop_last()[k]);
        assert(tags[k] == tags.drop_last()[k]);
    } else {
        assert(normalized_tags(tags)[i] == trimmed(tags[tags.len() - 1]));
    }
}

/// Tidying leaves no two tags that are equal but for letter case.
pub proof fn law_normalized_tags_are_distinct(tags: Seq<Seq<char>>, i: int, j: int)
    requires
        0 <= i < j < normalized_tags(tags).len(),
    ensures
        lowercase_of(normalized_tags(tags)[i]) != lowercase_of(normalized_tags(tags)[j]),
    decreases tags.len(),
{
    let head = normalized_tags(tags.drop_last());
    if j < head.len() {
        law_normalized_tags_are_distinct(tags.drop_last(), i, j);
    } else {
        let tag = trimmed(tags.last());
        assert(!has_key(head, lowercase_of(tag)));
        assert(normalized_tags(tags)[i] == head[i]);
    }
}

/// Whether a list of tags is tidy: no tag is empty or has white space
/// around it, and no two are equal but for letter case.
pub open spec fn tidy(tags: Seq<Seq<char>>) -> bool {
    &&& forall|i: int| 0 <= i < tags.len() ==> (#[trigger] tags[i]).len() > 0 && trimmed(tags[i]) == tags[i]
    &&& forall|i: int, j: int|
        0 <= i < j < tags.len() ==> lowercase_of(#[trigger] tags[i]) != lowercase_of(#[trigger] tags[j])
}

/// Tidying leaves a tidy list as it is.
pub proof fn lemma_tidy_list_stays(tags: Seq<Seq<char>>)
    requires
        tidy(tags),
    ensures
        normalized_tags(tags) == tags,
    decreases tags.len(),
{
    if tags.len() > 0 {
        let front = tags.drop_last();
        assert(tidy(front)) by {
            assert(forall|i: int| 0 <= i < front.len() ==> front[i] == tags[i]);
        }
        lemma_tidy_list_stays(front);
        let tag = trimmed(tags.last());
        assert(tag == tags[tags.len() - 1]);
        assert(!has_key(front, lowercase_of(tag))) by {
            if has_key(front, lowercase_of(tag)) {
                let j = choose|j: int| 0 <= j < front.len() && #[trigger] lowercase_of(front[j]) == lowercase_of(tag);
                assert(front[j] == tags[j]);
                assert(lowercase_of(tags[j]) != lowercase_of(tags[tags.len() - 1]));
            }
        }
        assert(front.push(tag) =~= tags);
    } else {
        assert(tags =~= Seq::<Seq<char>>::empty());
    }
}

/// What tidying gives is tidy, and tidying it again changes nothing more.
pub proof fn law_normalizing_twice_changes_nothing(tags: Seq<Seq<char>>)
    ensures
        tidy(normalized_tags(tags)),
        normalized_tags(normalized_tags(tags)) == normalized_tags(tags),
{
    let once = normalized_tags(tags);
    assert forall|i: int| 0 <= i < once.len() implies (#[trigger] once[i]).len() > 0 && trimmed(
        once[i],
    ) == once[i] by {
        law_normalized_tags_are_trimmed(tags, i);
        let k = choose|k: int| 0 <= k < tags.len() && once[i] == trimmed(#[trigger] tags[k]);
        law_trimming_twice_changes_nothing(tags[k]);
    }
    assert forall|i: int, j: int| 0 <= i < j < once.len() implies lowercase_of(
        #[trigger] once[i],
    ) != lowercase_of(#[trigger] once[j]) by {
        law_normalized_tags_are_distinct(tags, i, j);
    }
    lemma_tidy_list_stays(once);
}

} // verus!
