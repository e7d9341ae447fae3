//! Text as the standard library sees it: trimming, letter case, comparison
//! and the extension of a path.
//!
//! The functions of the standard library that are called here are believed,
//! not proved. Each says above its header what is believed of it.

use std::path::Path;
use vstd::prelude::*;

verus! {

/// Whether `c` has the Unicode property `White_Space`, the white space
/// that `str::trim` removes: the controls from tab to carriage return, the
/// space, next line, no-break space, the Ogham space mark, the spaces from
/// en quad to hair space, the line and paragraph separators, the narrow
/// no-break space, the medium mathematical space and the ideographic space.
pub open spec fn white_space(c: char) -> bool {
    let n = c as u32;
    ||| 0x09 <= n <= 0x0D
    ||| n == 0x20
    ||| n == 0x85
    ||| n == 0xA0
    ||| n == 0x1680
    ||| 0x2000 <= n <= 0x200A
    ||| n == 0x2028
    ||| n == 0x2029
    ||| n == 0x202F
    ||| n == 0x205F
    ||| n == 0x3000
}

/// `text` as `str::to_lowercase` returns it.
pub uninterp spec fn lowercase_of(text: Seq<char>) -> Seq<char>;

/// `text` as `str::to_uppercase` returns it.
pub uninterp spec fn uppercase_of(text: Seq<char>) -> Seq<char>;

/// `text` without the white space at its start.
pub open spec fn without_leading_space(text: Seq<char>) -> Seq<char>
    decreases text.len(),
{
    if text.len() > 0 && white_space(text[0]) {
        without_leading_space(text.drop_first())
    } else {
        text
    }
}

/// `text` without the white space at its end.
pub open spec fn without_trailing_space(text: Seq<char>) -> Seq<char>
    decreases text.len(),
{
    if text.len() > 0 && white_space(text.last()) {
        without_trailing_space(text.drop_last())
    } else {
        text
    }
}

/// `text` without the white space at either end.
pub open spec fn trimmed(text: Seq<char>) -> Seq<char> {
    without_trailing_space(without_leading_space(text))
}

/// Calls `str::trim`. Believed: the result is the text without the
/// characters at its start and at its end that have the Unicode property
/// `White_Space`.
#[verifier::external_body]
pub(crate) fn trim(text: &str) -> (r: &str)
    ensures
        r@ == trimmed(text@),
{
    text.trim()
}

/// Calls `str::to_lowercase`. Believed: the result depends on the text alone.
#[verifier::external_body]
pub(crate) fn lowercase(text: &str) -> (r: String)
    ensures
        r@ == lowercase_of(text@),
{
    text.to_lowercase()
}

/// Calls `str::to_uppercase`. Believed: the result depends on the text alone.
#[verifier::external_body]
pub(crate) fn uppercase(text: &str) -> (r: String)
    ensures
        r@ == uppercase_of(text@),
{
    text.to_uppercase()
}

/// Whether two string slices hold the same characters.
pub fn same_text(a: &str, b: &str) -> (r: bool)
    ensures
        r == (a@ == b@),
{
    a.to_owned() == b.to_owned()
}

/// Whether `extension` stands in `path` directly behind a dot and holds no
/// dot itself.
pub open spec fn follows_a_dot(path: Seq<char>, extension: Seq<char>) -> bool {
    &&& !extension.contains('.')
    &&& exists|i: int|
        0 <= i && i + 1 + extension.len() <= path.len() && #[trigger] path[i] == '.'
            && path.subrange(i + 1, i + 1 + extension.len()) == extension
}

/// Index of the last dot of `text`, or -1 where it has none.
pub open spec fn last_dot(text: Seq<char>) -> int
    decreases text.len(),
{
    if text.len() == 0 {
        -1
    } else if text.last() == '.' {
        text.len() - 1
    } else {
        last_dot(text.drop_last())
    }
}

/// Whether `path` is a bare name: it holds none of the characters that
/// separate the components of a path or end a prefix on some platform.
pub open spec fn bare_name(path: Seq<char>) -> bool {
    !path.contains('/') && !path.contains('\\') && !path.contains(':')
}

/// The extension of a bare name: the text behind its last dot. There is
/// none for a name without a dot, for a name whose only dot is its first
/// character, and for the name `..`.
pub open spec fn bare_extension(name: Seq<char>) -> Option<Seq<char>> {
    if last_dot(name) <= 0 || (name.len() == 2 && name[0] == '.' && name[1] == '.') {
        None
    } else {
        Some(name.skip(last_dot(name) + 1))
    }
}

/// Calls `Path::extension` on `path`. Believed: an extension is the part
/// of the path's last component behind the last dot of that component, so it
/// stands in the path directly behind a dot and holds no dot, and a path
/// without a dot has none. A bare name is its own last component on every
/// platform, so its extension is the text behind its last dot, with the
/// exceptions that the documentation names. Of a path with separators
/// nothing more is believed: where its last component begins depends on
/// the platform.
#[verifier::external_body]
pub(crate) fn path_extension(path: &str) -> (r: Option<String>)
    ensures
        r is Some ==> follows_a_dot(path@, r->0@),
        !path@.contains('.') ==> r is None,
        bare_name(path@) ==> chars_of(r) == bare_extension(path@),
{
    match Path::new(path).extension() {
        Some(ext) => match ext.to_str() {
            Some(s) => Some(s.to_owned()),
            None => None,
        },
        None => None,
    }
}

/// What is left after the white space at the start is gone does not start
/// with white space.
pub proof fn lemma_leading_space_is_gone(text: Seq<char>)
    ensures
        without_leading_space(text).len() == 0 || !white_space(without_leading_space(text)[0]),
    decreases text.len(),
{
    if text.len() > 0 && white_space(text[0]) {
        lemma_leading_space_is_gone(text.drop_first());
    }
}

/// What is left after the white space at the end is gone is the start of
/// the text and does not end with white space.
pub proof fn lemma_trailing_space_is_gone(text: Seq<char>)
    ensures
        without_trailing_space(text).len() <= text.len(),
        without_trailing_space(text) == text.take(without_trailing_space(text).len() as int),
        without_trailing_space(text).len() == 0 || !white_space(
            without_trailing_space(text).last(),
        ),
    decreases text.len(),
{
    if text.len() > 0 && white_space(text.last()) {
        let shorter = text.drop_last();
        lemma_trailing_space_is_gone(shorter);
        let r = without_trailing_space(shorter);
        assert(shorter.take(r.len() as int) =~= text.take(r.len() as int));
    } else {
        assert(text.take(text.len() as int) =~= text);
    }
}

/// A trimmed text has no white space at either end, and trimming it again
/// changes nothing.
pub proof fn law_trimming_twice_changes_nothing(text: Seq<char>)
    ensures
        trimmed(trimmed(text)) == trimmed(text),
        trimmed(text).len() > 0 ==> !white_space(trimmed(text)[0]) && !white_space(
            trimmed(text).last(),
        ),
{
    let a = without_leading_space(text);
    let b = without_trailing_space(a);
    lemma_leading_space_is_gone(text);
    lemma_trailing_space_is_gone(a);
    if b.len() > 0 {
        assert(b[0] == a[0]);
    }
    assert(without_leading_space(b) == b);
    assert(without_trailing_space(b) == b);
}

/// The text of an optional value once it is tidied: trimmed, and absent
/// where nothing is left.
pub open spec fn tidied(value: Option<Seq<char>>) -> Option<Seq<char>> {
    match value {
        Some(text) => if trimmed(text).len() == 0 {
            None
        } else {
            Some(trimmed(text))
        },
        None => None,
    }
}

/// The characters of an optional string.
pub open spec fn chars_of(value: Option<String>) -> Option<Seq<char>> {
    match value {
        Some(text) => Some(text@),
        None => None,
    }
}

/// Keeps a trimmed text that is not empty.
pub fn non_empty(text: &str) -> (r: Option<String>)
    ensures
        chars_of(r) == (if text@.len() == 0 {
            None
        } else {
            Some(text@)
        }),
{
    if text.is_empty() {
        None
    } else {
        Some(text.to_owned())
    }
}

/// Tidies an optional text field: the value is trimmed, and a value that
/// is empty or all white space becomes absent.
pub fn normalize_optional_string(value: Option<String>) -> (r: Option<String>)
    ensures
        chars_of(r) == tidied(chars_of(value)),
{
    match value {
        Some(text) => non_empty(trim(text.as_str())),
        None => None,
    }
}

} // verus!
