//! Album art: image types, and the names under which covers are cached.

use vstd::prelude::*;
use vstd::string::StringExecFns;
use crate::text::{
    bare_extension, bare_name, chars_of, follows_a_dot, lowercase, lowercase_of, path_extension,
    same_text,
};

verus! {

/// What pruning the cache of covers did.
#[derive(Clone, Copy, Debug, PartialEq, Eq, Structural)]
pub struct CachePruneResult {
    pub removed_files: usize,
    pub freed_bytes: u64,
    pub remaining_files: usize,
    pub remaining_bytes: u64,
}

impl CachePruneResult {
    /// The result where there is no cache: nothing removed, nothing left.
    pub fn empty() -> (r: Self)
        ensures
            r == (CachePruneResult {
                removed_files: 0,
                freed_bytes: 0,
                remaining_files: 0,
                remaining_bytes: 0,
            }),
    {
        CachePruneResult { removed_files: 0, freed_bytes: 0, remaining_files: 0, remaining_bytes: 0 }
    }
}

/// The image type of a file extension in lower case, for the types that
/// can be embedded as a cover.
pub open spec fn mime_of(extension: Seq<char>) -> Option<Seq<char>> {
    if extension == "jpg"@ || extension == "jpeg"@ {
        Some("image/jpeg"@)
    } else if extension == "png"@ {
        Some("image/png"@)
    } else if extension == "webp"@ {
        Some("image/webp"@)
    } else if extension == "bmp"@ {
        Some("image/bmp"@)
    } else {
        None
    }
}

/// The characters of an optional string slice.
pub open spec fn slice_chars(value: Option<&'static str>) -> Option<Seq<char>> {
    match value {
        Some(text) => Some(text@),
        None => None,
    }
}

/// The image type of a file extension, whatever its letter case; `None`
/// for an extension that is no image type served.
pub fn mime_for_extension(extension: &str) -> (r: Option<&'static str>)
    ensures
        slice_chars(r) == mime_of(lowercase_of(extension@)),
{
    let lower = lowercase(extension);
    let ext = lower.as_str();
    if same_text(ext, "jpg") || same_text(ext, "jpeg") {
        Some("image/jpeg")
    } else if same_text(ext, "png") {
        Some("image/png")
    } else if same_text(ext, "webp") {
        Some("image/webp")
    } else if same_text(ext, "bmp") {
        Some("image/bmp")
    } else {
        None
    }
}

/// The image type of an optional extension; none without extension.
pub open spec fn mime_of_optional(extension: Option<Seq<char>>) -> Option<Seq<char>> {
    match extension {
        Some(e) => mime_of(lowercase_of(e)),
        None => None,
    }
}

/// The image type of the file at `path`, by the extension that the path
/// has, read without regard to letter case: none for a path without a dot;
/// for a bare file name, the type of the text behind its last dot; and for
/// any path the type of an extension that stands in it behind a dot, or
/// none. Where the last component of a path with separators begins is the
/// platform's to say.
pub fn guess_mime_type(path: &str) -> (r: Option<&'static str>)
    ensures
        !path@.contains('.') ==> r is None,
        bare_name(path@) ==> slice_chars(r) == mime_of_optional(bare_extension(path@)),
        exists|extension: Option<Seq<char>>|
            (extension is Some ==> follows_a_dot(path@, extension->0)) && slice_chars(r)
                == mime_of_optional(extension),
{
    let extension = path_extension(path);
    let r = match &extension {
        Some(e) => mime_for_extension(e.as_str()),
        None => None,
    };
    assert((chars_of(extension) is Some ==> follows_a_dot(path@, chars_of(extension)->0))
        && slice_chars(r) == mime_of_optional(chars_of(extension)));
    r
}

/// The file extension under which a cover of image type `mime` is cached;
/// `jpg` for a type that is not known.
pub open spec fn extension_of_mime(mime: Seq<char>) -> Seq<char> {
    if mime == "image/png"@ {
        "png"@
    } else if mime == "image/webp"@ {
        "webp"@
    } else if mime == "image/bmp"@ {
        "bmp"@
    } else {
        "jpg"@
    }
}

/// Executable form of [`extension_of_mime`].
pub fn extension_from_mime(mime: &str) -> (r: &'static str)
    ensures
        r@ == extension_of_mime(mime@),
{
    if same_text(mime, "image/png") {
        "png"
    } else if same_text(mime, "image/webp") {
        "webp"
    } else if same_text(mime, "image/bmp") {
        "bmp"
    } else {
        "jpg"
    }
}

/// Number of extensions under which a cover may be cached.
pub const ART_EXTENSIONS: usize = 5;

/// The extensions under which a cover may be cached, in the order in which
/// they are looked for.
pub open spec fn art_extension(index: int) -> Seq<char> {
    if index == 0 {
        "jpg"@
    } else if index == 1 {
        "jpeg"@
    } else if index == 2 {
        "png"@
    } else if index == 3 {
        "webp"@
    } else {
        "bmp"@
    }
}

/// The file name of the cover cached under `cache_key` with the
/// extension at `index`.
pub open spec fn art_name(cache_key: Seq<char>, index: int) -> Seq<char> {
    cache_key + "."@ + art_extension(index)
}

fn extension_at(index: usize) -> (r: &'static str)
    requires
        index < ART_EXTENSIONS,
    ensures
        r@ == art_extension(index as int),
{
    if index == 0 {
        "jpg"
    } else if index == 1 {
        "jpeg"
    } else if index == 2 {
        "png"
    } else if index == 3 {
        "webp"
    } else {
        "bmp"
    }
}

fn name_at(cache_key: &str, index: usize) -> (r: String)
    requires
        index < ART_EXTENSIONS,
    ensures
        r@ == art_name(cache_key@, index as int),
{
    let mut name = cache_key.to_owned();
    name.append(".");
    name.append(extension_at(index));
    name
}

/// The file names under which the cover of `cache_key` may be cached, in
/// the order in which they are looked for.
pub fn album_art_candidates(cache_key: &str) -> (names: Vec<String>)
    ensures
        names@.len() == ART_EXTENSIONS,
        forall|i: int| 0 <= i < ART_EXTENSIONS ==> (#[trigger] names@[i])@ == art_name(cache_key@, i),
{
    let mut names: Vec<String> = Vec::new();
    let mut i: usize = 0;
    while i < ART_EXTENSIONS
        invariant
            0 <= i <= ART_EXTENSIONS,
            names@.len() == i,
            forall|k: int| 0 <= k < i ==> (#[trigger] names@[k])@ == art_name(cache_key@, k),
        decreases ART_EXTENSIONS - i,
    {
        names.push(name_at(cache_key, i));
        i += 1;
    }
    names
}

/// Whether candidate `index` is reported to exist.
pub open spec fn present(exists: Seq<bool>, index: int) -> bool {
    0 <= index < ART_EXTENSIONS && index < exists.len() && exists[index]
}

/// The cached cover of `cache_key`, given for each candidate of
/// [`album_art_candidates`] whether its file exists: the first candidate
/// that does, and `None` where none does.
pub fn pick_album_art_path(cache_key: &str, exists: &Vec<bool>) -> (r: Option<String>)
    ensures
        match r {
            Some(name) => exists|i: int|
                {
                    &&& present(exists@, i)
                    &&& name@ == art_name(cache_key@, i)
                    &&& forall|k: int| 0 <= k < i ==> !present(exists@, k)
                },
            None => forall|k: int| 0 <= k < ART_EXTENSIONS ==> !present(exists@, k),
        },
{
    let mut i: usize = 0;
    while i < ART_EXTENSIONS
        invariant
            0 <= i <= ART_EXTENSIONS,
            forall|k: int| 0 <= k < i ==> !present(exists@, k),
        decreases ART_EXTENSIONS - i,
    {
        if i < exists.len() && exists[i] {
            let name = name_at(cache_key, i);
            assert(present(exists@, i as int));
            return Some(name);
        }
        i += 1;
    }
    None
}

} // verus!
