//! Paths, held as strings and read by `std::path` and `str`.
//!
//! Each function here hands one question to the standard library and names
//! the answer. The answer depends on the path alone, as the standard library
//! reads paths on the platform that the library is built for.

use vstd::prelude::*;

verus! {

/// What `Path::extension` gives for a path.
pub uninterp spec fn extension_of(path: Seq<char>) -> Option<Seq<char>>;

/// What `Path::file_name` gives for a path.
pub uninterp spec fn final_component_of(path: Seq<char>) -> Option<Seq<char>>;

/// What `Path::parent` gives for a path.
pub uninterp spec fn parent_of(path: Seq<char>) -> Option<Seq<char>>;

/// What `Path::join` gives for a path and what is joined to it.
pub uninterp spec fn joined(base: Seq<char>, part: Seq<char>) -> Seq<char>;

/// What `Path::with_extension` gives for a path and an extension.
pub uninterp spec fn with_extension_of(path: Seq<char>, extension: Seq<char>) -> Seq<char>;

/// What `str::trim` gives for a text.
pub uninterp spec fn trimmed(text: Seq<char>) -> Seq<char>;

/// The extension of a path (`Path::extension`).
#[verifier::external_body]
pub(crate) fn path_extension(path: &str) -> (r: Option<String>)
    ensures
        r is Some <==> extension_of(path@) is Some,
        r matches Some(extension) ==> extension_of(path@) == Some(extension@),
{
    std::path::Path::new(path).extension().map(|part| part.to_string_lossy().into_owned())
}

/// The last component of a path (`Path::file_name`).
#[verifier::external_body]
pub(crate) fn path_file_name(path: &str) -> (r: Option<String>)
    ensures
        r is Some <==> final_component_of(path@) is Some,
        r matches Some(name) ==> final_component_of(path@) == Some(name@),
{
    std::path::Path::new(path).file_name().map(|part| part.to_string_lossy().into_owned())
}

/// The path without its last component (`Path::parent`).
#[verifier::external_body]
pub(crate) fn path_parent(path: &str) -> (r: Option<String>)
    ensures
        r is Some <==> parent_of(path@) is Some,
        r matches Some(parent) ==> parent_of(path@) == Some(parent@),
{
    std::path::Path::new(path).parent().map(|part| part.to_string_lossy().into_owned())
}

/// A path with one more part (`Path::join`).
#[verifier::external_body]
pub(crate) fn path_join(base: &str, part: &str) -> (r: String)
    ensures
        r@ == joined(base@, part@),
{
    std::path::Path::new(base).join(part).to_string_lossy().into_owned()
}

/// A text that holds no path separator of any platform: neither a slash nor
/// a backslash.
pub open spec fn holds_no_separator(text: Seq<char>) -> bool {
    forall|i: int| 0 <= i < text.len() ==> text[i] != '/' && text[i] != '\\'
}

/// A path with another extension (`Path::with_extension`). The standard
/// library panics on an extension that holds a path separator, so such an
/// extension is not taken.
#[verifier::external_body]
pub(crate) fn path_with_extension(path: &str, extension: &str) -> (r: String)
    requires
        holds_no_separator(extension@),
    ensures
        r@ == with_extension_of(path@, extension@),
{
    std::path::Path::new(path).with_extension(extension).to_string_lossy().into_owned()
}

/// A text without the white space at its ends (`str::trim`).
#[verifier::external_body]
pub(crate) fn trim(text: &str) -> (r: &str)
    ensures
        r@ == trimmed(text@),
{
    text.trim()
}

} // verus!
