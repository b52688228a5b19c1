//! The standard library's path algebra, on paths held as text.
//!
//! Each function here hands one call to `std::path`. What the call returns
//! is not restated: it is given a name, and the contracts of this crate
//! speak of the result through that name.

use std::path::Path;
use std::path::PathBuf;
use vstd::prelude::*;

verus! {

/// What `Path::parent` gives for the path spelled `path`.
pub uninterp spec fn parent_of(path: Seq<char>) -> Option<Seq<char>>;

/// What `Path::file_name` gives for the path spelled `path`.
pub uninterp spec fn file_name_of(path: Seq<char>) -> Option<Seq<char>>;

/// What `Path::extension` gives for the path spelled `path`.
pub uninterp spec fn extension_of(path: Seq<char>) -> Option<Seq<char>>;

/// The path that `PathBuf::set_file_name` leaves when called on `path`
/// with `name`.
pub uninterp spec fn with_file_name(path: Seq<char>, name: Seq<char>) -> Seq<char>;

/// The path that `PathBuf::set_extension` leaves when called on `path`
/// with `extension`, and the flag it returns.
pub uninterp spec fn with_extension(path: Seq<char>, extension: Seq<char>) -> (Seq<char>, bool);

/// The path that `PathBuf::push` leaves when called on `path` with `more`.
pub uninterp spec fn joined(path: Seq<char>, more: Seq<char>) -> Seq<char>;

/// Whether `Path`'s `==` holds two spellings to be the same path.
pub uninterp spec fn same_path(a: Seq<char>, b: Seq<char>) -> bool;

/// Calls `Path::parent`. The result is the named value [`parent_of`]; the
/// parent of a path given as text is text again.
#[verifier::external_body]
pub(crate) fn parent(path: &str) -> (r: Option<String>)
    ensures
        r.deep_view() == parent_of(path@),
{
    match Path::new(path).parent() {
        Some(p) => Some(p.to_string_lossy().into_owned()),
        None => None,
    }
}

/// Calls `Path::file_name`. The result is the named value [`file_name_of`].
#[verifier::external_body]
pub(crate) fn file_name(path: &str) -> (r: Option<String>)
    ensures
        r.deep_view() == file_name_of(path@),
{
    match Path::new(path).file_name() {
        Some(p) => Some(p.to_string_lossy().into_owned()),
        None => None,
    }
}

/// Calls `Path::extension`. The result is the named value [`extension_of`].
#[verifier::external_body]
pub(crate) fn extension(path: &str) -> (r: Option<String>)
    ensures
        r.deep_view() == extension_of(path@),
{
    match Path::new(path).extension() {
        Some(p) => Some(p.to_string_lossy().into_owned()),
        None => None,
    }
}

/// Calls `PathBuf::set_file_name` on a copy of `path`. The result is the
/// named value [`with_file_name`].
#[verifier::external_body]
pub(crate) fn set_file_name(path: &str, name: &str) -> (r: String)
    ensures
        r@ == with_file_name(path@, name@),
{
    let mut buf = PathBuf::from(path);
    buf.set_file_name(name);
    buf.to_string_lossy().into_owned()
}

/// Calls `PathBuf::set_extension` on a copy of `path`. The results are the
/// named value [`with_extension`]. The standard library panics when the
/// extension holds a path separator, so such an extension is not accepted.
#[verifier::external_body]
pub(crate) fn set_extension(path: &str, extension: &str) -> (r: (String, bool))
    requires
        !extension@.contains('/'),
    ensures
        (r.0@, r.1) == with_extension(path@, extension@),
{
    let mut buf = PathBuf::from(path);
    let changed = buf.set_extension(extension);
    (buf.to_string_lossy().into_owned(), changed)
}

/// Calls `PathBuf::push` on a copy of `path`. The result is the named
/// value [`joined`].
#[verifier::external_body]
pub(crate) fn push(path: &str, more: &str) -> (r: String)
    ensures
        r@ == joined(path@, more@),
{
    let mut buf = PathBuf::from(path);
    buf.push(more);
    buf.to_string_lossy().into_owned()
}

/// Compares two spellings with `Path`'s `==`. The result is the named
/// value [`same_path`].
#[verifier::external_body]
pub(crate) fn same(a: &str, b: &str) -> (r: bool)
    ensures
        r == same_path(a@, b@),
{
    Path::new(a) == Path::new(b)
}

} // verus!
