//! The standard path types as this crate sees them.
//!
//! Paths are handed through as [`Path`] and [`PathBuf`] values. Contracts
//! speak of a path by the bytes of its text, and of what the standard
//! library's prefix stripping and joining make of such bytes. Those two
//! operations, and the conversions between the path types, are taken on
//! trust from the standard library; every item in this module that is not
//! proved says so.

use std::borrow::Cow;
use std::path::Path;
use std::path::PathBuf;
use vstd::prelude::*;
use vstd::utf8::encode_utf8;

verus! {

/// The `~` literal.
pub const TILDE: &'static str = "~";

/// The one byte that the `~` literal is made of.
pub const TILDE_BYTE: u8 = 0x7e;

/// The byte `/`, which separates the components of a path on every platform
/// that this crate is built for.
pub const SLASH_BYTE: u8 = 0x2f;

/// The byte `\`, which separates the components of a path on some
/// platforms.
pub const BACKSLASH_BYTE: u8 = 0x5c;

/// Makes `std::path::Path` known to the verifier as an opaque type.
#[verifier::external_type_specification]
#[verifier::external_body]
pub struct ExPath(Path);

/// Makes `std::path::PathBuf` known to the verifier as an opaque type.
#[verifier::external_type_specification]
#[verifier::external_body]
pub struct ExPathBuf(PathBuf);

/// The text of a borrowed path as bytes: what
/// `path.as_os_str().as_encoded_bytes()` holds.
pub uninterp spec fn path_bytes(path: &Path) -> Seq<u8>;

/// The text of an owned path as bytes: what
/// `path.as_os_str().as_encoded_bytes()` holds.
pub uninterp spec fn path_buf_bytes(path: PathBuf) -> Seq<u8>;

/// What `Path::strip_prefix` returns for the path with the text `path` and
/// the prefix [`TILDE`]: the text of the remainder, or `None` where the path
/// does not start with that component.
pub uninterp spec fn tilde_stripped(path: Seq<u8>) -> Option<Seq<u8>>;

/// The text of what `Path::join` returns for a path with the text `base` and
/// an argument with the text `rest`.
pub uninterp spec fn joined(base: Seq<u8>, rest: Seq<u8>) -> Seq<u8>;

/// Whether `byte` separates the components of a path on some platform: it
/// is `/` or `\`.
pub open spec fn may_separate(byte: u8) -> bool {
    byte == SLASH_BYTE || byte == BACKSLASH_BYTE
}

/// Whether the text `path` can have `~` as its whole first component on some
/// platform: it begins with `~`, and either ends there or goes on with a
/// byte that [may separate](may_separate) components.
pub open spec fn may_lead_with_tilde(path: Seq<u8>) -> bool {
    &&& path.len() > 0
    &&& path[0] == TILDE_BYTE
    &&& path.len() > 1 ==> may_separate(path[1])
}

/// Whether the text `path` begins with `~` and goes on with `/`.
pub open spec fn leads_with_tilde_and_slash(path: Seq<u8>) -> bool {
    &&& path.len() > 1
    &&& path[0] == TILDE_BYTE
    &&& path[1] == SLASH_BYTE
}

/// The text of a path that is either borrowed or owned.
pub open spec fn cow_bytes(path: Cow<'_, Path>) -> Seq<u8> {
    match path {
        Cow::Borrowed(borrowed) => path_bytes(borrowed),
        Cow::Owned(owned) => path_buf_bytes(owned),
    }
}

/// The text of a borrowed path that may be absent.
pub open spec fn optional_path_bytes(path: Option<&Path>) -> Option<Seq<u8>> {
    match path {
        Some(present) => Some(path_bytes(present)),
        None => None,
    }
}

/// The text of an owned path that may be absent.
pub open spec fn optional_path_buf_bytes(path: Option<PathBuf>) -> Option<Seq<u8>> {
    match path {
        Some(present) => Some(path_buf_bytes(present)),
        None => None,
    }
}

/// Calls `Path::new` on a string slice.
///
/// Not proved: the path has the text of the string, in UTF-8.
#[verifier::external_body]
pub(crate) fn path_of_str(text: &str) -> (path: &Path)
    ensures
        path_bytes(path) == encode_utf8(text@),
{
    Path::new(text)
}

/// Calls `PathBuf::as_path`.
///
/// Not proved: the borrowed path has the text of the owned one.
#[verifier::external_body]
pub(crate) fn as_path(owned: &PathBuf) -> (path: &Path)
    ensures
        path_bytes(path) == path_buf_bytes(*owned),
{
    owned.as_path()
}

/// Calls `Path::to_path_buf`.
///
/// Not proved: the owned path has the text of the borrowed one.
#[verifier::external_body]
pub(crate) fn to_path_buf(path: &Path) -> (owned: PathBuf)
    ensures
        path_buf_bytes(owned) == path_bytes(path),
{
    path.to_path_buf()
}

/// Asks whether an owned path is empty, as `path.as_os_str().is_empty()`
/// does.
///
/// Not proved: the answer is whether the path's text has no bytes.
#[verifier::external_body]
pub(crate) fn is_empty_path(path: &PathBuf) -> (empty: bool)
    ensures
        empty == (path_buf_bytes(*path).len() == 0),
{
    path.as_os_str().is_empty()
}

/// Calls `Path::strip_prefix` with [`TILDE`] as the prefix, turning its
/// error into `None`.
///
/// Not proved: the outcome is the one named by [`tilde_stripped`]. Since the
/// standard library compares whole components and `~` is an ordinary
/// component, a path from which it was stripped
/// [may lead with a tilde](may_lead_with_tilde). Stripping a path of all
/// that it is made of leaves the empty path. And since `/` separates
/// components both on Unix and on Windows, a path that
/// [leads with a tilde and a slash](leads_with_tilde_and_slash) is stripped.
#[verifier::external_body]
pub(crate) fn strip_tilde(path: &Path) -> (rest: Option<&Path>)
    ensures
        optional_path_bytes(rest) == tilde_stripped(path_bytes(path)),
        rest is Some ==> may_lead_with_tilde(path_bytes(path)),
        path_bytes(path) == seq![TILDE_BYTE] ==> optional_path_bytes(rest) == Some(
            Seq::<u8>::empty(),
        ),
        leads_with_tilde_and_slash(path_bytes(path)) ==> rest is Some,
{
    path.strip_prefix(TILDE).ok()
}

/// Calls `Path::join`.
///
/// Not proved: the text of the new path is the one named by [`joined`].
#[verifier::external_body]
pub(crate) fn join(base: &PathBuf, rest: &Path) -> (whole: PathBuf)
    ensures
        path_buf_bytes(whole) == joined(path_buf_bytes(*base), path_bytes(rest)),
{
    base.join(rest)
}

} // verus!
