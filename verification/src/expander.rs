//! Expanding the leading tilde of a path.
//!
//! [`expansion`] says what expanding a path gives for each answer that the
//! platform may have to the question of the home directory. The functions
//! that take that answer as an argument return exactly that; the functions
//! that ask the platform themselves return it for the answer they got.

use crate::error::Error;
use crate::paths::cow_bytes;
use crate::paths::join;
use crate::paths::joined;
use crate::paths::may_lead_with_tilde;
use crate::paths::optional_path_buf_bytes;
use crate::paths::optional_path_bytes;
use crate::paths::path_buf_bytes;
use crate::paths::path_bytes;
use crate::paths::strip_tilde;
use crate::paths::tilde_stripped;
use crate::paths::to_path_buf;
use crate::paths::SLASH_BYTE;
use crate::paths::TILDE_BYTE;
use crate::resolver::classify_home;
use crate::resolver::home_dir;
use crate::resolver::resolved_home;
use crate::sealed::Sealed;
use std::borrow::Cow;
use std::path::Path;
use std::path::PathBuf;
use vstd::prelude::*;

verus! {

/// What is left of `path` behind its leading `~` component, or `None` where
/// it has no such component.
///
/// A path that does not begin with `~`, or goes on behind it with a byte
/// that separates components on no platform, has none. The path `~` has one,
/// with nothing left behind it. So has a path that goes on with `/`, and the
/// standard library's stripping says what is left. Where a path goes on with
/// `\`, that stripping decides both, by the separators of the platform.
pub open spec fn tilde_remainder(path: Seq<u8>) -> Option<Seq<u8>> {
    if !may_lead_with_tilde(path) {
        None
    } else if path.len() == 1 {
        Some(Seq::empty())
    } else if path[1] == SLASH_BYTE {
        Some(tilde_stripped(path).unwrap())
    } else {
        tilde_stripped(path)
    }
}

/// What joining the remainder `rest` of a path to the home directory gives,
/// where the platform's answer to the question of the home directory is
/// `found`.
pub open spec fn remainder_expansion(rest: Seq<u8>, found: Option<Seq<u8>>) -> Result<
    Seq<u8>,
    Error,
> {
    match resolved_home(found) {
        Ok(home) => Ok(joined(home, rest)),
        Err(error) => Err(error),
    }
}

/// What expanding `path` gives where the platform's answer to the question of
/// the home directory is `found`: the path itself where it has no leading
/// tilde, else the home directory joined with the remainder, or the error
/// of resolving it.
pub open spec fn expansion(path: Seq<u8>, found: Option<Seq<u8>>) -> Result<Seq<u8>, Error> {
    match tilde_remainder(path) {
        None => Ok(path),
        Some(rest) => remainder_expansion(rest, found),
    }
}

/// Whether `outcome` is what expanding `path` gives for some answer of the
/// platform.
pub open spec fn is_expansion(path: Seq<u8>, outcome: Result<Seq<u8>, Error>) -> bool {
    exists|found: Option<Seq<u8>>| outcome == #[trigger] expansion(path, found)
}

/// The text of an expanded path, or the error in its place.
pub open spec fn outcome_bytes(outcome: Result<Cow<'_, Path>, Error>) -> Result<Seq<u8>, Error> {
    match outcome {
        Ok(path) => Ok(cow_bytes(path)),
        Err(error) => Err(error),
    }
}

/// The text of an expanded owned path, or the error in its place.
pub open spec fn owned_outcome_bytes(outcome: Result<PathBuf, Error>) -> Result<Seq<u8>, Error> {
    match outcome {
        Ok(path) => Ok(path_buf_bytes(path)),
        Err(error) => Err(error),
    }
}

/// Strips the leading `~` component from a path, if it has one.
fn strip_leading_tilde(path: &Path) -> (rest: Option<&Path>)
    ensures
        optional_path_bytes(rest) == tilde_remainder(path_bytes(path)),
{
    let rest = strip_tilde(path);
    proof {
        let text = path_bytes(path);
        if text.len() == 1 && text[0] == TILDE_BYTE {
            assert(text =~= seq![TILDE_BYTE]);
        }
    }
    rest
}

/// Joins the remainder of a path, already stripped of its leading tilde, to
/// the home directory that the platform's answer `found` resolves to.
///
/// # Errors
///
/// Returns the error of [`classify_home`] for `found`.
pub fn expand_remainder(rest: &Path, found: Option<PathBuf>) -> (outcome: Result<PathBuf, Error>)
    ensures
        owned_outcome_bytes(outcome) == remainder_expansion(
            path_bytes(rest),
            optional_path_buf_bytes(found),
        ),
{
    match classify_home(found) {
        Ok(home) => Ok(join(&home, rest)),
        Err(error) => Err(error),
    }
}

/// Expands the tilde (`~`) component of the given path to the home directory
/// that the platform's answer `found` resolves to.
///
/// A path without a leading tilde is returned as it is, borrowed, whatever
/// `found` holds.
///
/// # Errors
///
/// Returns the error of [`classify_home`] for `found` if the path has a
/// leading tilde.
pub fn expand_tilde_with<'a, P: Sealed + ?Sized>(path: &'a P, found: Option<PathBuf>) -> (outcome:
    Result<Cow<'a, Path>, Error>)
    ensures
        outcome_bytes(outcome) == expansion(path.path_text(), optional_path_buf_bytes(found)),
        outcome matches Ok(expanded) ==> (expanded is Borrowed <==> tilde_remainder(
            path.path_text(),
        ) is None),
{
    let path = path.to_path();
    match strip_leading_tilde(path) {
        None => Ok(Cow::Borrowed(path)),
        Some(rest) => match expand_remainder(rest, found) {
            Ok(expanded) => Ok(Cow::Owned(expanded)),
            Err(error) => Err(error),
        },
    }
}

/// Expands the tilde (`~`) component of the given path to the home directory.
///
/// A path without a leading tilde is returned as it is, borrowed, and the
/// home directory is not asked for. For a path with a leading tilde the
/// outcome is that of [`expand_tilde_with`] for the platform's answer.
///
/// # Errors
///
/// This function propagates errors returned by [`home_dir`].
pub fn expand_tilde<P: Sealed + ?Sized>(path: &P) -> (outcome: Result<Cow<'_, Path>, Error>)
    ensures
        is_expansion(path.path_text(), outcome_bytes(outcome)),
        tilde_remainder(path.path_text()) is None ==> outcome_bytes(outcome) == Ok::<
            Seq<u8>,
            Error,
        >(path.path_text()),
        outcome matches Ok(expanded) ==> (expanded is Borrowed <==> tilde_remainder(
            path.path_text(),
        ) is None),
{
    let path = path.to_path();
    match strip_leading_tilde(path) {
        None => {
            assert(outcome_bytes(Ok(Cow::Borrowed(path))) == expansion(path_bytes(path), None));
            Ok(Cow::Borrowed(path))
        },
        Some(rest) => match home_dir() {
            Ok(home) => {
                let expanded = join(&home, rest);
                assert(Ok::<Seq<u8>, Error>(path_buf_bytes(expanded)) == expansion(
                    path_bytes(path),
                    Some(path_buf_bytes(home)),
                ));
                Ok(Cow::Owned(expanded))
            },
            Err(error) => {
                assert(Err::<Seq<u8>, Error>(error) == expansion(
                    path_bytes(path),
                    if error is NotFound {
                        None
                    } else {
                        Some(Seq::empty())
                    },
                ));
                Err(error)
            },
        },
    }
}

/// Similar to [`expand_tilde`], but accepts the path by value and returns
/// owned paths.
///
/// # Errors
///
/// This function propagates errors returned by [`expand_tilde`].
pub fn expand_tilde_owned<P: Sealed>(path: P) -> (outcome: Result<PathBuf, Error>)
    ensures
        is_expansion(path.path_text(), owned_outcome_bytes(outcome)),
        tilde_remainder(path.path_text()) is None ==> owned_outcome_bytes(outcome) == Ok::<
            Seq<u8>,
            Error,
        >(path.path_text()),
{
    match expand_tilde(&path) {
        Ok(expanded) => Ok(into_owned(expanded)),
        Err(error) => Err(error),
    }
}

/// Turns a path that is either borrowed or owned into an owned path with
/// the same text.
fn into_owned(path: Cow<'_, Path>) -> (owned: PathBuf)
    ensures
        path_buf_bytes(owned) == cow_bytes(path),
{
    match path {
        Cow::Borrowed(borrowed) => to_path_buf(borrowed),
        Cow::Owned(owned) => owned,
    }
}

} // verus!
