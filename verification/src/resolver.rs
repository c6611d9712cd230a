//! Resolving the home directory.

use crate::error::Error;
use crate::paths::is_empty_path;
use crate::paths::optional_path_buf_bytes;
use crate::paths::path_buf_bytes;
use std::path::PathBuf;
use vstd::prelude::*;

verus! {

/// What the resolver makes of the platform's answer `found`, over the text of
/// the directory: no answer is [`Error::NotFound`], an answer without text is
/// [`Error::Empty`], and any other answer is the home directory.
pub open spec fn resolved_home(found: Option<Seq<u8>>) -> Result<Seq<u8>, Error> {
    match found {
        None => Err(Error::NotFound),
        Some(dir) => if dir.len() == 0 {
            Err(Error::Empty)
        } else {
            Ok(dir)
        },
    }
}

/// The text of a resolved home directory, or the error in its place.
pub open spec fn home_bytes(home: Result<PathBuf, Error>) -> Result<Seq<u8>, Error> {
    match home {
        Ok(dir) => Ok(path_buf_bytes(dir)),
        Err(error) => Err(error),
    }
}

/// Asks the platform for the current user's home directory, through
/// `home::home_dir`.
///
/// The answer depends on the environment of the process, so nothing is
/// claimed of it.
#[verifier::external_body]
fn platform_home() -> Option<PathBuf> {
    home::home_dir()
}

/// Classifies the platform's answer to the question of the home directory.
///
/// # Errors
///
/// Returns:
///
/// - [`Error::NotFound`] if there is no answer.
/// - [`Error::Empty`] if the answer is the empty path.
pub fn classify_home(found: Option<PathBuf>) -> (home: Result<PathBuf, Error>)
    ensures
        home_bytes(home) == resolved_home(optional_path_buf_bytes(found)),
        home is Ok ==> found == Some(home->Ok_0),
{
    match found {
        None => Err(Error::NotFound),
        Some(dir) => {
            if is_empty_path(&dir) {
                Err(Error::Empty)
            } else {
                Ok(dir)
            }
        },
    }
}

/// Resolves the home directory of the current user.
///
/// Whatever the platform answers, a directory that is returned is not the
/// empty path; see [`classify_home`] for what each answer leads to.
///
/// # Errors
///
/// Returns:
///
/// - [`Error::NotFound`] if the home directory cannot be found.
/// - [`Error::Empty`] if the home directory is empty.
pub fn home_dir() -> (home: Result<PathBuf, Error>)
    ensures
        exists|found: Option<Seq<u8>>| home_bytes(home) == #[trigger] resolved_home(found),
        home matches Ok(dir) ==> path_buf_bytes(dir).len() > 0,
{
    let found = platform_home();
    let home = classify_home(found);
    assert(home_bytes(home) == resolved_home(optional_path_buf_bytes(found)));
    home
}

} // verus!
