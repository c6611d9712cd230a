//! The ways in which resolving the home directory can fail.

use vstd::prelude::*;

verus! {

/// Represents errors that can occur during `~` expansion.
///
/// Both kinds concern the home directory, so neither can occur for a path
/// that does not need expansion.
#[derive(Debug, Clone, Copy, PartialEq, Eq, Hash)]
pub enum Error {
    /// The home directory cannot be found.
    NotFound,
    /// The home directory is empty.
    Empty,
}

} // verus!
