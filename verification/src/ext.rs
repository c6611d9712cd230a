//! Tilde expansion as a method of path-like values.

use crate::error::Error;
use crate::expander::expand_tilde;
use crate::expander::is_expansion;
use crate::expander::outcome_bytes;
use crate::expander::tilde_remainder;
use crate::sealed::Sealed;
use std::borrow::Cow;
use std::path::Path;
use vstd::prelude::*;

verus! {

/// Represents values that can be tilde-expanded (sealed extension trait).
///
/// The method is held to the contract of the function [`expand_tilde`], and
/// its one impl calls that function: both ways of calling expand alike.
pub trait ExpandTilde: Sealed {
    /// Expands the tilde (`~`) component to the home directory.
    ///
    /// # Errors
    ///
    /// See [`expand_tilde`] for more information.
    fn expand_tilde(&self) -> (outcome: Result<Cow<'_, Path>, Error>)
        ensures
            is_expansion(self.path_text(), outcome_bytes(outcome)),
            tilde_remainder(self.path_text()) is None ==> outcome_bytes(outcome) == Ok::<
                Seq<u8>,
                Error,
            >(self.path_text()),
            outcome matches Ok(expanded) ==> (expanded is Borrowed <==> tilde_remainder(
                self.path_text(),
            ) is None),
    ;
}

impl<P: Sealed + ?Sized> ExpandTilde for P {
    fn expand_tilde(&self) -> (outcome: Result<Cow<'_, Path>, Error>) {
        expand_tilde(self)
    }
}

} // verus!
