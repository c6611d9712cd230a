//! The path-like types that can be tilde-expanded.
//!
//! The trait is public so that it can bound public items, but this module is
//! not: nothing outside this crate can implement it, so the list of impls
//! below is complete.

use crate::paths::as_path;
use crate::paths::path_buf_bytes;
use crate::paths::path_bytes;
use crate::paths::path_of_str;
use std::path::Path;
use std::path::PathBuf;
use vstd::prelude::*;
use vstd::utf8::encode_utf8;

verus! {

/// A value that stands for a path.
pub trait Sealed {
    /// The text of the path that the value stands for, as bytes.
    spec fn path_text(&self) -> Seq<u8>;

    /// Borrows the value as a path with the same text.
    fn to_path(&self) -> (path: &Path)
        ensures
            path_bytes(path) == self.path_text(),
    ;
}

impl Sealed for Path {
    open spec fn path_text(&self) -> Seq<u8> {
        path_bytes(self)
    }

    fn to_path(&self) -> (path: &Path) {
        self
    }
}

impl Sealed for PathBuf {
    open spec fn path_text(&self) -> Seq<u8> {
        path_buf_bytes(*self)
    }

    fn to_path(&self) -> (path: &Path) {
        as_path(self)
    }
}

impl Sealed for str {
    open spec fn path_text(&self) -> Seq<u8> {
        encode_utf8(self@)
    }

    fn to_path(&self) -> (path: &Path) {
        path_of_str(self)
    }
}

impl Sealed for String {
    open spec fn path_text(&self) -> Seq<u8> {
        encode_utf8(self@)
    }

    fn to_path(&self) -> (path: &Path) {
        path_of_str(self.as_str())
    }
}

impl<'a, T: Sealed + ?Sized> Sealed for &'a T {
    open spec fn path_text(&self) -> Seq<u8> {
        (**self).path_text()
    }

    fn to_path(&self) -> (path: &Path) {
        (**self).to_path()
    }
}

} // verus!
