//! Expanding tildes in paths.
//!
//! If a path starts with the `~` component, that component is replaced by the
//! home directory. Any presence of `~` elsewhere in the path is left alone.
//!
//! The home directory is provided by the [`home_dir`] function.
//!
//! There are two ways to expand: the function [`expand_tilde`], and the
//! method of the sealed extension trait [`ExpandTilde`], which calls that
//! function. [`expand_tilde_with`] expands against a home directory that the
//! caller has asked for, and [`laws`] holds what is proved of expansion for
//! every path.

pub mod error;
pub mod expander;
pub mod ext;
pub mod laws;
pub mod paths;
pub mod resolver;
mod sealed;

pub use error::Error;
pub use expander::expand_remainder;
pub use expander::expand_tilde;
pub use expander::expand_tilde_owned;
pub use expander::expand_tilde_with;
pub use ext::ExpandTilde;
pub use paths::TILDE;
pub use resolver::classify_home;
pub use resolver::home_dir;
