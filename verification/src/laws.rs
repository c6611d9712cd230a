//! What holds of expansion for every path and every answer of the platform.

use crate::error::Error;
use crate::expander::expansion;
use crate::expander::tilde_remainder;
use crate::paths::joined;
use crate::paths::leads_with_tilde_and_slash;
use crate::paths::may_separate;
use crate::paths::tilde_stripped;
use crate::paths::TILDE;
use crate::paths::TILDE_BYTE;
use crate::resolver::resolved_home;
use vstd::prelude::*;
use vstd::utf8::encode_utf8;
use vstd::utf8::is_ascii_chars_encode_utf8;

verus! {

/// The `~` literal is the single character `~`, and as the text of a path
/// it is the single byte [`TILDE_BYTE`].
pub proof fn law_tilde_literal()
    ensures
        TILDE@ == seq!['~'],
        encode_utf8(TILDE@) == seq![TILDE_BYTE],
{
    reveal_strlit("~");
    assert(TILDE@ =~= seq!['~']);
    is_ascii_chars_encode_utf8(TILDE@);
    assert(encode_utf8(TILDE@) =~= seq![TILDE_BYTE]);
}

/// A path that does not begin with the tilde component expands to itself,
/// whatever the platform answers.
pub proof fn law_unchanged_without_leading_tilde(path: Seq<u8>, found: Option<Seq<u8>>)
    requires
        tilde_remainder(path) is None,
    ensures
        expansion(path, found) == Ok::<Seq<u8>, Error>(path),
{
}

/// A path whose first byte is not `~` expands to itself, whatever the
/// platform answers and wherever else in the path a `~` stands.
pub proof fn law_tilde_elsewhere_is_kept(path: Seq<u8>, found: Option<Seq<u8>>)
    requires
        path.len() == 0 || path[0] != TILDE_BYTE,
    ensures
        tilde_remainder(path) is None,
        expansion(path, found) == Ok::<Seq<u8>, Error>(path),
{
}

/// A path that begins with `~` and goes on with a byte that separates
/// components on no platform, such as `~config`, expands to itself,
/// whatever the platform answers.
pub proof fn law_partial_segment_is_kept(path: Seq<u8>, found: Option<Seq<u8>>)
    requires
        path.len() > 1,
        path[0] == TILDE_BYTE,
        !may_separate(path[1]),
    ensures
        tilde_remainder(path) is None,
        expansion(path, found) == Ok::<Seq<u8>, Error>(path),
{
}

/// The path `~` expands to the home directory joined with the empty path,
/// or fails as resolving the home directory does.
pub proof fn law_bare_tilde_is_home(found: Option<Seq<u8>>)
    ensures
        tilde_remainder(seq![TILDE_BYTE]) == Some(Seq::<u8>::empty()),
        expansion(seq![TILDE_BYTE], found) == match resolved_home(found) {
            Ok(home) => Ok::<Seq<u8>, Error>(joined(home, Seq::empty())),
            Err(error) => Err(error),
        },
{
}

/// A path that begins with `~/` has a leading tilde component: it expands
/// to the home directory joined with what the standard library's stripping
/// leaves of it, or fails as resolving the home directory does.
pub proof fn law_tilde_and_slash_is_expanded(path: Seq<u8>, found: Option<Seq<u8>>)
    requires
        leads_with_tilde_and_slash(path),
    ensures
        tilde_remainder(path) == Some(tilde_stripped(path).unwrap()),
        expansion(path, found) == match resolved_home(found) {
            Ok(home) => Ok::<Seq<u8>, Error>(joined(home, tilde_stripped(path).unwrap())),
            Err(error) => Err(error),
        },
{
}

/// Expanding a path without a leading tilde component, and then expanding
/// what came out, gives the path itself, whatever the platform answers
/// either time.
pub proof fn law_expanding_again_changes_nothing(
    path: Seq<u8>,
    found: Option<Seq<u8>>,
    found_again: Option<Seq<u8>>,
)
    requires
        tilde_remainder(path) is None,
    ensures
        expansion(path, found) == Ok::<Seq<u8>, Error>(path),
        expansion(expansion(path, found)->Ok_0, found_again) == expansion(path, found),
{
}

/// Where the platform answers with the empty path, every path with a leading
/// tilde component fails to expand with [`Error::Empty`], and every other
/// path still expands to itself.
pub proof fn law_empty_home(path: Seq<u8>)
    ensures
        tilde_remainder(path) is Some ==> expansion(path, Some(Seq::empty())) == Err::<
            Seq<u8>,
            Error,
        >(Error::Empty),
        tilde_remainder(path) is None ==> expansion(path, Some(Seq::empty())) == Ok::<
            Seq<u8>,
            Error,
        >(path),
{
}

/// Where the platform has no answer, every path with a leading tilde
/// component fails to expand with [`Error::NotFound`], and every other path
/// still expands to itself.
pub proof fn law_home_not_found(path: Seq<u8>)
    ensures
        tilde_remainder(path) is Some ==> expansion(path, None) == Err::<Seq<u8>, Error>(
            Error::NotFound,
        ),
        tilde_remainder(path) is None ==> expansion(path, None) == Ok::<Seq<u8>, Error>(path),
{
}

/// Expansion fails exactly where the path has a leading tilde component and
/// resolving the home directory fails, and then with the resolver's error.
pub proof fn law_failure_comes_from_the_resolver(path: Seq<u8>, found: Option<Seq<u8>>)
    ensures
        expansion(path, found) is Err <==> tilde_remainder(path) is Some
            && resolved_home(found) is Err,
        expansion(path, found) is Err ==> expansion(path, found)->Err_0
            == resolved_home(found)->Err_0,
{
}

} // verus!
