//! How a path is quoted when a command reports it.

use vstd::prelude::*;

verus! {

/// The text that std's `Debug` formatting of a `Path` gives, on the platform
/// the library is built for, for the path with the text `path`: the path
/// between double quotes, with quotes, backslashes and special characters
/// escaped. The escaping is the platform's own (a single quote, for one, is
/// escaped on Unix but not on Windows).
pub uninterp spec fn path_debug_text(path: Seq<char>) -> Seq<char>;

/// Formats `std::path::Path::new(path)` with `{:?}`. Trusted: the text is
/// `path_debug_text(path@)`, that is, it depends on the path's text alone. What
/// the quoting and escaping are is left to std and not stated here.
#[verifier::external_body]
pub(crate) fn path_debug(path: &str) -> (t: String)
    ensures
        t@ == path_debug_text(path@),
{
    format!("{:?}", std::path::Path::new(path))
}

} // verus!
