//! URL well-formedness, decided by the `url` crate.

use vstd::prelude::*;

verus! {

/// Whether a string is a well-formed absolute URL. The answer is a function
/// of the characters alone; its definition is the `url` crate's parser.
pub uninterp spec fn url_is_valid(s: Seq<char>) -> bool;

/// Relies on url::Url::parse: parsing is deterministic in the input string,
/// and succeeds exactly on well-formed absolute URLs.
#[verifier::external_body]
pub(crate) fn check_url(s: &str) -> (r: bool)
    ensures
        r == url_is_valid(s@),
{
    url::Url::parse(s).is_ok()
}

} // verus!
