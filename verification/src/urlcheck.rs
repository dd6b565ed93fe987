//! Target-URL validation: a submitted string must parse as a well-formed
//! absolute URL; what the service stores and redirects to is the parsed
//! URL's normalized serialization, not the raw input.

use vstd::prelude::*;

verus! {

/// What parsing a string as an absolute URL and serializing the result
/// yields: `None` where the string is not a well-formed absolute URL,
/// otherwise the normalized serialization.
pub uninterp spec fn url_normalize(s: Seq<char>) -> Option<Seq<char>>;

/// Relies on url's `Url::parse` and the `Display` serialization of the
/// parsed URL: parsing either fails, for a string that is not a
/// well-formed absolute URL, or yields a URL whose serialization is a
/// function of the input string alone. Neither call panics.
#[verifier::external_body]
pub(crate) fn normalize_url(s: &str) -> (r: Option<String>)
    ensures
        r is Some <==> url_normalize(s@) is Some,
        r matches Some(t) ==> url_normalize(s@) == Some(t@),
{
    match url::Url::parse(s) {
        Ok(u) => Some(u.to_string()),
        Err(_) => None,
    }
}

} // verus!
