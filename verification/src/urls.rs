//! URL handling: a stored `url` column holds the serialization of a parsed
//! absolute URL; text that does not parse is tolerated on read and mapped to
//! "no URL".

use vstd::prelude::*;

verus! {

/// The serialization that `url::Url::parse` produces for a given input
/// string, or `None` where the input does not parse as an absolute URL.
pub uninterp spec fn url_norm_of(s: Seq<char>) -> Option<Seq<char>>;

/// Relies on `url::Url::parse` and `url::Url::as_str`: whether a string
/// parses, and the serialization of the parsed URL, depend on its characters
/// alone; and a serialization the crate hands back parses again to itself
/// (the string round-trip that the crate's own `FromStr`, `Display` and
/// serde support lean on).
#[verifier::external_body]
pub(crate) fn normalize_url(s: &str) -> (r: Option<String>)
    ensures
        match r {
            Some(t) => url_norm_of(s@) == Some(t@) && url_norm_of(t@) == Some(t@),
            None => url_norm_of(s@) is None,
        },
{
    match url::Url::parse(s) {
        Ok(u) => Some(u.as_str().to_owned()),
        Err(_) => None,
    }
}

} // verus!
