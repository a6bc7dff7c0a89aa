//! Normalization of server-assigned UUID identifiers.

use vstd::prelude::*;

verus! {

/// What normalizing a UUID text yields: `None` when the text is not a
/// UUID in any accepted format, else the canonical hyphenated form.
pub uninterp spec fn uuid_norm(s: Seq<char>) -> Option<Seq<char>>;

/// Relies on `uuid::Uuid::parse_str` and the `Display` of `uuid::Uuid`:
/// parses the formats the crate documents (hyphenated, simple, braced,
/// URN) and renders the canonical lowercase hyphenated form; the result
/// depends on the text alone.
#[verifier::external_body]
pub(crate) fn uuid_normalize(s: &str) -> (r: Option<String>)
    ensures
        r is Some <==> uuid_norm(s@) is Some,
        r matches Some(t) ==> Some(t@) == uuid_norm(s@),
{
    match uuid::Uuid::parse_str(s) {
        Ok(u) => Some(format!("{}", u)),
        Err(_) => None,
    }
}

} // verus!
