//! JSON string literals, as the `serde_json` crate writes them.

use vstd::prelude::*;

verus! {

/// `serde_json::Error`, what the serializer reports when it fails; opaque
/// here.
#[verifier::external_type_specification]
#[verifier::external_body]
pub struct ExJsonError(serde_json::Error);

/// What `serde_json` makes of the string `s`: the JSON string literal for
/// it, that is its characters between double quotes, escaped where JSON asks
/// for it; or nothing, where the serializer reports an error.
pub uninterp spec fn json_string_literal(s: Seq<char>) -> Option<Seq<char>>;

/// `serde_json::to_string` on a string slice. It writes into a buffer of its
/// own, so whether it succeeds and the text it gives depend on `s` alone:
/// the outcome is the one named for `s`. Whether it ever fails is not
/// claimed.
#[verifier::external_body]
pub(crate) fn json_quote(s: &str) -> (r: Result<String, serde_json::Error>)
    ensures
        match r {
            Ok(text) => json_string_literal(s@) == Some(text@),
            Err(_) => json_string_literal(s@) is None,
        },
{
    serde_json::to_string(s)
}

} // verus!
