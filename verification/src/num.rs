//! Numeric literal decoding.
//!
//! Numbers pass through an arbitrary-precision decimal decoder before they
//! become the language's numeric atoms; a literal the decoder rejects is a
//! recoverable error, never a crash.

use vstd::prelude::*;

verus! {

/// What the decimal decoder makes of a spelling: `None` when the text is
/// not a representable number, else the canonical spelling of its value.
/// The result depends on the characters alone.
pub uninterp spec fn json_number(s: Seq<char>) -> Option<Seq<char>>;

/// Relies on serde_json's `Number`: `str::parse::<serde_json::Number>`
/// accepts exactly the JSON number grammar (with double-precision range
/// limits) and `Number`'s `Display` writes one canonical spelling of the
/// parsed value; both depend on the input characters alone.
#[verifier::external_body]
pub fn parse_number(s: &str) -> (r: Option<String>)
    ensures
        match r {
            Some(t) => json_number(s@) == Some(t@),
            None => json_number(s@) is None,
        },
{
    match s.parse::<serde_json::Number>() {
        Ok(n) => Some(n.to_string()),
        Err(_) => None,
    }
}

} // verus!
