//! Messages of the `access` area.
use vstd::prelude::*;

verus! {

/// The text of [`failed_to_parse_patterns`].
pub open spec fn failed_to_parse_patterns_text(error: Seq<char>) -> Seq<char> {
    "Failed to parse the patterns: "@ + error
}

/// The reply to user patterns that do not parse.
pub fn failed_to_parse_patterns(error: &str) -> (r: String)
    ensures
        r@ == failed_to_parse_patterns_text(error@),
{
    let mut r = "Failed to parse the patterns: ".to_owned();
    r.append(error);
    r
}

} // verus!
