//! Messages of the `speech_to_text` area.
use vstd::prelude::*;

verus! {

/// The text of [`language_code_invalid`].
pub open spec fn language_code_invalid_text(code: Seq<char>) -> Seq<char> {
    "The language code `"@ + code + "` is invalid: use a 2-letter ISO-639-1 code (e.g. `ja`)."@
}

/// The reply to a speech-to-text language that is not a 2-letter code.
pub fn language_code_invalid(code: &str) -> (r: String)
    ensures
        r@ == language_code_invalid_text(code@),
{
    let mut r = "The language code `".to_owned();
    r.append(code);
    r.append("` is invalid: use a 2-letter ISO-639-1 code (e.g. `ja`).");
    r
}

} // verus!
