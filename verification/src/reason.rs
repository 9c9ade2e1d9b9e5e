//! Canonical reason phrases of HTTP status codes, taken from the `http`
//! crate's table.

use http::StatusCode;
use vstd::prelude::*;

verus! {

/// The canonical reason phrase that the `http` crate lists for the status
/// code numbered `status`; `None` where `status` is no status code or the
/// table has no phrase for it.
pub uninterp spec fn canonical_reason(status: u16) -> Option<Seq<char>>;

/// Whether every character of `text` is printable ASCII: a space or a
/// visible character, so no control character and no line break.
pub open spec fn is_printable(text: Seq<char>) -> bool {
    forall|i: int| 0 <= i < text.len() ==> ' ' <= #[trigger] text[i] <= '~'
}

/// The characters of a phrase, where there is one.
pub open spec fn phrase_view(phrase: Option<&str>) -> Option<Seq<char>> {
    match phrase {
        Some(text) => Some(text@),
        None => None,
    }
}

/// Looks a status up in the `http` crate: `StatusCode::from_u16` makes the
/// status code, `StatusCode::canonical_reason` gives its phrase.
///
/// Nothing of this is proved. The contract names the outcome and adds what
/// the crate's source shows of it: `from_u16` turns down every number outside
/// 100 to 999, the table's entry for 200 is `OK`, and every phrase in the
/// table is made of letters, spaces, hyphens and apostrophes.
#[verifier::external_body]
pub(crate) fn lookup_reason(status: u16) -> (phrase: Option<&'static str>)
    ensures
        phrase_view(phrase) == canonical_reason(status),
        phrase_view(phrase) matches Some(text) ==> is_printable(text),
        !(100 <= status <= 999) ==> phrase is None,
        status == 200 ==> phrase_view(phrase) == Some("OK"@),
{
    match StatusCode::from_u16(status) {
        Ok(code) => code.canonical_reason(),
        Err(_) => None,
    }
}

} // verus!
