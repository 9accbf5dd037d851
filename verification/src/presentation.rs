//! Decisions taken while the code is shown to the user.

use vstd::prelude::*;
use crate::text::same_text;

verus! {

/// A text without the white space at its two ends, as `str::trim` leaves it.
pub uninterp spec fn trimmed(text: Seq<char>) -> Seq<char>;

/// A text in lower case, as `str::to_lowercase` writes it.
pub uninterp spec fn lowercased(text: Seq<char>) -> Seq<char>;

/// Calls `str::trim`. Trusted: the slice returned is the text that
/// `trimmed` names.
#[verifier::external_body]
fn trim_text(text: &str) -> (inner: &str)
    ensures
        inner@ == trimmed(text@),
{
    text.trim()
}

/// Calls `str::to_lowercase`. Trusted: the string returned is the text that
/// `lowercased` names.
#[verifier::external_body]
fn lowercase_text(text: &str) -> (lower: String)
    ensures
        lower@ == lowercased(text@),
{
    text.to_lowercase()
}

/// Whether an answer, once trimmed and in lower case, says yes.
pub fn says_yes(normalized: &str) -> (yes: bool)
    ensures
        yes == (normalized@ == "y"@),
{
    same_text(normalized, "y")
}

/// Whether the user's answer to "open the browser?" says yes: the answer
/// is trimmed and put in lower case, and then has to be `y`.
pub fn wants_browser(answer: &str) -> (yes: bool)
    ensures
        yes == (lowercased(trimmed(answer@)) == "y"@),
{
    let lower = lowercase_text(trim_text(answer));
    says_yes(lower.as_str())
}

} // verus!
