//! Text as producers hand it over: UTF-16 code units, decoded by the
//! `widestring` crate.

use vstd::prelude::*;

verus! {

/// The text that a sequence of UTF-16 code units decodes to, or `None` where
/// the units are not valid UTF-16.
pub uninterp spec fn utf16_text(units: Seq<u16>) -> Option<Seq<char>>;

/// The text of an optional string.
pub open spec fn text_of(text: Option<String>) -> Option<Seq<char>> {
    match text {
        Some(t) => Some(t@),
        None => None,
    }
}

/// `U16Str::to_string` on the given units: the decoded text, or `None` where
/// the crate reports invalid UTF-16.
#[verifier::external_body]
pub(crate) fn decode_utf16(units: &[u16]) -> (text: Option<String>)
    ensures
        text_of(text) == utf16_text(units@),
{
    widestring::U16Str::from_slice(units).to_string().ok()
}

} // verus!
