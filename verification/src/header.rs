//! The boundary to the header values of `reqwest`.

use reqwest::header::HeaderValue;
use vstd::prelude::*;
use vstd::utf8::encode_utf8;

verus! {

#[verifier::external_type_specification]
#[verifier::external_body]
pub struct ExHeaderValue(reqwest::header::HeaderValue);

/// The bytes a header value is sent as.
pub uninterp spec fn header_bytes(value: HeaderValue) -> Seq<u8>;

/// Whether `c` may stand in the text of a header value: a tab, or any
/// character but the control characters.
pub open spec fn header_char(c: char) -> bool {
    (c as u32 >= 32 && c as u32 != 127) || c as u32 == 9
}

/// Whether `text` can be sent as a header value.
pub open spec fn header_text(text: Seq<char>) -> bool {
    forall|i: int| 0 <= i < text.len() ==> header_char(#[trigger] text[i])
}

/// `HeaderValue::from_str`, with its error dropped. Trusted: the text is
/// accepted exactly where none of its bytes is a control character other than
/// the tab, which for UTF-8 text is what `header_text` says of its
/// characters; the value made holds the bytes of the text.
#[verifier::external_body]
pub(crate) fn parse_header(text: &str) -> (r: Option<HeaderValue>)
    ensures
        r is Some <==> header_text(text@),
        r matches Some(value) ==> header_bytes(value) == encode_utf8(text@),
{
    HeaderValue::from_str(text).ok()
}

} // verus!
