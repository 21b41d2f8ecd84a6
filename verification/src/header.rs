//! Header values: which texts an HTTP header may carry.

use vstd::prelude::*;
use vstd::utf8::*;

verus! {

/// Bytes that a header value may hold: everything from the space on but DEL,
/// and the tab.
pub open spec fn is_header_byte(b: u8) -> bool {
    (b >= 32 && b != 127) || b == 9
}

/// Texts that a header value may hold: every byte of the UTF-8 form is a
/// header byte.
pub open spec fn is_header_value(text: Seq<char>) -> bool {
    let bytes = encode_utf8(text);
    forall|i: int| 0 <= i < bytes.len() ==> is_header_byte(#[trigger] bytes[i])
}

/// `reqwest::header::HeaderValue::from_str`, which is that of the `http`
/// crate: a text is accepted exactly when each of its bytes is at least 32
/// and not 127, or is the tab.
#[verifier::external_body]
pub(crate) fn header_value_accepts(value: &str) -> (accepted: bool)
    ensures
        accepted == is_header_value(value@),
{
    reqwest::header::HeaderValue::from_str(value).is_ok()
}

} // verus!
