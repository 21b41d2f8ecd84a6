//! Text encodings that the signer relies on: percent-encoding of parameter
//! values and base64 of keys and signatures.
//!
//! The encoders themselves are those of the `urlencoding` and `base64`
//! crates. Percent-encoding is short enough to be stated in full; base64 is
//! named, and nothing but its being a function of its input is used.

use vstd::prelude::*;
use vstd::utf8::*;
use crate::text::digit_char;

verus! {

/// Bytes that percent-encoding leaves as they are: ASCII letters, digits and
/// `-`, `.`, `_`, `~`.
pub open spec fn is_unreserved(b: u8) -> bool {
    ||| 0x30 <= b <= 0x39
    ||| 0x41 <= b <= 0x5a
    ||| 0x61 <= b <= 0x7a
    ||| b == 0x2d
    ||| b == 0x2e
    ||| b == 0x5f
    ||| b == 0x7e
}

/// The upper-case hexadecimal digit of a value below sixteen.
pub open spec fn hex_upper(n: int) -> char {
    if n < 10 {
        digit_char(n)
    } else if n == 10 {
        'A'
    } else if n == 11 {
        'B'
    } else if n == 12 {
        'C'
    } else if n == 13 {
        'D'
    } else if n == 14 {
        'E'
    } else {
        'F'
    }
}

/// What one byte becomes: itself where it is unreserved, else `%` and its
/// two hexadecimal digits.
pub open spec fn percent_encode_byte(b: u8) -> Seq<char> {
    if is_unreserved(b) {
        seq![b as char]
    } else {
        seq!['%', hex_upper(b as int / 16), hex_upper(b as int % 16)]
    }
}

/// Percent-encoding of a byte string, byte by byte.
pub open spec fn percent_encode(bytes: Seq<u8>) -> Seq<char>
    decreases bytes.len(),
{
    if bytes.len() == 0 {
        Seq::empty()
    } else {
        percent_encode(bytes.drop_last()) + percent_encode_byte(bytes.last())
    }
}

/// Percent-encoding of a text: that of its UTF-8 bytes.
pub open spec fn percent_encoded(text: Seq<char>) -> Seq<char> {
    percent_encode(encode_utf8(text))
}

/// Characters that a percent-encoded text is made of: `%` and the
/// unreserved ones.
pub open spec fn is_percent_char(c: char) -> bool {
    c == '%' || exists|b: u8| is_unreserved(b) && c == b as char
}

/// A percent-encoded text holds nothing but `%` and unreserved characters;
/// so none of `&`, `=`, `?`, `/` or a space stands in it.
pub proof fn lemma_percent_encode_chars(bytes: Seq<u8>)
    ensures
        forall|i: int|
            0 <= i < percent_encode(bytes).len() ==> is_percent_char(
                #[trigger] percent_encode(bytes)[i],
            ),
    decreases bytes.len(),
{
    if bytes.len() > 0 {
        let front = percent_encode(bytes.drop_last());
        let b = bytes.last();
        let tail = percent_encode_byte(b);
        lemma_percent_encode_chars(bytes.drop_last());
        assert forall|i: int| 0 <= i < tail.len() implies is_percent_char(#[trigger] tail[i]) by {
            if is_unreserved(b) {
                assert(tail[i] == b as char);
            } else {
                let high = b as int / 16;
                let low = b as int % 16;
                lemma_hex_upper_is_unreserved(high);
                lemma_hex_upper_is_unreserved(low);
            }
        }
        assert forall|i: int| 0 <= i < percent_encode(bytes).len() implies is_percent_char(
            #[trigger] percent_encode(bytes)[i],
        ) by {
            if i < front.len() {
                assert(percent_encode(bytes)[i] == front[i]);
            } else {
                assert(percent_encode(bytes)[i] == tail[i - front.len()]);
            }
        }
    }
}

/// A hexadecimal digit is an unreserved character.
pub proof fn lemma_hex_upper_is_unreserved(n: int)
    requires
        0 <= n < 16,
    ensures
        exists|b: u8| is_unreserved(b) && hex_upper(n) == b as char,
{
    let b: u8 = if n < 10 {
        (0x30 + n) as u8
    } else {
        (0x41 + n - 10) as u8
    };
    assert(is_unreserved(b));
    assert(hex_upper(n) == b as char);
}

/// What the base64 encoder (standard alphabet, padded) returns for `data`.
pub uninterp spec fn base64_encoded(data: Seq<u8>) -> Seq<char>;

/// What the base64 decoder (standard alphabet, padded) returns for the bytes
/// `text`: the decoded bytes, or `None` where it rejects the text.
pub uninterp spec fn base64_decoded(text: Seq<u8>) -> Option<Seq<u8>>;

/// A text length that the base64 decoder can take: it rounds the length up
/// to whole chunks of eight, which has to stay within the machine word.
pub open spec fn decodable_len(n: nat) -> bool {
    n + 7 <= usize::MAX
}

#[verifier::external_type_specification]
#[verifier::external_body]
pub struct ExDecodeError(base64::DecodeError);

/// `urlencoding::encode`: every byte of the UTF-8 form of `value` that is not
/// an ASCII letter, a digit or one of `-`, `.`, `_`, `~` is replaced by `%`
/// and two upper-case hexadecimal digits; the others stay.
#[verifier::external_body]
pub(crate) fn percent_encode_text(value: &str) -> (out: String)
    ensures
        out@ == percent_encoded(value@),
{
    urlencoding::encode(value).into_owned()
}

/// `base64::encode`: the result is a function of the bytes alone. The
/// encoder panics where the encoded length overflows the machine word, which
/// inputs of up to half its range cannot cause.
#[verifier::external_body]
pub(crate) fn base64_encode(data: &[u8]) -> (out: String)
    requires
        data@.len() <= usize::MAX / 2,
    ensures
        out@ == base64_encoded(data@),
{
    base64::encode(data)
}

/// `base64::decode`: success and the decoded bytes are a function of the
/// text alone. The decoder panics where the text's length plus seven
/// overflows the machine word.
#[verifier::external_body]
pub(crate) fn base64_decode(text: &[u8]) -> (res: Result<Vec<u8>, base64::DecodeError>)
    requires
        decodable_len(text@.len()),
    ensures
        match res {
            Ok(bytes) => base64_decoded(text@) == Some(bytes@),
            Err(_) => base64_decoded(text@) is None,
        },
{
    base64::decode(text)
}

} // verus!
