//! Percent-encoding of the values that are placed in a URL.

use vstd::prelude::*;
use vstd::utf8::{char_u32_cast, encode_utf8, is_ascii_chars, is_ascii_chars_encode_utf8};

verus! {

/// Whether byte `b` is written as itself: an ASCII letter or digit, or one of
/// `-`, `.`, `_` and `~`.
pub open spec fn is_unreserved(b: u8) -> bool {
    ||| 0x30 <= b <= 0x39
    ||| 0x41 <= b <= 0x5A
    ||| 0x61 <= b <= 0x7A
    ||| b == 0x2D
    ||| b == 0x2E
    ||| b == 0x5F
    ||| b == 0x7E
}

/// The upper-case hexadecimal digit for `d`.
pub open spec fn hex_digit(d: nat) -> char
    recommends
        d < 16,
{
    if d < 10 {
        (48 + d) as u8 as char
    } else {
        (55 + d) as u8 as char
    }
}

/// How one byte is written: as itself if unreserved, else `%` and its two
/// hexadecimal digits.
pub open spec fn escaped_byte(b: u8) -> Seq<char> {
    if is_unreserved(b) {
        seq![b as char]
    } else {
        seq!['%', hex_digit(b as nat / 16), hex_digit(b as nat % 16)]
    }
}

/// The bytes of `bytes`, each written as [`escaped_byte`] says, in order.
pub open spec fn percent_encoded_bytes(bytes: Seq<u8>) -> Seq<char>
    decreases bytes.len(),
{
    if bytes.len() == 0 {
        Seq::empty()
    } else {
        percent_encoded_bytes(bytes.drop_last()) + escaped_byte(bytes.last())
    }
}

/// The percent-encoding of the UTF-8 form of `text`.
pub open spec fn percent_encoded(text: Seq<char>) -> Seq<char> {
    percent_encoded_bytes(encode_utf8(text))
}

/// Whether `c` may stand in an encoded value: what [`is_unreserved`] admits,
/// and `%`.
pub open spec fn is_encoded_char(c: char) -> bool {
    c == '%' || (c as u32 <= 0x7F && is_unreserved(c as u8))
}

/// Calls `urlencoding::encode`, which writes every byte of the UTF-8 form of
/// its argument as itself where it is an ASCII letter or digit or one of
/// `-`, `.`, `_`, `~`, and as `%` with two upper-case hexadecimal digits
/// otherwise.
#[verifier::external_body]
pub(crate) fn percent_encode(text: &str) -> (out: String)
    ensures
        out@ == percent_encoded(text@),
{
    urlencoding::encode(text).into_owned()
}

/// An encoded byte sequence holds nothing but unreserved characters and
/// `%`: no value can break out of the place it is written to.
pub proof fn percent_encoded_bytes_are_safe(bytes: Seq<u8>)
    ensures
        forall|i: int|
            0 <= i < percent_encoded_bytes(bytes).len() ==> is_encoded_char(
                #[trigger] percent_encoded_bytes(bytes)[i],
            ),
    decreases bytes.len(),
{
    if bytes.len() > 0 {
        percent_encoded_bytes_are_safe(bytes.drop_last());
        let head = percent_encoded_bytes(bytes.drop_last());
        let tail = escaped_byte(bytes.last());
        assert forall|j: int| 0 <= j < tail.len() implies is_encoded_char(#[trigger] tail[j]) by {
            let b = bytes.last();
            if !is_unreserved(b) {
                assert(b as nat / 16 < 16);
                assert(b as nat % 16 < 16);
            }
        }
        assert forall|i: int| 0 <= i < (head + tail).len() implies is_encoded_char(
            #[trigger] (head + tail)[i],
        ) by {
            if i >= head.len() {
                assert((head + tail)[i] == tail[i - head.len()]);
            }
        }
    }
}

/// An encoded text holds nothing but unreserved characters and `%`.
pub proof fn percent_encoded_is_safe(text: Seq<char>)
    ensures
        forall|i: int|
            0 <= i < percent_encoded(text).len() ==> is_encoded_char(
                #[trigger] percent_encoded(text)[i],
            ),
{
    percent_encoded_bytes_are_safe(encode_utf8(text));
}

/// Whether `text` holds unreserved characters only.
pub open spec fn is_unreserved_text(text: Seq<char>) -> bool {
    forall|i: int|
        0 <= i < text.len() ==> (#[trigger] text[i]) as u32 <= 0x7F && is_unreserved(text[i] as u8)
}

proof fn lemma_unreserved_bytes_are_kept(bytes: Seq<u8>)
    requires
        forall|i: int| 0 <= i < bytes.len() ==> is_unreserved(#[trigger] bytes[i]),
    ensures
        percent_encoded_bytes(bytes).len() == bytes.len(),
        forall|i: int|
            0 <= i < bytes.len() ==> #[trigger] percent_encoded_bytes(bytes)[i] == bytes[i] as char,
    decreases bytes.len(),
{
    if bytes.len() > 0 {
        lemma_unreserved_bytes_are_kept(bytes.drop_last());
        assert(is_unreserved(bytes[bytes.len() - 1]));
    }
}

/// A text of unreserved characters is its own encoding.
pub proof fn unreserved_text_is_kept(text: Seq<char>)
    requires
        is_unreserved_text(text),
    ensures
        percent_encoded(text) == text,
{
    assert(is_ascii_chars(text)) by {
        assert forall|i: int| 0 <= i < text.len() implies '\0' <= #[trigger] text[i]
            <= '\u{7f}' by {
            char_u32_cast(text[i], text[i] as u32);
        }
    }
    is_ascii_chars_encode_utf8(text);
    let bytes = encode_utf8(text);
    assert forall|i: int| 0 <= i < bytes.len() implies is_unreserved(#[trigger] bytes[i]) by {
        assert(text[i] as u8 == bytes[i]);
    }
    lemma_unreserved_bytes_are_kept(bytes);
    assert forall|i: int| 0 <= i < text.len() implies percent_encoded(text)[i] == text[i] by {
        assert(text[i] as u8 == bytes[i]);
        assert(text[i] as u32 <= 0x7F);
        assert(percent_encoded_bytes(bytes)[i] == bytes[i] as char);
    }
    assert(percent_encoded(text) =~= text);
}

} // verus!
