//! The callback URL that a validated delivery is turned into.

use crate::text::{decimal_digits, push_decimal};
use vstd::prelude::*;
use vstd::string::*;
use vstd::utf8::*;

verus! {

/// Whether a byte stands for itself in a percent-encoded text: an ASCII letter or
/// digit, or one of `-`, `.`, `_`, `~`.
pub open spec fn is_unreserved(b: u8) -> bool {
    ||| 0x30 <= b <= 0x39
    ||| 0x41 <= b <= 0x5a
    ||| 0x61 <= b <= 0x7a
    ||| b == 0x2d
    ||| b == 0x2e
    ||| b == 0x5f
    ||| b == 0x7e
}

/// The character for one half byte in an escape, with upper-case letters from ten on.
pub open spec fn escape_digit(d: nat) -> char {
    if d < 10 {
        (0x30 + d) as u8 as char
    } else {
        (0x41 + d - 10) as u8 as char
    }
}

/// One byte, percent-encoded: itself where it is unreserved, else `%` and its two
/// hexadecimal digits.
pub open spec fn percent_byte(b: u8) -> Seq<char> {
    if is_unreserved(b) {
        seq![b as char]
    } else {
        seq!['%', escape_digit(b as nat / 16), escape_digit(b as nat % 16)]
    }
}

/// A sequence of bytes, percent-encoded byte by byte.
pub open spec fn percent_bytes(bytes: Seq<u8>) -> Seq<char>
    decreases bytes.len(),
{
    if bytes.len() == 0 {
        Seq::empty()
    } else {
        percent_bytes(bytes.drop_last()) + percent_byte(bytes.last())
    }
}

/// A text, percent-encoded: the bytes of its UTF-8 form, each encoded in turn.
pub open spec fn percent_encoded(text: Seq<char>) -> Seq<char> {
    percent_bytes(encode_utf8(text))
}

/// `urlencoding::encode`, with the result owned. Trusted: the result is the UTF-8
/// bytes of `text` in order, where a letter or digit of ASCII and each of `-`, `.`,
/// `_`, `~` is kept, and every other byte becomes `%` followed by its two
/// upper-case hexadecimal digits.
#[verifier::external_body]
fn percent_encode(text: &str) -> (r: String)
    ensures
        r@ == percent_encoded(text@),
{
    urlencoding::encode(text).into_owned()
}

/// Whether a character is one that percent-encoding keeps as it is.
pub open spec fn is_unreserved_char(c: char) -> bool {
    '\0' <= c <= '\u{7f}' && is_unreserved(c as u8)
}

/// Whether a character can occur in a percent-encoded text: `%`, or one that is
/// kept as it is.
pub open spec fn is_encoded_char(c: char) -> bool {
    c == '%' || is_unreserved_char(c)
}

/// The characters that one byte is encoded as can all occur in an encoded text.
proof fn lemma_percent_byte_is_plain(b: u8)
    ensures
        forall|i: int|
            0 <= i < percent_byte(b).len() ==> is_encoded_char(#[trigger] percent_byte(b)[i]),
{
    if !is_unreserved(b) {
        let high = b as nat / 16;
        let low = b as nat % 16;
        assert(high < 16 && low < 16);
        assert(is_unreserved_char(escape_digit(high)));
        assert(is_unreserved_char(escape_digit(low)));
    }
}

/// Encoded bytes hold nothing but `%` and characters that are kept as they are.
proof fn lemma_percent_bytes_are_plain(bytes: Seq<u8>)
    ensures
        forall|i: int|
            0 <= i < percent_bytes(bytes).len() ==> is_encoded_char(
                #[trigger] percent_bytes(bytes)[i],
            ),
    decreases bytes.len(),
{
    if bytes.len() > 0 {
        lemma_percent_bytes_are_plain(bytes.drop_last());
        lemma_percent_byte_is_plain(bytes.last());
        let front = percent_bytes(bytes.drop_last());
        let back = percent_byte(bytes.last());
        assert forall|i: int| 0 <= i < percent_bytes(bytes).len() implies is_encoded_char(
            #[trigger] percent_bytes(bytes)[i],
        ) by {
            if i < front.len() {
                assert(percent_bytes(bytes)[i] == front[i]);
            } else {
                assert(percent_bytes(bytes)[i] == back[i - front.len()]);
            }
        }
    }
}

/// Bytes that are all unreserved are encoded as themselves.
proof fn lemma_unreserved_bytes_are_kept(bytes: Seq<u8>)
    requires
        forall|i: int| 0 <= i < bytes.len() ==> is_unreserved(#[trigger] bytes[i]),
    ensures
        percent_bytes(bytes).len() == bytes.len(),
        forall|i: int|
            0 <= i < bytes.len() ==> #[trigger] percent_bytes(bytes)[i] == bytes[i] as char,
    decreases bytes.len(),
{
    if bytes.len() > 0 {
        lemma_unreserved_bytes_are_kept(bytes.drop_last());
    }
}

/// A percent-encoded text holds nothing but `%`, letters and digits of ASCII, and
/// `-`, `.`, `_`, `~`: whatever `code` and `state` are, they cannot add a
/// parameter to the callback URL or end its query.
pub proof fn lemma_encoded_text_is_plain(text: Seq<char>)
    ensures
        forall|i: int|
            0 <= i < percent_encoded(text).len() ==> is_encoded_char(
                #[trigger] percent_encoded(text)[i],
            ),
{
    lemma_percent_bytes_are_plain(encode_utf8(text));
}

/// A text made of letters and digits of ASCII and of `-`, `.`, `_`, `~` is
/// encoded as itself.
pub proof fn lemma_unreserved_text_is_kept(text: Seq<char>)
    requires
        forall|i: int| 0 <= i < text.len() ==> is_unreserved_char(#[trigger] text[i]),
    ensures
        percent_encoded(text) == text,
{
    assert forall|i: int| 0 <= i < text.len() implies '\0' <= #[trigger] text[i] <= '\u{7f}' by {
        assert(is_unreserved_char(text[i]));
    }
    is_ascii_chars_encode_utf8(text);
    let bytes = encode_utf8(text);
    assert forall|i: int| 0 <= i < bytes.len() implies is_unreserved(#[trigger] bytes[i]) by {
        assert(is_unreserved_char(text[i]));
    }
    lemma_unreserved_bytes_are_kept(bytes);
    assert(percent_encoded(text) =~= text);
}

/// The URL that stands for a delivery on `port`.
pub open spec fn callback_url_text(port: u16, code: Seq<char>, state: Seq<char>) -> Seq<char> {
    "http://localhost:"@ + decimal_digits(port as nat) + "?code="@ + percent_encoded(code)
        + "&state="@ + percent_encoded(state)
}

/// Builds `http://localhost:{port}?code={code}&state={state}`, with `code` and
/// `state` percent-encoded.
pub fn callback_url(port: u16, code: &str, state: &str) -> (r: String)
    ensures
        r@ == callback_url_text(port, code@, state@),
{
    let mut url = String::from_str("http://localhost:");
    push_decimal(&mut url, port as u64);
    url.append("?code=");
    url.append(percent_encode(code).as_str());
    url.append("&state=");
    url.append(percent_encode(state).as_str());
    url
}

} // verus!
