//! Percent-encoding as a function on bytes.

use url::percent_encoding::percent_decode;
use vstd::prelude::*;
use vstd::utf8::*;

verus! {

/// The byte `%`, which opens an escape.
pub const PERCENT: u8 = 0x25;

/// The value of an ASCII hexadecimal digit of either case, if `b` is one.
pub open spec fn hex_value(b: u8) -> Option<int> {
    if 0x30 <= b <= 0x39 {
        Some(b - 0x30)
    } else if 0x41 <= b <= 0x46 {
        Some(b - 0x41 + 10)
    } else if 0x61 <= b <= 0x66 {
        Some(b - 0x61 + 10)
    } else {
        None
    }
}

/// Whether `s` opens with an escape: `%` and two hexadecimal digits.
pub open spec fn starts_with_escape(s: Seq<u8>) -> bool {
    &&& s.len() >= 3
    &&& s[0] == PERCENT
    &&& hex_value(s[1]) is Some
    &&& hex_value(s[2]) is Some
}

/// The byte that the escape at the start of `s` stands for.
pub open spec fn escaped_byte(s: Seq<u8>) -> u8
    recommends
        starts_with_escape(s),
{
    (16 * hex_value(s[1])->0 + hex_value(s[2])->0) as u8
}

/// The bytes that `s` stands for. Every escape gives the byte it names; a
/// `%` that opens no escape, like every other byte, stands for itself.
pub open spec fn percent_decoded(s: Seq<u8>) -> Seq<u8>
    decreases s.len(),
{
    if s.len() == 0 {
        Seq::empty()
    } else if starts_with_escape(s) {
        seq![escaped_byte(s)] + percent_decoded(s.skip(3))
    } else {
        seq![s[0]] + percent_decoded(s.skip(1))
    }
}

/// The text that `raw` stands for: its percent-decoded bytes read as UTF-8,
/// or nothing where those bytes are not well-formed UTF-8.
pub open spec fn decoded_text(raw: Seq<u8>) -> Option<Seq<char>> {
    let bytes = percent_decoded(raw);
    if valid_utf8(bytes) {
        Some(decode_utf8(bytes))
    } else {
        None
    }
}

/// The text that a percent-encoded string stands for, if any.
pub open spec fn percent_decoded_text(raw: Seq<char>) -> Option<Seq<char>> {
    decoded_text(encode_utf8(raw))
}

/// Percent-decodes `input` and reads the result as UTF-8.
///
/// Trusted: the body calls `percent_decode` of the `url` crate and
/// `decode_utf8` on the decoder it returns. The contract claims that the
/// decoder yields `percent_decoded(input)`, that `decode_utf8` succeeds
/// exactly when those bytes are well-formed UTF-8, and that the string it
/// then gives holds those bytes.
#[verifier::external_body]
pub(crate) fn percent_decode_utf8(input: &[u8]) -> (text: Option<String>)
    ensures
        text is Some <==> valid_utf8(percent_decoded(input@)),
        text matches Some(s) ==> s@ == decode_utf8(percent_decoded(input@)),
{
    match percent_decode(input).decode_utf8() {
        Ok(text) => Some(text.into_owned()),
        Err(_) => None,
    }
}

/// The upper-case hexadecimal digit of a value below sixteen.
pub open spec fn hex_digit(v: int) -> u8
    recommends
        0 <= v < 16,
{
    if v < 10 {
        (0x30 + v) as u8
    } else {
        (0x41 + v - 10) as u8
    }
}

/// The escape that stands for `b`.
pub open spec fn escape_of(b: u8) -> Seq<u8> {
    seq![PERCENT, hex_digit(b as int / 16), hex_digit(b as int % 16)]
}

/// A percent-encoding of `bytes`: a byte in `literal` is written as it is,
/// every other byte as its escape.
pub open spec fn percent_encoded(bytes: Seq<u8>, literal: Set<u8>) -> Seq<u8>
    decreases bytes.len(),
{
    if bytes.len() == 0 {
        Seq::empty()
    } else if literal.contains(bytes[0]) {
        seq![bytes[0]] + percent_encoded(bytes.skip(1), literal)
    } else {
        escape_of(bytes[0]) + percent_encoded(bytes.skip(1), literal)
    }
}

/// A byte other than `%` stands for itself, whatever follows it.
pub proof fn lemma_decoded_after_literal(b: u8, rest: Seq<u8>)
    requires
        b != PERCENT,
    ensures
        percent_decoded(seq![b] + rest) == seq![b] + percent_decoded(rest),
{
    assert((seq![b] + rest).skip(1) =~= rest);
}

/// An escape stands for its byte, whatever follows it.
pub proof fn lemma_decoded_after_escape(b: u8, rest: Seq<u8>)
    ensures
        percent_decoded(escape_of(b) + rest) == seq![b] + percent_decoded(rest),
{
    assert((escape_of(b) + rest).skip(3) =~= rest);
}

/// Decoding undoes every encoding that escapes `%`.
pub proof fn lemma_decoded_encoded(bytes: Seq<u8>, literal: Set<u8>)
    requires
        !literal.contains(PERCENT),
    ensures
        percent_decoded(percent_encoded(bytes, literal)) == bytes,
    decreases bytes.len(),
{
    if bytes.len() > 0 {
        let rest = percent_encoded(bytes.skip(1), literal);
        lemma_decoded_encoded(bytes.skip(1), literal);
        if literal.contains(bytes[0]) {
            lemma_decoded_after_literal(bytes[0], rest);
        } else {
            lemma_decoded_after_escape(bytes[0], rest);
        }
        assert(seq![bytes[0]] + bytes.skip(1) =~= bytes);
    }
}

/// A text comes back from every encoding of its UTF-8 bytes that escapes
/// `%`.
pub proof fn lemma_decoded_text_of_encoded(text: Seq<char>, literal: Set<u8>)
    requires
        !literal.contains(PERCENT),
    ensures
        decoded_text(percent_encoded(encode_utf8(text), literal)) == Some(text),
{
    lemma_decoded_encoded(encode_utf8(text), literal);
    encode_utf8_valid_utf8(text);
    encode_utf8_decode_utf8(text);
}

/// Decoding, encoding what came out and decoding again gives what the
/// first decoding gave, whichever bytes the encoding leaves as they are,
/// as long as it escapes `%`.
pub proof fn lemma_decoding_survives_reencoding(
    raw: Seq<char>,
    reencoded: Seq<char>,
    literal: Set<u8>,
)
    requires
        !literal.contains(PERCENT),
        percent_decoded_text(raw) is Some,
        encode_utf8(reencoded) == percent_encoded(
            encode_utf8(percent_decoded_text(raw)->0),
            literal,
        ),
    ensures
        percent_decoded_text(reencoded) == percent_decoded_text(raw),
{
    lemma_decoded_text_of_encoded(percent_decoded_text(raw)->0, literal);
}

/// The empty string stands for the empty text.
pub proof fn lemma_empty_decodes_to_empty()
    ensures
        percent_decoded_text(Seq::empty()) == Some(Seq::<char>::empty()),
{
}

} // verus!
