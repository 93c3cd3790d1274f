//! The `+` convention of `application/x-www-form-urlencoded` data.

use crate::http::percent_encoding::{
    decoded_text, escape_of, lemma_decoded_after_escape, lemma_decoded_after_literal,
    lemma_empty_decodes_to_empty, percent_decoded, PERCENT,
};
use vstd::prelude::*;
use vstd::utf8::*;

verus! {

/// The byte `+`, which a form writes for a space.
pub const PLUS: u8 = 0x2b;

/// The byte of a space.
pub const SPACE: u8 = 0x20;

/// `text` with a space in place of every `+`.
pub open spec fn plus_as_space(text: Seq<char>) -> Seq<char> {
    text.map_values(|c: char| if c == '+' { ' ' } else { c })
}

/// `bytes` with the byte of a space in place of every byte of a `+`.
pub open spec fn plus_as_space_bytes(bytes: Seq<u8>) -> Seq<u8> {
    bytes.map_values(|b: u8| if b == PLUS { SPACE } else { b })
}

/// The text that a form-urlencoded string stands for, if any: every `+` is
/// read as a space first, and the escapes after that, so that an escaped
/// `+` stays one.
pub open spec fn form_decoded_text(raw: Seq<char>) -> Option<Seq<char>> {
    decoded_text(encode_utf8(plus_as_space(raw)))
}

/// Copies `raw`, writing a space for every `+`.
pub(crate) fn replace_plus(raw: &[u8]) -> (spaced: Vec<u8>)
    ensures
        spaced@ == plus_as_space_bytes(raw@),
{
    let mut spaced: Vec<u8> = Vec::new();
    let mut i: usize = 0;
    while i < raw.len()
        invariant
            i <= raw.len(),
            spaced@ == plus_as_space_bytes(raw@.take(i as int)),
        decreases raw.len() - i,
    {
        let byte = raw[i];
        spaced.push(if byte == PLUS { SPACE } else { byte });
        i += 1;
    }
    spaced
}

/// No byte of a character other than `+` is the byte of a `+`, and the
/// bytes of a `+` turn into those of a space.
proof fn lemma_plus_as_space_scalar(c: char)
    ensures
        plus_as_space_bytes(encode_scalar(c as u32)) == encode_scalar(
            (if c == '+' {
                ' '
            } else {
                c
            }) as u32,
        ),
{
    let s = c as u32;
    char_is_scalar(c);
    let bytes = encode_scalar(s);
    if has_width_1_encoding(s) {
        assert(s <= 0x7f ==> (((s & 0x7f) as u8 == 0x2bu8) <==> s == 0x2b)) by (bit_vector);
        assert((0x20u32 & 0x7f) as u8 == 0x20u8) by (bit_vector);
    } else {
        assert(0xc0u8 | ((s >> 6) & 0x1f) as u8 != 0x2bu8) by (bit_vector);
        assert(0xe0u8 | ((s >> 12) & 0x0f) as u8 != 0x2bu8) by (bit_vector);
        assert(0xf0u8 | ((s >> 18) & 0x7) as u8 != 0x2bu8) by (bit_vector);
        assert(0x80u8 | (s & 0x3f) as u8 != 0x2bu8) by (bit_vector);
        assert(0x80u8 | ((s >> 6) & 0x3f) as u8 != 0x2bu8) by (bit_vector);
        assert(0x80u8 | ((s >> 12) & 0x3f) as u8 != 0x2bu8) by (bit_vector);
    }
}

/// Writing spaces for `+` in a text and in its UTF-8 bytes comes to the
/// same: no byte of another character is the byte of a `+`.
pub proof fn lemma_plus_as_space_utf8(text: Seq<char>)
    ensures
        plus_as_space_bytes(encode_utf8(text)) == encode_utf8(plus_as_space(text)),
    decreases text.len(),
{
    if text.len() > 0 {
        let rest = text.drop_first();
        lemma_plus_as_space_utf8(rest);
        lemma_plus_as_space_scalar(text[0]);
        assert(plus_as_space(text).drop_first() =~= plus_as_space(rest));
        assert(plus_as_space_bytes(encode_scalar(text[0] as u32) + encode_utf8(rest))
            =~= plus_as_space_bytes(encode_scalar(text[0] as u32)) + plus_as_space_bytes(
            encode_utf8(rest),
        ));
    }
}

/// A form encoding of `bytes`: a space is written as `+`, another byte in
/// `literal` as it is, and every other byte as its escape.
pub open spec fn form_encoded(bytes: Seq<u8>, literal: Set<u8>) -> Seq<u8>
    decreases bytes.len(),
{
    if bytes.len() == 0 {
        Seq::empty()
    } else if bytes[0] == SPACE {
        seq![PLUS] + form_encoded(bytes.skip(1), literal)
    } else if literal.contains(bytes[0]) {
        seq![bytes[0]] + form_encoded(bytes.skip(1), literal)
    } else {
        escape_of(bytes[0]) + form_encoded(bytes.skip(1), literal)
    }
}

/// Reading `+` as a space and then the escapes undoes every form encoding
/// that escapes `%` and `+`.
pub proof fn lemma_form_decoded_encoded(bytes: Seq<u8>, literal: Set<u8>)
    requires
        !literal.contains(PERCENT),
        !literal.contains(PLUS),
    ensures
        percent_decoded(plus_as_space_bytes(form_encoded(bytes, literal))) == bytes,
    decreases bytes.len(),
{
    if bytes.len() > 0 {
        let rest = plus_as_space_bytes(form_encoded(bytes.skip(1), literal));
        lemma_form_decoded_encoded(bytes.skip(1), literal);
        if bytes[0] == SPACE || literal.contains(bytes[0]) {
            assert(plus_as_space_bytes(form_encoded(bytes, literal)) =~= seq![bytes[0]] + rest);
            lemma_decoded_after_literal(bytes[0], rest);
        } else {
            assert(plus_as_space_bytes(form_encoded(bytes, literal)) =~= escape_of(bytes[0])
                + rest);
            lemma_decoded_after_escape(bytes[0], rest);
        }
        assert(seq![bytes[0]] + bytes.skip(1) =~= bytes);
    }
}

/// A text comes back from every form encoding of its UTF-8 bytes that
/// escapes `%` and `+`.
pub proof fn lemma_form_decoded_text_of_encoded(
    text: Seq<char>,
    encoded: Seq<char>,
    literal: Set<u8>,
)
    requires
        !literal.contains(PERCENT),
        !literal.contains(PLUS),
        encode_utf8(encoded) == form_encoded(encode_utf8(text), literal),
    ensures
        form_decoded_text(encoded) == Some(text),
{
    lemma_plus_as_space_utf8(encoded);
    lemma_form_decoded_encoded(encode_utf8(text), literal);
    encode_utf8_valid_utf8(text);
    encode_utf8_decode_utf8(text);
}

/// Decoding a form string, encoding what came out and decoding again gives
/// what the first decoding gave, whichever bytes the encoding leaves as
/// they are, as long as it escapes `%` and `+`.
pub proof fn lemma_form_decoding_survives_reencoding(
    raw: Seq<char>,
    reencoded: Seq<char>,
    literal: Set<u8>,
)
    requires
        !literal.contains(PERCENT),
        !literal.contains(PLUS),
        form_decoded_text(raw) is Some,
        encode_utf8(reencoded) == form_encoded(encode_utf8(form_decoded_text(raw)->0), literal),
    ensures
        form_decoded_text(reencoded) == form_decoded_text(raw),
{
    lemma_form_decoded_text_of_encoded(form_decoded_text(raw)->0, reencoded, literal);
}

/// The empty form string stands for the empty text.
pub proof fn lemma_empty_form_decodes_to_empty()
    ensures
        form_decoded_text(Seq::empty()) == Some(Seq::<char>::empty()),
{
    lemma_empty_decodes_to_empty();
}

} // verus!
