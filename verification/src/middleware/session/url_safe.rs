//! Base64 with the URL-safe alphabet and without padding, as a function
//! from bytes to text.

use vstd::prelude::*;

verus! {

/// The character that stands for six bits.
pub open spec fn url_safe_digit(v: int) -> char
    recommends
        0 <= v < 64,
{
    if v < 26 {
        ((0x41 + v) as u8) as char
    } else if v < 52 {
        ((0x61 + v - 26) as u8) as char
    } else if v < 62 {
        ((0x30 + v - 52) as u8) as char
    } else if v == 62 {
        '-'
    } else {
        '_'
    }
}

/// Whether `c` belongs to the URL-safe alphabet: a letter, a digit, `-` or
/// `_`. The padding character `=` does not.
pub open spec fn is_url_safe_char(c: char) -> bool {
    ||| 'A' <= c <= 'Z'
    ||| 'a' <= c <= 'z'
    ||| '0' <= c <= '9'
    ||| c == '-'
    ||| c == '_'
}

/// The four characters that stand for three bytes, most significant bits
/// first.
pub open spec fn url_safe_group(first: int, second: int, third: int) -> Seq<char> {
    seq![
        url_safe_digit(first / 4),
        url_safe_digit(first % 4 * 16 + second / 16),
        url_safe_digit(second % 16 * 4 + third / 64),
        url_safe_digit(third % 64),
    ]
}

/// The text that stands for `bytes`: one group for every three bytes. One
/// or two bytes left over are filled up with zero bits, and give the two
/// or three characters that hold bits of theirs.
pub open spec fn url_safe_no_pad(bytes: Seq<u8>) -> Seq<char>
    decreases bytes.len(),
{
    if bytes.len() == 0 {
        Seq::empty()
    } else if bytes.len() == 1 {
        url_safe_group(bytes[0] as int, 0, 0).take(2)
    } else if bytes.len() == 2 {
        url_safe_group(bytes[0] as int, bytes[1] as int, 0).take(3)
    } else {
        url_safe_group(bytes[0] as int, bytes[1] as int, bytes[2] as int) + url_safe_no_pad(
            bytes.skip(3),
        )
    }
}

/// The number of characters that stand for `n` bytes.
pub open spec fn encoded_len(n: nat) -> nat {
    if n % 3 == 0 {
        n / 3 * 4
    } else {
        n / 3 * 4 + n % 3 + 1
    }
}

/// Encodes `bytes`.
///
/// Trusted: the body calls `encode_config` of the `base64` crate with its
/// configuration `URL_SAFE_NO_PAD`. The contract claims that the string it
/// returns is `url_safe_no_pad(bytes)`. The call panics where the length of
/// the result does not fit in `usize`; the precondition leaves that out.
#[verifier::external_body]
pub(crate) fn encode_url_safe_no_pad(bytes: &[u8]) -> (text: String)
    requires
        encoded_len(bytes@.len()) <= usize::MAX,
    ensures
        text@ == url_safe_no_pad(bytes@),
{
    base64::encode_config(bytes, base64::URL_SAFE_NO_PAD)
}

/// An encoding has the length that `encoded_len` gives.
pub proof fn lemma_encoded_len(bytes: Seq<u8>)
    ensures
        url_safe_no_pad(bytes).len() == encoded_len(bytes.len()),
    decreases bytes.len(),
{
    if bytes.len() >= 3 {
        lemma_encoded_len(bytes.skip(3));
    }
}

/// Six bits give a character of the alphabet.
pub proof fn lemma_digit_is_url_safe(v: int)
    requires
        0 <= v < 64,
    ensures
        is_url_safe_char(url_safe_digit(v)),
{
}

/// A group holds characters of the alphabet only.
pub proof fn lemma_group_is_url_safe(first: u8, second: u8, third: u8)
    ensures
        url_safe_group(first as int, second as int, third as int).len() == 4,
        forall|i: int|
            0 <= i < 4 ==> is_url_safe_char(
                #[trigger] url_safe_group(first as int, second as int, third as int)[i],
            ),
{
    lemma_digit_is_url_safe(first as int / 4);
    lemma_digit_is_url_safe(first as int % 4 * 16 + second as int / 16);
    lemma_digit_is_url_safe(second as int % 16 * 4 + third as int / 64);
    lemma_digit_is_url_safe(third as int % 64);
}

/// An encoding holds characters of the alphabet only, and so no padding.
pub proof fn lemma_encoded_is_url_safe(bytes: Seq<u8>)
    ensures
        forall|i: int|
            0 <= i < url_safe_no_pad(bytes).len() ==> is_url_safe_char(
                #[trigger] url_safe_no_pad(bytes)[i],
            ),
    decreases bytes.len(),
{
    let text = url_safe_no_pad(bytes);
    if bytes.len() == 1 {
        lemma_group_is_url_safe(bytes[0], 0, 0);
    } else if bytes.len() == 2 {
        lemma_group_is_url_safe(bytes[0], bytes[1], 0);
    } else if bytes.len() >= 3 {
        lemma_group_is_url_safe(bytes[0], bytes[1], bytes[2]);
        lemma_encoded_is_url_safe(bytes.skip(3));
        let rest = url_safe_no_pad(bytes.skip(3));
        assert forall|i: int| 0 <= i < text.len() implies is_url_safe_char(#[trigger] text[i]) by {
            if i >= 4 {
                assert(text[i] == rest[i - 4]);
            }
        }
    }
}

/// Different values have different characters.
pub proof fn lemma_digit_is_injective(v: int, w: int)
    requires
        0 <= v < 64,
        0 <= w < 64,
        url_safe_digit(v) == url_safe_digit(w),
    ensures
        v == w,
{
    lemma_digit_is_url_safe(v);
    lemma_digit_is_url_safe(w);
}

/// Different numbers of bytes give different numbers of characters.
pub proof fn lemma_encoded_len_is_injective(n: nat, m: nat)
    requires
        encoded_len(n) == encoded_len(m),
    ensures
        n == m,
{
}

/// Groups that agree in their first two characters come from bytes that
/// agree in the twelve bits that those hold; groups that agree throughout
/// come from the same bytes.
proof fn lemma_group_is_injective(a: (u8, u8, u8), b: (u8, u8, u8), count: int)
    requires
        2 <= count <= 4,
        forall|i: int|
            0 <= i < count ==> url_safe_group(a.0 as int, a.1 as int, a.2 as int)[i]
                == url_safe_group(b.0 as int, b.1 as int, b.2 as int)[i],
    ensures
        a.0 == b.0,
        a.1 / 16 == b.1 / 16,
        count == 4 ==> a.1 == b.1 && a.2 == b.2,
{
    let ga = url_safe_group(a.0 as int, a.1 as int, a.2 as int);
    let gb = url_safe_group(b.0 as int, b.1 as int, b.2 as int);
    assert(ga[0] == gb[0] && ga[1] == gb[1]);
    lemma_digit_is_injective(a.0 as int / 4, b.0 as int / 4);
    lemma_digit_is_injective(
        a.0 as int % 4 * 16 + a.1 as int / 16,
        b.0 as int % 4 * 16 + b.1 as int / 16,
    );
    if count == 4 {
        assert(ga[2] == gb[2] && ga[3] == gb[3]);
        lemma_digit_is_injective(
            a.1 as int % 16 * 4 + a.2 as int / 64,
            b.1 as int % 16 * 4 + b.2 as int / 64,
        );
        lemma_digit_is_injective(a.2 as int % 64, b.2 as int % 64);
    }
}

/// Different bytes have different encodings.
pub proof fn lemma_encoding_is_injective(a: Seq<u8>, b: Seq<u8>)
    requires
        url_safe_no_pad(a) == url_safe_no_pad(b),
    ensures
        a == b,
    decreases a.len(),
{
    lemma_encoded_len(a);
    lemma_encoded_len(b);
    lemma_encoded_len_is_injective(a.len(), b.len());
    let ta = url_safe_no_pad(a);
    let tb = url_safe_no_pad(b);
    if a.len() == 0 {
    } else if a.len() == 1 {
        assert(ta[0] == tb[0] && ta[1] == tb[1]);
        lemma_group_is_injective((a[0], 0, 0), (b[0], 0, 0), 2);
    } else if a.len() == 2 {
        assert(ta[0] == tb[0] && ta[1] == tb[1] && ta[2] == tb[2]);
        lemma_group_is_injective((a[0], a[1], 0), (b[0], b[1], 0), 3);
        lemma_digit_is_injective(a[1] as int % 16 * 4, b[1] as int % 16 * 4);
    } else {
        assert(ta[0] == tb[0] && ta[1] == tb[1] && ta[2] == tb[2] && ta[3] == tb[3]);
        lemma_group_is_injective((a[0], a[1], a[2]), (b[0], b[1], b[2]), 4);
        assert(ta.skip(4) =~= url_safe_no_pad(a.skip(3)));
        assert(tb.skip(4) =~= url_safe_no_pad(b.skip(3)));
        lemma_encoding_is_injective(a.skip(3), b.skip(3));
        assert forall|i: int| 0 <= i < a.len() implies a[i] == b[i] by {
            if i >= 3 {
                assert(a[i] == a.skip(3)[i - 3]);
                assert(b[i] == b.skip(3)[i - 3]);
            }
        }
    }
}

} // verus!
