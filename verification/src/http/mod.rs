//! Helpers for HTTP related data.

pub mod form_urlencoded;
pub mod percent_encoding;

use crate::http::form_urlencoded::{form_decoded_text, lemma_plus_as_space_utf8, replace_plus};
use crate::http::percent_encoding::{percent_decode_utf8, percent_decoded_text};
use vstd::prelude::*;
use vstd::std_specs::cmp::PartialEqSpecImpl;

verus! {

/// The text of what a decoding gave, if it gave anything.
pub open spec fn text_of<T: View<V = Seq<char>>>(decoded: Option<T>) -> Option<Seq<char>> {
    match decoded {
        Some(d) => Some(d@),
        None => None,
    }
}

/// Data that has been percent-decoded and is valid UTF-8.
#[derive(Debug)]
pub struct PercentDecoded {
    val: String,
}

impl View for PercentDecoded {
    type V = Seq<char>;

    closed spec fn view(&self) -> Seq<char> {
        self.val@
    }
}

impl PercentDecoded {
    /// Decodes data given in percent-encoded form and checks that the result
    /// is valid UTF-8. Gives nothing where it is not.
    ///
    /// A `%` that two hexadecimal digits do not follow is no error: it is
    /// kept as it stands.
    pub fn new(raw: &str) -> (decoded: Option<Self>)
        ensures
            text_of(decoded) == percent_decoded_text(raw@),
    {
        match percent_decode_utf8(raw.as_bytes()) {
            Some(val) => Some(PercentDecoded { val }),
            None => None,
        }
    }

    /// The decoded data.
    pub fn val(&self) -> (val: &str)
        ensures
            val@ == self@,
    {
        self.val.as_str()
    }
}

impl Clone for PercentDecoded {
    fn clone(&self) -> (copy: Self)
        ensures
            copy@ == self@,
    {
        PercentDecoded { val: self.val.clone() }
    }
}

impl PartialEq for PercentDecoded {
    fn eq(&self, other: &Self) -> (equal: bool) {
        self.val == other.val
    }
}

impl PartialEqSpecImpl for PercentDecoded {
    open spec fn obeys_eq_spec() -> bool {
        true
    }

    open spec fn eq_spec(&self, other: &Self) -> bool {
        self@ == other@
    }
}

/// Data that has been decoded from a form-urlencoded source and is valid
/// UTF-8.
#[derive(Debug, Hash)]
pub struct FormUrlDecoded {
    val: String,
}

impl View for FormUrlDecoded {
    type V = Seq<char>;

    closed spec fn view(&self) -> Seq<char> {
        self.val@
    }
}

impl FormUrlDecoded {
    /// Decodes data given in www-form-urlencoded form and checks that the
    /// result is valid UTF-8. Gives nothing where it is not.
    ///
    /// Every `+` is read as a space before the escapes are, so that an
    /// escaped `+` stays one.
    pub fn new(raw: &str) -> (decoded: Option<Self>)
        ensures
            text_of(decoded) == form_decoded_text(raw@),
    {
        let spaced = replace_plus(raw.as_bytes());
        proof {
            lemma_plus_as_space_utf8(raw@);
        }
        match percent_decode_utf8(spaced.as_slice()) {
            Some(val) => Some(FormUrlDecoded { val }),
            None => None,
        }
    }

    /// The decoded data.
    pub fn val(&self) -> (val: &str)
        ensures
            val@ == self@,
    {
        self.val.as_str()
    }
}

impl PartialEq for FormUrlDecoded {
    fn eq(&self, other: &Self) -> (equal: bool) {
        self.val == other.val
    }
}

impl Eq for FormUrlDecoded {

}

impl PartialEqSpecImpl for FormUrlDecoded {
    open spec fn obeys_eq_spec() -> bool {
        true
    }

    open spec fn eq_spec(&self, other: &Self) -> bool {
        self@ == other@
    }
}

/// Percent-decoding is a function of the input: two decodings of one
/// string either both give nothing or give the same text.
pub proof fn lemma_percent_decoding_is_deterministic(
    raw: Seq<char>,
    first: Option<PercentDecoded>,
    second: Option<PercentDecoded>,
)
    requires
        text_of(first) == percent_decoded_text(raw),
        text_of(second) == percent_decoded_text(raw),
    ensures
        first is Some <==> second is Some,
        first is Some ==> first->0@ == second->0@,
{
}

/// Form decoding is a function of the input: two decodings of one string
/// either both give nothing or give the same text.
pub proof fn lemma_form_decoding_is_deterministic(
    raw: Seq<char>,
    first: Option<FormUrlDecoded>,
    second: Option<FormUrlDecoded>,
)
    requires
        text_of(first) == form_decoded_text(raw),
        text_of(second) == form_decoded_text(raw),
    ensures
        first is Some <==> second is Some,
        first is Some ==> first->0@ == second->0@,
{
}

} // verus!
