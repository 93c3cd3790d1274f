//! Sessions: the identifier that names one and the error a store reports.

pub mod backend;
pub mod entropy;
pub mod url_safe;

use vstd::prelude::*;
use vstd::std_specs::cmp::PartialEqSpecImpl;

verus! {

/// The value that names a session to the client and to the store.
///
/// It is a token: nobody but the backend that issued it reads anything
/// into its characters.
#[derive(Debug)]
pub struct SessionIdentifier {
    /// The value which is passed as a cookie or a header.
    pub value: String,
}

impl View for SessionIdentifier {
    type V = Seq<char>;

    open spec fn view(&self) -> Seq<char> {
        self.value@
    }
}

impl Clone for SessionIdentifier {
    fn clone(&self) -> (copy: Self)
        ensures
            copy@ == self@,
    {
        SessionIdentifier { value: self.value.clone() }
    }
}

impl PartialEq for SessionIdentifier {
    fn eq(&self, other: &Self) -> (equal: bool) {
        self.value == other.value
    }
}

impl PartialEqSpecImpl for SessionIdentifier {
    open spec fn obeys_eq_spec() -> bool {
        true
    }

    open spec fn eq_spec(&self, other: &Self) -> bool {
        self@ == other@
    }
}

/// The ways in which work on a session fails.
#[derive(Debug)]
pub enum SessionError {
    /// The storage medium failed; the string says how.
    Backend(String),
}

} // verus!
