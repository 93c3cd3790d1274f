//! The contract between the session middleware and the store behind it.

pub mod store;

use crate::middleware::session::backend::store::{
    content_bytes, dropped, persisted, stored, Sessions,
};
use crate::middleware::session::entropy::{random_bytes, secure_generator};
use crate::middleware::session::url_safe::{
    encode_url_safe_no_pad, encoded_len, is_url_safe_char, lemma_encoded_is_url_safe,
    lemma_encoded_len, lemma_encoded_len_is_injective, lemma_encoding_is_injective,
    url_safe_no_pad,
};
use crate::middleware::session::{SessionError, SessionIdentifier};
use vstd::prelude::*;

verus! {

/// The number of random bytes that an identifier is made of.
pub const ENTROPY_LEN: usize = 64;

/// The number of characters of an identifier.
pub const IDENTIFIER_LEN: usize = 86;

/// Whether `identifier` is the encoding of some `ENTROPY_LEN` bytes.
pub open spec fn is_issued_identifier(identifier: Seq<char>) -> bool {
    exists|entropy: Seq<u8>|
        entropy.len() == ENTROPY_LEN && identifier == #[trigger] url_safe_no_pad(entropy)
}

/// The identifier that stands for `entropy`.
pub fn identifier_from_entropy(entropy: &[u8]) -> (identifier: SessionIdentifier)
    requires
        encoded_len(entropy@.len()) <= usize::MAX,
    ensures
        identifier@ == url_safe_no_pad(entropy@),
        identifier@.len() == encoded_len(entropy@.len()),
        forall|i: int| 0 <= i < identifier@.len() ==> is_url_safe_char(#[trigger] identifier@[i]),
{
    proof {
        lemma_encoded_len(entropy@);
        lemma_encoded_is_url_safe(entropy@);
    }
    SessionIdentifier { value: encode_url_safe_no_pad(entropy) }
}

/// An issued identifier has `IDENTIFIER_LEN` characters, all of the
/// URL-safe alphabet and none of them padding, and whatever bytes it
/// decodes to are `ENTROPY_LEN` bytes.
pub proof fn lemma_issued_identifier_form(identifier: Seq<char>)
    requires
        is_issued_identifier(identifier),
    ensures
        identifier.len() == IDENTIFIER_LEN,
        forall|i: int| 0 <= i < identifier.len() ==> is_url_safe_char(#[trigger] identifier[i]),
        forall|bytes: Seq<u8>|
            identifier == #[trigger] url_safe_no_pad(bytes) ==> bytes.len() == ENTROPY_LEN,
{
    let entropy = choose|entropy: Seq<u8>|
        entropy.len() == ENTROPY_LEN && identifier == #[trigger] url_safe_no_pad(entropy);
    lemma_encoded_len(entropy);
    lemma_encoded_is_url_safe(entropy);
    assert forall|bytes: Seq<u8>| identifier == #[trigger] url_safe_no_pad(bytes) implies bytes.len()
        == ENTROPY_LEN by {
        lemma_encoded_len(bytes);
        lemma_encoded_len_is_injective(bytes.len(), entropy.len());
    }
}

/// Two identifiers are the same only where the bytes that they were made
/// of are the same: identifiers repeat no more often than the generator
/// does.
pub proof fn lemma_identifiers_differ_as_entropy_does(first: Seq<u8>, second: Seq<u8>)
    ensures
        url_safe_no_pad(first) == url_safe_no_pad(second) <==> first == second,
{
    if url_safe_no_pad(first) == url_safe_no_pad(second) {
        lemma_encoding_is_injective(first, second);
    }
}

/// The error with which a store fails to open.
#[verifier::external_type_specification]
#[verifier::external_body]
pub struct ExIoError(std::io::Error);

/// Creates new `Backend` values.
pub trait NewBackend: Sync {
    /// The type of `Backend` created by the implementor.
    type Instance: Backend + Send + 'static;

    /// Creates and returns a new `Backend` value, or fails where the
    /// storage medium cannot be set up.
    fn new_backend(&self) -> Result<Self::Instance, std::io::Error>;
}

/// A `Backend` receives session data and stores it, and recalls the
/// session data subsequently.
///
/// All session data is a sequence of bytes which the backend treats as
/// opaque: it stores and returns them as they are.
///
/// A call fails with `SessionError::Backend` where the storage medium
/// fails, and for no other reason. What a call that succeeds has done is
/// said over `sessions`.
pub trait Backend: Send {
    /// The sessions that the store holds. A backend says here what it
    /// holds, and its methods are held to that; one that says nothing
    /// counts as holding nothing.
    open spec fn sessions(&self) -> Sessions {
        Map::empty()
    }

    /// Creates a new random identifier for a session being created: the
    /// encoding of `ENTROPY_LEN` bytes from the operating system's secure
    /// generator. Where the system has none, the call does not return.
    fn random_identifier(&self) -> (identifier: SessionIdentifier)
        ensures
            is_issued_identifier(identifier@),
            identifier@.len() == IDENTIFIER_LEN,
            forall|i: int|
                0 <= i < identifier@.len() ==> is_url_safe_char(#[trigger] identifier@[i]),
    {
        let mut generator = secure_generator();
        let entropy = random_bytes(&mut generator, ENTROPY_LEN);
        identifier_from_entropy(entropy.as_slice())
    }

    /// Persists a session, either creating a new session or updating an
    /// existing session.
    fn persist_session(&mut self, identifier: SessionIdentifier, content: &[u8]) -> (result:
        Result<(), SessionError>)
        ensures
            result is Ok ==> final(self).sessions() == persisted(
                old(self).sessions(),
                identifier@,
                content@,
            ),
    ;

    /// Retrieves a session from the underlying storage: its content, or
    /// nothing where the store holds no session under `identifier`, which
    /// is no error.
    fn read_session(&self, identifier: SessionIdentifier) -> (result: Result<
        Option<Vec<u8>>,
        SessionError,
    >)
        ensures
            result matches Ok(found) ==> content_bytes(found) == stored(
                self.sessions(),
                identifier@,
            ),
    ;

    /// Drops a session from the underlying storage. That the store holds
    /// none under `identifier` is no error.
    fn drop_session(&mut self, identifier: SessionIdentifier) -> (result: Result<(), SessionError>)
        ensures
            result is Ok ==> final(self).sessions() == dropped(old(self).sessions(), identifier@),
    ;
}

} // verus!
