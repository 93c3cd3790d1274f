use gotham::middleware::session::backend::{
    identifier_from_entropy, Backend, NewBackend, ENTROPY_LEN, IDENTIFIER_LEN,
};
use gotham::middleware::session::{SessionError, SessionIdentifier};
use std::collections::{HashMap, HashSet};
use std::io;

struct Memory {
    sessions: HashMap<String, Vec<u8>>,
}

impl Backend for Memory {
    fn persist_session(
        &mut self,
        identifier: SessionIdentifier,
        content: &[u8],
    ) -> Result<(), SessionError> {
        self.sessions.insert(identifier.value, content.to_vec());
        Ok(())
    }

    fn read_session(&self, identifier: SessionIdentifier) -> Result<Option<Vec<u8>>, SessionError> {
        Ok(self.sessions.get(&identifier.value).cloned())
    }

    fn drop_session(&mut self, identifier: SessionIdentifier) -> Result<(), SessionError> {
        self.sessions.remove(&identifier.value);
        Ok(())
    }
}

struct Unplugged;

impl Backend for Unplugged {
    fn persist_session(&mut self, _: SessionIdentifier, _: &[u8]) -> Result<(), SessionError> {
        Err(SessionError::Backend("the medium is gone".to_string()))
    }

    fn read_session(&self, _: SessionIdentifier) -> Result<Option<Vec<u8>>, SessionError> {
        Err(SessionError::Backend("the medium is gone".to_string()))
    }

    fn drop_session(&mut self, _: SessionIdentifier) -> Result<(), SessionError> {
        Err(SessionError::Backend("the medium is gone".to_string()))
    }
}

struct NewMemory;

impl NewBackend for NewMemory {
    type Instance = Memory;

    fn new_backend(&self) -> io::Result<Memory> {
        Ok(Memory { sessions: HashMap::new() })
    }
}

struct NoMedium;

impl NewBackend for NoMedium {
    type Instance = Memory;

    fn new_backend(&self) -> io::Result<Memory> {
        Err(io::Error::new(io::ErrorKind::NotFound, "no medium"))
    }
}

fn memory() -> Memory {
    NewMemory.new_backend().unwrap()
}

fn named(value: &str) -> SessionIdentifier {
    SessionIdentifier { value: value.to_string() }
}

fn is_url_safe(c: char) -> bool {
    c.is_ascii_alphanumeric() || c == '-' || c == '_'
}

#[test]
fn random_identifier_has_the_wire_form() {
    let backend = memory();
    for _ in 0..100 {
        let identifier = backend.random_identifier();
        assert_eq!(identifier.value.len(), 86);
        assert_eq!(identifier.value.len(), IDENTIFIER_LEN);
        assert_eq!(identifier.value.chars().count(), 86);
        assert!(identifier.value.chars().all(is_url_safe));
        assert!(!identifier.value.contains('='));
    }
}

#[test]
fn random_identifier_decodes_to_64_bytes() {
    let backend = memory();
    for _ in 0..100 {
        let identifier = backend.random_identifier();
        let bytes = base64::decode_config(&identifier.value, base64::URL_SAFE_NO_PAD).unwrap();
        assert_eq!(bytes.len(), 64);
        assert_eq!(bytes.len(), ENTROPY_LEN);
        assert_eq!(identifier_from_entropy(&bytes).value, identifier.value);
    }
}

#[test]
fn random_identifiers_do_not_repeat() {
    let backend = memory();
    let first = backend.random_identifier();
    let second = backend.random_identifier();
    assert!(first != second);
    let mut seen: HashSet<String> = HashSet::new();
    for _ in 0..10_000 {
        assert!(seen.insert(backend.random_identifier().value));
    }
    assert_eq!(seen.len(), 10_000);
}

#[test]
fn random_identifier_leaves_the_store_alone() {
    let mut backend = memory();
    backend.persist_session(named("kept"), b"content").unwrap();
    let identifier = backend.random_identifier();
    assert_eq!(backend.sessions.len(), 1);
    assert_eq!(backend.read_session(identifier).unwrap(), None);
    assert_eq!(backend.read_session(named("kept")).unwrap(), Some(b"content".to_vec()));
}

#[test]
fn random_identifier_is_there_for_every_backend() {
    let identifier = Unplugged.random_identifier();
    assert_eq!(identifier.value.len(), 86);
}

#[test]
fn identifier_from_entropy_encodes_known_bytes() {
    assert_eq!(identifier_from_entropy(b"").value, "");
    assert_eq!(identifier_from_entropy(b"f").value, "Zg");
    assert_eq!(identifier_from_entropy(b"fo").value, "Zm8");
    assert_eq!(identifier_from_entropy(b"foo").value, "Zm9v");
    assert_eq!(identifier_from_entropy(b"foob").value, "Zm9vYg");
    assert_eq!(identifier_from_entropy(b"fooba").value, "Zm9vYmE");
    assert_eq!(identifier_from_entropy(b"foobar").value, "Zm9vYmFy");
    assert_eq!(identifier_from_entropy(&[0xfb, 0xff]).value, "-_8");
    assert_eq!(identifier_from_entropy(&[0xfb, 0xff, 0xbe]).value, "-_--");
    assert_eq!(identifier_from_entropy(&[0xff; 3]).value, "____");
    assert_eq!(identifier_from_entropy(&[0x00, 0x10, 0x83]).value, "ABCD");
}

#[test]
fn identifier_from_entropy_of_64_bytes_has_86_characters() {
    assert_eq!(identifier_from_entropy(&[0u8; 64]).value, "A".repeat(86));
    let ff = identifier_from_entropy(&[0xffu8; 64]).value;
    assert_eq!(ff.len(), 86);
    assert_eq!(&ff[..84], "_".repeat(84));
    assert_eq!(&ff[84..], "_w");
    let counting: Vec<u8> = (0u8..64).collect();
    let identifier = identifier_from_entropy(&counting);
    assert_eq!(
        identifier.value,
        "AAECAwQFBgcICQoLDA0ODxAREhMUFRYXGBkaGxwdHh8gISIjJCUmJygpKissLS4vMDEyMzQ1Njc4OTo7PD0-Pw"
    );
}

#[test]
fn identifier_from_entropy_tells_different_bytes_apart() {
    let mut seen: HashSet<String> = HashSet::new();
    for first in 0u8..=255 {
        assert!(seen.insert(identifier_from_entropy(&[first]).value));
        assert!(seen.insert(identifier_from_entropy(&[first, 0]).value));
        assert!(seen.insert(identifier_from_entropy(&[0, first, 1]).value));
    }
    assert_eq!(seen.len(), 3 * 256);
}

#[test]
fn session_identifiers_compare_by_their_value() {
    assert!(named("abc") == named("abc"));
    assert!(named("abc") != named("abd"));
    assert!(named("abc") != named("ABC"));
    assert!(named("abc") != named("abc "));
    let identifier = named("token");
    let copy = identifier.clone();
    assert!(copy == identifier);
    assert_eq!(copy.value, "token");
}

#[test]
fn drop_session_of_what_was_never_persisted_succeeds() {
    let mut backend = memory();
    let identifier = backend.random_identifier();
    assert!(backend.drop_session(identifier.clone()).is_ok());
    assert!(backend.drop_session(identifier).is_ok());
    assert!(backend.sessions.is_empty());
}

#[test]
fn drop_session_twice_is_drop_session_once() {
    let mut backend = memory();
    backend.persist_session(named("a"), b"1").unwrap();
    backend.persist_session(named("b"), b"2").unwrap();
    assert!(backend.drop_session(named("a")).is_ok());
    let after_first = backend.sessions.clone();
    assert!(backend.drop_session(named("a")).is_ok());
    assert_eq!(backend.sessions, after_first);
    assert_eq!(backend.read_session(named("a")).unwrap(), None);
    assert_eq!(backend.read_session(named("b")).unwrap(), Some(b"2".to_vec()));
}

#[test]
fn read_session_of_what_was_never_persisted_gives_none() {
    let mut backend = memory();
    let identifier = backend.random_identifier();
    assert!(matches!(backend.read_session(identifier.clone()), Ok(None)));
    backend.persist_session(named("another"), b"content").unwrap();
    assert!(matches!(backend.read_session(identifier), Ok(None)));
}

#[test]
fn persisted_content_is_read_back_byte_for_byte() {
    let mut backend = memory();
    let identifier = backend.random_identifier();
    let content: Vec<u8> = (0u8..=255).chain([0, 0, 255, 10, 13]).collect();
    backend.persist_session(identifier.clone(), &content).unwrap();
    assert_eq!(backend.read_session(identifier.clone()).unwrap(), Some(content.clone()));
    backend.persist_session(named("another"), b"other").unwrap();
    backend.drop_session(named("third")).unwrap();
    assert_eq!(backend.read_session(identifier).unwrap(), Some(content));
}

#[test]
fn persisted_empty_content_is_a_session() {
    let mut backend = memory();
    backend.persist_session(named("empty"), b"").unwrap();
    assert_eq!(backend.read_session(named("empty")).unwrap(), Some(Vec::new()));
}

#[test]
fn persist_session_overwrites() {
    let mut backend = memory();
    backend.persist_session(named("a"), b"first").unwrap();
    backend.persist_session(named("a"), b"second").unwrap();
    assert_eq!(backend.read_session(named("a")).unwrap(), Some(b"second".to_vec()));
    assert_eq!(backend.sessions.len(), 1);
}

#[test]
fn dropped_session_is_gone() {
    let mut backend = memory();
    backend.persist_session(named("a"), b"content").unwrap();
    backend.drop_session(named("a")).unwrap();
    assert_eq!(backend.read_session(named("a")).unwrap(), None);
}

#[test]
fn a_failing_medium_reports_a_backend_error() {
    let mut backend = Unplugged;
    let SessionError::Backend(message) = backend.persist_session(named("a"), b"x").unwrap_err();
    assert_eq!(message, "the medium is gone");
    assert!(matches!(backend.read_session(named("a")), Err(SessionError::Backend(_))));
    assert!(matches!(backend.drop_session(named("a")), Err(SessionError::Backend(_))));
    let shown = format!("{:?}", SessionError::Backend("down".to_string()));
    assert!(shown.contains("Backend"));
    assert!(shown.contains("down"));
}

#[test]
fn new_backend_makes_separate_stores() {
    let mut first = NewMemory.new_backend().unwrap();
    let second = NewMemory.new_backend().unwrap();
    first.persist_session(named("a"), b"content").unwrap();
    assert_eq!(second.read_session(named("a")).unwrap(), None);
    assert_eq!(first.read_session(named("a")).unwrap(), Some(b"content".to_vec()));
}

#[test]
fn new_backend_fails_with_an_io_error() {
    let error = NoMedium.new_backend().err().unwrap();
    assert_eq!(error.kind(), io::ErrorKind::NotFound);
}
