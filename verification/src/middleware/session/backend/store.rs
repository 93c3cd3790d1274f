//! What a session store holds, and how the calls that succeed change it.

use vstd::prelude::*;

verus! {

/// What a store holds: the content under each identifier.
pub type Sessions = Map<Seq<char>, Seq<u8>>;

/// The store after `content` was persisted under `identifier`: the
/// content is there, in place of what was there before, and every other
/// session is as it was.
pub open spec fn persisted(sessions: Sessions, identifier: Seq<char>, content: Seq<u8>) -> Sessions {
    sessions.insert(identifier, content)
}

/// The store after the session under `identifier` was dropped: there is
/// none, and every other session is as it was.
pub open spec fn dropped(sessions: Sessions, identifier: Seq<char>) -> Sessions {
    sessions.remove(identifier)
}

/// What the store holds under `identifier`, if anything.
pub open spec fn stored(sessions: Sessions, identifier: Seq<char>) -> Option<Seq<u8>> {
    if sessions.contains_key(identifier) {
        Some(sessions[identifier])
    } else {
        None
    }
}

/// The bytes of a content that was read, if one was.
pub open spec fn content_bytes(found: Option<Vec<u8>>) -> Option<Seq<u8>> {
    match found {
        Some(content) => Some(content@),
        None => None,
    }
}

/// What a call that succeeded did to a store.
pub enum Change {
    /// A session was persisted.
    Persisted { identifier: Seq<char>, content: Seq<u8> },
    /// A session was dropped.
    Dropped { identifier: Seq<char> },
}

impl Change {
    /// The identifier that the call was made with.
    pub open spec fn identifier(self) -> Seq<char> {
        match self {
            Change::Persisted { identifier, .. } => identifier,
            Change::Dropped { identifier } => identifier,
        }
    }

    /// The store after the call.
    pub open spec fn on(self, sessions: Sessions) -> Sessions {
        match self {
            Change::Persisted { identifier, content } => persisted(sessions, identifier, content),
            Change::Dropped { identifier } => dropped(sessions, identifier),
        }
    }
}

/// The store after a run of calls that succeeded, the first of them first.
pub open spec fn after(sessions: Sessions, changes: Seq<Change>) -> Sessions
    decreases changes.len(),
{
    if changes.len() == 0 {
        sessions
    } else {
        changes.last().on(after(sessions, changes.drop_last()))
    }
}

/// Dropping a session that the store does not hold changes nothing, so
/// that dropping twice comes to dropping once; either way the store holds
/// none under that identifier afterwards.
pub proof fn lemma_drop_is_idempotent(sessions: Sessions, identifier: Seq<char>)
    ensures
        stored(sessions, identifier) is None ==> dropped(sessions, identifier) == sessions,
        dropped(dropped(sessions, identifier), identifier) == dropped(sessions, identifier),
        stored(dropped(sessions, identifier), identifier) is None,
{
}

/// Calls made with other identifiers leave what the store holds under
/// `identifier` as it is.
pub proof fn lemma_other_sessions_are_untouched(
    sessions: Sessions,
    changes: Seq<Change>,
    identifier: Seq<char>,
)
    requires
        forall|i: int| 0 <= i < changes.len() ==> (#[trigger] changes[i]).identifier() != identifier,
    ensures
        stored(after(sessions, changes), identifier) == stored(sessions, identifier),
    decreases changes.len(),
{
    if changes.len() > 0 {
        let earlier = changes.drop_last();
        assert forall|i: int| 0 <= i < earlier.len() implies (#[trigger] earlier[i]).identifier()
            != identifier by {
            assert(earlier[i] == changes[i]);
        }
        lemma_other_sessions_are_untouched(sessions, earlier, identifier);
    }
}

/// A lookup that completes under an identifier that was never persisted
/// finds nothing: a store that starts out empty holds nothing under it,
/// whatever else was persisted and whatever was dropped.
pub proof fn lemma_never_persisted_reads_none(
    changes: Seq<Change>,
    identifier: Seq<char>,
    found: Option<Vec<u8>>,
)
    requires
        forall|i: int|
            0 <= i < changes.len() && (#[trigger] changes[i]) is Persisted
                ==> changes[i].identifier() != identifier,
        content_bytes(found) == stored(after(Map::empty(), changes), identifier),
    ensures
        found is None,
{
    lemma_never_persisted_is_absent(changes, identifier);
}

/// Under an identifier that was never persisted a store that starts out
/// empty holds nothing.
pub proof fn lemma_never_persisted_is_absent(changes: Seq<Change>, identifier: Seq<char>)
    requires
        forall|i: int|
            0 <= i < changes.len() && (#[trigger] changes[i]) is Persisted
                ==> changes[i].identifier() != identifier,
    ensures
        stored(after(Map::empty(), changes), identifier) is None,
    decreases changes.len(),
{
    if changes.len() > 0 {
        let earlier = changes.drop_last();
        assert forall|i: int| 0 <= i < earlier.len() && (#[trigger] earlier[i]) is Persisted implies
            earlier[i].identifier() != identifier by {
            assert(earlier[i] == changes[i]);
        }
        lemma_never_persisted_is_absent(earlier, identifier);
    }
}

/// A lookup that completes after content was persisted under an
/// identifier finds that content, byte for byte, as long as that session
/// was neither dropped nor persisted anew in between.
pub proof fn lemma_persisted_reads_back(
    sessions: Sessions,
    identifier: Seq<char>,
    content: Seq<u8>,
    between: Seq<Change>,
    found: Option<Vec<u8>>,
)
    requires
        forall|i: int| 0 <= i < between.len() ==> (#[trigger] between[i]).identifier() != identifier,
        content_bytes(found) == stored(
            after(persisted(sessions, identifier, content), between),
            identifier,
        ),
    ensures
        found matches Some(bytes) && bytes@ == content,
{
    lemma_other_sessions_are_untouched(persisted(sessions, identifier, content), between, identifier);
}

/// Content persisted anew takes the place of what was there, and a
/// session that was dropped is there no more.
pub proof fn lemma_last_call_decides(
    sessions: Sessions,
    identifier: Seq<char>,
    first: Seq<u8>,
    second: Seq<u8>,
)
    ensures
        stored(persisted(persisted(sessions, identifier, first), identifier, second), identifier)
            == Some(second),
        stored(dropped(persisted(sessions, identifier, first), identifier), identifier) is None,
{
}

} // verus!
