//! The session store as the gateway sees it: the keys it files sessions
//! under, the commands it sends, and a model of what a working store answers.

use vstd::prelude::*;
use crate::error::{ErrorKind, GatewayError, GatewayErrorView};
use crate::ident::SessionId;
use crate::models::{SessionData, SessionDataView};

verus! {

/// The store key of the session `id`: `session:` and the identifier's text.
pub open spec fn session_key_text(id: SessionId) -> Seq<char> {
    "session:"@ + id.text()
}

/// The store key of the session whose identifier is written `id_text`.
pub fn key_for_text(id_text: &str) -> (key: String)
    ensures
        key@ == "session:"@ + id_text@,
{
    let mut key = String::from_str("session:");
    key.append(id_text);
    key
}

/// The store key under which the session `id` is filed.
pub fn session_key(id: SessionId) -> (key: String)
    ensures
        key@ == session_key_text(id),
{
    let text = id.to_text();
    key_for_text(text.as_str())
}

/// A read of one session record.
#[derive(Debug)]
pub struct SessionQuery {
    pub id: SessionId,
    pub key: String,
}

/// A write of one session record.
#[derive(Debug)]
pub struct SessionWrite {
    pub key: String,
    pub session: SessionData,
}

/// A removal of one session record.
#[derive(Debug)]
pub struct SessionRemoval {
    pub id: SessionId,
    pub key: String,
}

impl SessionQuery {
    /// Whether this is the read of the session `id` under its key.
    pub open spec fn is_for(self, id: SessionId) -> bool {
        self.id == id && self.key@ == session_key_text(id)
    }

    /// The read of the session `id`.
    pub fn new(id: SessionId) -> (q: SessionQuery)
        ensures
            q.is_for(id),
    {
        SessionQuery { id, key: session_key(id) }
    }
}

impl SessionWrite {
    /// Whether this is the write of `session` under the key of its identifier.
    pub open spec fn is_for(self, session: SessionDataView) -> bool {
        self.session@ == session && self.key@ == session_key_text(session.session_id)
    }

    /// The write of `session`.
    pub fn new(session: SessionData) -> (w: SessionWrite)
        ensures
            w.is_for(session@),
    {
        let key = session_key(session.session_id);
        SessionWrite { key, session }
    }
}

impl SessionRemoval {
    /// Whether this is the removal of the session `id` under its key.
    pub open spec fn is_for(self, id: SessionId) -> bool {
        self.id == id && self.key@ == session_key_text(id)
    }

    /// The removal of the session `id`.
    pub fn new(id: SessionId) -> (r: SessionRemoval)
        ensures
            r.is_for(id),
    {
        SessionRemoval { id, key: session_key(id) }
    }
}

/// What a read of the store came to.
pub enum Lookup {
    /// The store holds this record.
    Found(SessionDataView),
    /// The store holds no record under the key.
    Absent,
    /// The store could not be asked, or what it holds could not be read.
    Failed(Seq<char>),
}

/// The outcome of a read as a handler receives it.
pub open spec fn lookup_view(loaded: Result<Option<SessionData>, String>) -> Lookup {
    match loaded {
        Ok(Some(session)) => Lookup::Found(session@),
        Ok(None) => Lookup::Absent,
        Err(detail) => Lookup::Failed(detail@),
    }
}

/// The error for a cookie that names a session the store does not hold.
pub open spec fn session_not_found() -> GatewayErrorView {
    GatewayErrorView { kind: ErrorKind::SessionNotFound, message: "Session not found"@ }
}

/// The error for a read that the store failed.
pub open spec fn load_failed(detail: Seq<char>) -> GatewayErrorView {
    GatewayErrorView { kind: ErrorKind::StoreError, message: "Failed to load session: "@ + detail }
}

/// The session that a read resolves to, or the error that it is answered
/// with: a missing record is a missing session, never a store failure.
pub open spec fn resolved(lookup: Lookup) -> Result<SessionDataView, GatewayErrorView> {
    match lookup {
        Lookup::Found(session) => Ok(session),
        Lookup::Absent => Err(session_not_found()),
        Lookup::Failed(detail) => Err(load_failed(detail)),
    }
}

/// The view of a resolution.
pub open spec fn resolution_view(r: Result<SessionData, GatewayError>) -> Result<
    SessionDataView,
    GatewayErrorView,
> {
    match r {
        Ok(session) => Ok(session@),
        Err(e) => Err(e@),
    }
}

/// Turns the outcome of a read into the session or the error to report.
pub fn resolve_session(loaded: Result<Option<SessionData>, String>) -> (out: Result<
    SessionData,
    GatewayError,
>)
    ensures
        resolution_view(out) == resolved(lookup_view(loaded)),
{
    match loaded {
        Ok(Some(session)) => Ok(session),
        Ok(None) => Err(GatewayError::new(ErrorKind::SessionNotFound, "Session not found")),
        Err(detail) => Err(
            GatewayError::with_detail(
                ErrorKind::StoreError,
                "Failed to load session: ",
                detail.as_str(),
            ),
        ),
    }
}

/// The records of a working store, by session identifier.
pub type StoreModel = Map<SessionId, SessionDataView>;

/// The store after a write of `session`.
pub open spec fn store_put(store: StoreModel, session: SessionDataView) -> StoreModel {
    store.insert(session.session_id, session)
}

/// The store after a removal of the session `id`.
pub open spec fn store_delete(store: StoreModel, id: SessionId) -> StoreModel {
    store.remove(id)
}

/// What a working store answers to a read of the session `id`.
pub open spec fn store_get(store: StoreModel, id: SessionId) -> Lookup {
    if store.dom().contains(id) {
        Lookup::Found(store[id])
    } else {
        Lookup::Absent
    }
}

/// A session that was written is read back unchanged, whatever the store
/// held before, and resolves to itself.
pub proof fn lemma_put_then_get(store: StoreModel, session: SessionDataView)
    ensures
        store_get(store_put(store, session), session.session_id) == Lookup::Found(session),
        resolved(store_get(store_put(store, session), session.session_id)) == Ok::<
            SessionDataView,
            GatewayErrorView,
        >(session),
{
}

/// A write or a removal of one session leaves every read of another session
/// as it was.
pub proof fn lemma_other_sessions_untouched(
    store: StoreModel,
    session: SessionDataView,
    other: SessionId,
)
    requires
        other != session.session_id,
    ensures
        store_get(store_put(store, session), other) == store_get(store, other),
        store_get(store_delete(store, session.session_id), other) == store_get(store, other),
{
}

/// A session that was removed is absent afterwards: a read of it resolves to
/// the session-not-found error, which is answered with 401 and not with 500.
pub proof fn lemma_delete_then_get(store: StoreModel, id: SessionId)
    ensures
        store_get(store_delete(store, id), id) == Lookup::Absent,
        resolved(store_get(store_delete(store, id), id)) == Err::<
            SessionDataView,
            GatewayErrorView,
        >(session_not_found()),
        crate::error::status_for(session_not_found().kind) == 401,
{
}

} // verus!
