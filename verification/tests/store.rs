use media_savant_api::error::ErrorKind;
use media_savant_api::ident::SessionId;
use media_savant_api::models::SessionData;
use media_savant_api::store::{
    key_for_text, resolve_session, session_key, SessionQuery, SessionRemoval, SessionWrite,
};

const SAMPLE: u128 = 0xa1a2a3a4b1b2c1c2d1d2d3d4d5d6d7d8;

fn session(bits: u128) -> SessionData {
    SessionData {
        session_id: SessionId { bits },
        user_id: "1".to_string(),
        username: "u".to_string(),
        access_token: "tok".to_string(),
        server_url: "http://h".to_string(),
        device_id: "dev".to_string(),
    }
}

#[test]
fn key_is_prefix_and_identifier_text() {
    assert_eq!(
        session_key(SessionId { bits: SAMPLE }),
        "session:a1a2a3a4-b1b2-c1c2-d1d2-d3d4d5d6d7d8"
    );
    assert_eq!(session_key(SessionId { bits: 0 }), "session:00000000-0000-0000-0000-000000000000");
}

#[test]
fn key_prefixes_whatever_text_it_is_given() {
    assert_eq!(key_for_text("abc"), "session:abc");
    assert_eq!(key_for_text(""), "session:");
}

#[test]
fn commands_are_filed_under_the_session_key() {
    let id = SessionId { bits: SAMPLE };
    let query = SessionQuery::new(id);
    assert_eq!(query.id, id);
    assert_eq!(query.key, "session:a1a2a3a4-b1b2-c1c2-d1d2-d3d4d5d6d7d8");
    let removal = SessionRemoval::new(id);
    assert_eq!(removal.id, id);
    assert_eq!(removal.key, query.key);
    let write = SessionWrite::new(session(SAMPLE));
    assert_eq!(write.key, query.key);
    assert_eq!(write.session.session_id, id);
    assert_eq!(write.session.access_token, "tok");
}

#[test]
fn a_found_record_resolves_to_itself() {
    let resolved = resolve_session(Ok(Some(session(7)))).unwrap();
    assert_eq!(resolved.session_id, SessionId { bits: 7 });
    assert_eq!(resolved.user_id, "1");
    assert_eq!(resolved.username, "u");
    assert_eq!(resolved.access_token, "tok");
    assert_eq!(resolved.server_url, "http://h");
    assert_eq!(resolved.device_id, "dev");
}

#[test]
fn an_absent_record_is_a_missing_session() {
    let err = resolve_session(Ok(None)).unwrap_err();
    assert_eq!(err.kind, ErrorKind::SessionNotFound);
    assert_eq!(err.message, "Session not found");
    assert_eq!(err.status(), 401);
}

#[test]
fn a_failed_read_is_a_store_error() {
    let err = resolve_session(Err("connection reset".to_string())).unwrap_err();
    assert_eq!(err.kind, ErrorKind::StoreError);
    assert_eq!(err.message, "Failed to load session: connection reset");
    assert_eq!(err.status(), 500);
}
