//! The session manager: login, resolution of the session cookie, logout and
//! introspection, each as the decisions taken between the calls to the
//! upstream server and the store.

use vstd::prelude::*;
use crate::auth_header::{auth_header_text, build_client_header_for};
use crate::config::{AppConfig, AppConfigView, AuthConfig, AuthConfigView};
use crate::error::{ErrorKind, GatewayError, GatewayErrorView};
use crate::fields::{fields_view, first_value, lookup, Field};
use crate::ident::{is_generated_id_text, is_random_layout, new_device_id, SessionId};
use crate::models::{
    ApiResponse,
    JellyfinAuthRequest,
    JellyfinAuthResponse,
    LoginRequest,
    SessionData,
    SessionDataView,
    SessionInfo,
};
use crate::reply::{Reply, SameSite, SessionCookie, SessionCookieView};
use crate::store::{
    resolved,
    store_delete,
    store_get,
    store_put,
    session_not_found,
    SessionQuery,
    SessionRemoval,
    SessionWrite,
    StoreModel,
};
use crate::text::{ends_without, trim_end_slashes, trim_trailing};
use crate::upstream::{
    credential_field,
    credential_header_name,
    status_display,
    UpstreamAnswer,
    UpstreamRequest,
};

verus! {

/// The session that a request asks for: the identifier that the first cookie
/// named `cookie_name` denotes. A request without that cookie, or whose
/// cookie does not hold an identifier, asks for none.
pub open spec fn requested_session(
    cookie_name: Seq<char>,
    cookies: Seq<(Seq<char>, Seq<char>)>,
) -> Option<SessionId> {
    match first_value(cookies, cookie_name) {
        Some(value) => SessionId::parsed(value),
        None => None,
    }
}

/// The error for a request without a usable session cookie.
pub open spec fn no_session() -> GatewayErrorView {
    GatewayErrorView { kind: ErrorKind::NoSession, message: "Missing session"@ }
}

/// Reads the session identifier from the cookies of a request.
pub fn session_id_from_request(auth: &AuthConfig, cookies: &Vec<Field>) -> (out: Option<SessionId>)
    ensures
        out == requested_session(auth.cookie_name@, fields_view(cookies@)),
{
    match lookup(cookies, auth.cookie_name.as_str()) {
        Some(value) => SessionId::parse(value),
        None => None,
    }
}

/// Opens a protected request: the read of the session that its cookie names,
/// or, where it names none, the refusal, with nothing asked of the store.
pub fn authorize(auth: &AuthConfig, cookies: &Vec<Field>) -> (out: Result<
    SessionQuery,
    GatewayError,
>)
    ensures
        match requested_session(auth.cookie_name@, fields_view(cookies@)) {
            Some(id) => out matches Ok(query) && query.is_for(id),
            None => out matches Err(e) && e@ == no_session(),
        },
{
    match session_id_from_request(auth, cookies) {
        Some(id) => Ok(SessionQuery::new(id)),
        None => Err(GatewayError::new(ErrorKind::NoSession, "Missing session")),
    }
}

/// A login under way: the upstream server it is bound to, the device it
/// comes from, and the credential exchange to make.
#[derive(Debug)]
pub struct LoginAttempt {
    pub server_url: String,
    pub device_id: String,
    pub request: UpstreamRequest<JellyfinAuthRequest>,
}

/// The view of a `LoginAttempt`.
pub struct LoginAttemptView {
    pub server_url: Seq<char>,
    pub device_id: Seq<char>,
    pub method: Seq<char>,
    pub url: Seq<char>,
    pub headers: Seq<(Seq<char>, Seq<char>)>,
    pub username: Seq<char>,
    pub password: Seq<char>,
}

impl View for LoginAttempt {
    type V = LoginAttemptView;

    open spec fn view(&self) -> LoginAttemptView {
        LoginAttemptView {
            server_url: self.server_url@,
            device_id: self.device_id@,
            method: self.request.method@,
            url: self.request.url@,
            headers: fields_view(self.request.headers@),
            username: self.request.body.Username@,
            password: self.request.body.Pw@,
        }
    }
}

/// The login that a request starts from the device `device_id`: the server
/// address without trailing slashes, and a `POST` of the credentials to its
/// `/Users/AuthenticateByName`, under a credential header without a token.
pub open spec fn login_attempt_of(
    app: AppConfigView,
    server_url: Seq<char>,
    username: Seq<char>,
    password: Seq<char>,
    device_id: Seq<char>,
) -> LoginAttemptView {
    let base = trim_trailing(server_url, '/');
    LoginAttemptView {
        server_url: base,
        device_id,
        method: "POST"@,
        url: base + "/Users/AuthenticateByName"@,
        headers: seq![
            (
                credential_header_name(),
                auth_header_text(app.client_name, app.device_name, device_id, app.client_version, None),
            ),
        ],
        username,
        password,
    }
}

/// Starts a login from the device `device_id`. The server address that the
/// attempt is bound to does not end in a slash.
pub fn begin_login_with(app: &AppConfig, payload: &LoginRequest, device_id: String) -> (attempt:
    LoginAttempt)
    ensures
        attempt@ == login_attempt_of(
            app@,
            payload.server_url@,
            payload.username@,
            payload.password@,
            device_id@,
        ),
        ends_without(attempt.server_url@, '/'),
{
    let server_url = trim_end_slashes(payload.server_url.as_str());
    let header = build_client_header_for(app, device_id.as_str());
    let mut url = server_url.clone();
    url.append("/Users/AuthenticateByName");
    let mut headers: Vec<Field> = Vec::new();
    headers.push(credential_field(header));
    assert(fields_view(headers@) =~= seq![
        (
            credential_header_name(),
            auth_header_text(
                app.client_name@,
                app.device_name@,
                device_id@,
                app.client_version@,
                None,
            ),
        ),
    ]);
    let body = JellyfinAuthRequest {
        Username: payload.username.clone(),
        Pw: payload.password.clone(),
    };
    let request = UpstreamRequest { method: String::from_str("POST"), url, headers, body };
    LoginAttempt { server_url, device_id, request }
}

/// Starts a login from the device that the request names, or from a newly
/// generated device identifier where it names none.
pub fn begin_login(app: &AppConfig, payload: &LoginRequest) -> (attempt: LoginAttempt)
    ensures
        attempt@ == login_attempt_of(
            app@,
            payload.server_url@,
            payload.username@,
            payload.password@,
            attempt.device_id@,
        ),
        match payload.device_id {
            Some(device_id) => attempt.device_id@ == device_id@,
            None => is_generated_id_text(attempt.device_id@),
        },
        ends_without(attempt.server_url@, '/'),
{
    let device_id = match &payload.device_id {
        Some(device_id) => device_id.clone(),
        None => new_device_id(),
    };
    begin_login_with(app, payload, device_id)
}

/// The error for a credential exchange that did not reach the server.
pub open spec fn auth_unreachable(detail: Seq<char>) -> GatewayErrorView {
    GatewayErrorView {
        kind: ErrorKind::UpstreamUnreachable,
        message: "Jellyfin auth failed: "@ + detail,
    }
}

/// The error for credentials that the server refused with status `code`.
pub open spec fn auth_rejected(code: u16) -> GatewayErrorView {
    GatewayErrorView {
        kind: ErrorKind::UpstreamAuthRejected,
        message: "Jellyfin auth rejected: "@ + status_display(code),
    }
}

/// The error for a success answer whose payload is not a login answer.
pub open spec fn auth_malformed(detail: Seq<char>) -> GatewayErrorView {
    GatewayErrorView {
        kind: ErrorKind::UpstreamUnreachable,
        message: "Invalid Jellyfin auth response: "@ + detail,
    }
}

/// The error for a session that the store did not take.
pub open spec fn save_failed(detail: Seq<char>) -> GatewayErrorView {
    GatewayErrorView { kind: ErrorKind::StoreError, message: "Failed to save session: "@ + detail }
}

/// The session that an accepted login opens under the identifier `id`: the
/// account and token that the server reported, bound to the server address
/// and device of the attempt.
pub open spec fn session_of(
    attempt: LoginAttemptView,
    user_id: Seq<char>,
    username: Seq<char>,
    access_token: Seq<char>,
    id: SessionId,
) -> SessionDataView {
    SessionDataView {
        session_id: id,
        user_id,
        username,
        access_token,
        server_url: attempt.server_url,
        device_id: attempt.device_id,
    }
}

/// Opens the session of an accepted login under the identifier `id`.
pub fn open_session(attempt: LoginAttempt, accepted: JellyfinAuthResponse, id: SessionId) -> (write:
    SessionWrite)
    ensures
        write.is_for(
            session_of(
                attempt@,
                accepted.User.Id@,
                accepted.User.Name@,
                accepted.AccessToken@,
                id,
            ),
        ),
{
    SessionWrite::new(
        SessionData {
            session_id: id,
            user_id: accepted.User.Id,
            username: accepted.User.Name,
            access_token: accepted.AccessToken,
            server_url: attempt.server_url,
            device_id: attempt.device_id,
        },
    )
}

/// Decides a login on the answer of the credential exchange: the write of a
/// new session under a newly minted identifier where the server accepted,
/// and otherwise the error to report.
pub fn conclude_authentication(
    attempt: LoginAttempt,
    answer: UpstreamAnswer<JellyfinAuthResponse>,
) -> (out: Result<SessionWrite, GatewayError>)
    ensures
        match answer {
            UpstreamAnswer::Unreachable { detail } => out matches Err(e) && e@ == auth_unreachable(
                detail@,
            ),
            UpstreamAnswer::Responded { status, body } => if !(200 <= status@ < 300) {
                out matches Err(e) && e@ == auth_rejected(status@)
            } else {
                match body {
                    Err(detail) => out matches Err(e) && e@ == auth_malformed(detail@),
                    Ok(accepted) => out matches Ok(write) && is_random_layout(
                        write.session.session_id.bits,
                    ) && write.is_for(
                        session_of(
                            attempt@,
                            accepted.User.Id@,
                            accepted.User.Name@,
                            accepted.AccessToken@,
                            write.session.session_id,
                        ),
                    ),
                }
            },
        },
{
    match answer {
        UpstreamAnswer::Unreachable { detail } => Err(
            GatewayError::with_detail(
                ErrorKind::UpstreamUnreachable,
                "Jellyfin auth failed: ",
                detail.as_str(),
            ),
        ),
        UpstreamAnswer::Responded { status, body } => {
            if !status.is_success() {
                let shown = status.describe();
                Err(
                    GatewayError::with_detail(
                        ErrorKind::UpstreamAuthRejected,
                        "Jellyfin auth rejected: ",
                        shown.as_str(),
                    ),
                )
            } else {
                match body {
                    Err(detail) => Err(
                        GatewayError::with_detail(
                            ErrorKind::UpstreamUnreachable,
                            "Invalid Jellyfin auth response: ",
                            detail.as_str(),
                        ),
                    ),
                    Ok(accepted) => Ok(open_session(attempt, accepted, SessionId::generate())),
                }
            }
        },
    }
}

/// The cookie that binds a client to the session whose identifier text is
/// `value`: for the whole site, hidden from scripts, same-site lax, and
/// restricted to TLS as configured.
pub open spec fn session_cookie_of(auth: AuthConfigView, value: Seq<char>) -> SessionCookieView {
    SessionCookieView {
        name: auth.cookie_name,
        value,
        path: "/"@,
        http_only: true,
        same_site: SameSite::Lax,
        secure: auth.cookie_secure,
        max_age: None,
    }
}

/// The cookie that makes a client forget its session: the session cookie with
/// no value, expiring at once.
pub open spec fn clearing_cookie_of(auth: AuthConfigView) -> SessionCookieView {
    SessionCookieView {
        name: auth.cookie_name,
        value: Seq::empty(),
        path: "/"@,
        http_only: true,
        same_site: SameSite::Lax,
        secure: auth.cookie_secure,
        max_age: Some(0i64),
    }
}

/// Builds the session cookie with the given value.
pub fn session_cookie_with(auth: &AuthConfig, value: String) -> (cookie: SessionCookie)
    ensures
        cookie@ == session_cookie_of(auth@, value@),
{
    SessionCookie {
        name: auth.cookie_name.clone(),
        value,
        path: String::from_str("/"),
        http_only: true,
        same_site: SameSite::Lax,
        secure: auth.cookie_secure,
        max_age: None,
    }
}

/// Builds the cookie for the session `id`. Sent back by the client, the
/// cookie asks for that session.
pub fn session_cookie(auth: &AuthConfig, id: SessionId) -> (cookie: SessionCookie)
    ensures
        cookie@ == session_cookie_of(auth@, id.text()),
        requested_session(auth.cookie_name@, seq![(cookie.name@, cookie.value@)]) == Some(id),
{
    session_cookie_with(auth, id.to_text())
}

/// Builds the cookie that clears the session cookie.
pub fn clearing_cookie(auth: &AuthConfig) -> (cookie: SessionCookie)
    ensures
        cookie@ == clearing_cookie_of(auth@),
{
    SessionCookie {
        name: auth.cookie_name.clone(),
        value: String::new(),
        path: String::from_str("/"),
        http_only: true,
        same_site: SameSite::Lax,
        secure: auth.cookie_secure,
        max_age: Some(0),
    }
}

/// Ends a login once the store has answered the write of `session`: the
/// sanitized session and its cookie, or the store's failure. The cookie, sent
/// back by the client, asks for this very session.
pub fn conclude_login(auth: &AuthConfig, session: SessionData, saved: Result<(), String>) -> (reply:
    Reply<SessionInfo>)
    ensures
        match saved {
            Ok(_) => {
                &&& reply.status == 200
                &&& reply.cookie matches Some(cookie) && cookie@ == session_cookie_of(
                    auth@,
                    session.session_id.text(),
                ) && requested_session(auth.cookie_name@, seq![(cookie.name@, cookie.value@)])
                    == Some(session.session_id)
                &&& reply.body.success
                &&& reply.body.error is None
                &&& reply.body.data matches Some(info) && info@ == session@.info()
            },
            Err(detail) => {
                &&& reply.status == 500
                &&& reply.cookie is None
                &&& reply.body.is_err_with(save_failed(detail@).message)
            },
        },
{
    match saved {
        Ok(_) => {
            let cookie = session_cookie(auth, session.session_id);
            Reply { status: 200, cookie: Some(cookie), body: ApiResponse::ok(session.into_info()) }
        },
        Err(detail) => GatewayError::with_detail(
            ErrorKind::StoreError,
            "Failed to save session: ",
            detail.as_str(),
        ).into_reply(),
    }
}

/// The acknowledgement of a logout.
#[derive(Clone, Copy, Debug, PartialEq, Eq, Structural)]
pub struct LoggedOut {
    pub logged_out: bool,
}

/// Opens a logout: the removal of the session that the cookie names, or
/// nothing to remove where it names none.
pub fn begin_logout(auth: &AuthConfig, cookies: &Vec<Field>) -> (out: Option<SessionRemoval>)
    ensures
        match requested_session(auth.cookie_name@, fields_view(cookies@)) {
            Some(id) => out matches Some(removal) && removal.is_for(id),
            None => out is None,
        },
{
    match session_id_from_request(auth, cookies) {
        Some(id) => Some(SessionRemoval::new(id)),
        None => None,
    }
}

/// Ends a logout, whatever came of the removal: always 200, the
/// acknowledgement, and the cookie that clears the session cookie.
pub fn conclude_logout(auth: &AuthConfig) -> (reply: Reply<LoggedOut>)
    ensures
        reply.status == 200,
        reply.cookie matches Some(cookie) && cookie@ == clearing_cookie_of(auth@),
        reply.body.is_ok_with(LoggedOut { logged_out: true }),
{
    Reply {
        status: 200,
        cookie: Some(clearing_cookie(auth)),
        body: ApiResponse::ok(LoggedOut { logged_out: true }),
    }
}

/// Answers an introspection with the sanitized session, or with the error
/// that the resolution came to.
pub fn describe_session(resolution: Result<SessionData, GatewayError>) -> (reply: Reply<SessionInfo>)
    ensures
        reply.cookie is None,
        match resolution {
            Ok(session) => {
                &&& reply.status == 200
                &&& reply.body.success
                &&& reply.body.error is None
                &&& reply.body.data matches Some(info) && info@ == session@.info()
            },
            Err(e) => {
                &&& reply.status == crate::error::status_for(e.kind)
                &&& reply.body.is_err_with(e.message@)
            },
        },
{
    match resolution {
        Ok(session) => Reply { status: 200, cookie: None, body: ApiResponse::ok(session.into_info()) },
        Err(e) => e.into_reply(),
    }
}

/// What a protected request comes to against a working store: the session
/// that its cookie names, or the error that it is answered with.
pub open spec fn protected_outcome(
    store: StoreModel,
    cookie_name: Seq<char>,
    cookies: Seq<(Seq<char>, Seq<char>)>,
) -> Result<SessionDataView, GatewayErrorView> {
    match requested_session(cookie_name, cookies) {
        Some(id) => resolved(store_get(store, id)),
        None => Err(no_session()),
    }
}

/// The store after a logout: without the session that the cookie names.
pub open spec fn store_after_logout(
    store: StoreModel,
    cookie_name: Seq<char>,
    cookies: Seq<(Seq<char>, Seq<char>)>,
) -> StoreModel {
    match requested_session(cookie_name, cookies) {
        Some(id) => store_delete(store, id),
        None => store,
    }
}

/// A request without a usable session cookie is refused with 401 whatever the
/// store holds.
pub proof fn lemma_no_cookie_is_refused(
    store: StoreModel,
    cookie_name: Seq<char>,
    cookies: Seq<(Seq<char>, Seq<char>)>,
)
    requires
        requested_session(cookie_name, cookies) is None,
    ensures
        protected_outcome(store, cookie_name, cookies) == Err::<
            SessionDataView,
            GatewayErrorView,
        >(no_session()),
        crate::error::status_for(no_session().kind) == 401,
{
}

/// Once a session has been written, a request that asks for it is given that
/// very session.
pub proof fn lemma_login_opens_session(
    store: StoreModel,
    session: SessionDataView,
    cookie_name: Seq<char>,
    cookies: Seq<(Seq<char>, Seq<char>)>,
)
    requires
        requested_session(cookie_name, cookies) == Some(session.session_id),
    ensures
        protected_outcome(store_put(store, session), cookie_name, cookies) == Ok::<
            SessionDataView,
            GatewayErrorView,
        >(session),
{
}

/// After a logout, a request with the same cookies is refused with 401: as a
/// session that is not found where the cookie names one, and never as a
/// failure of the store.
pub proof fn lemma_logout_ends_session(
    store: StoreModel,
    cookie_name: Seq<char>,
    cookies: Seq<(Seq<char>, Seq<char>)>,
)
    ensures
        protected_outcome(store_after_logout(store, cookie_name, cookies), cookie_name, cookies)
            matches Err(e) && crate::error::status_for(e.kind) == 401,
        requested_session(cookie_name, cookies) is Some ==> protected_outcome(
            store_after_logout(store, cookie_name, cookies),
            cookie_name,
            cookies,
        ) == Err::<SessionDataView, GatewayErrorView>(session_not_found()),
{
}

} // verus!
