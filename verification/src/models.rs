//! The payloads exchanged with clients, with the upstream server and with the
//! session store, and their mathematical views.

use vstd::prelude::*;
use crate::ident::SessionId;

verus! {

/// The envelope of every non-streaming reply.
#[derive(Debug)]
pub struct ApiResponse<T> {
    pub success: bool,
    pub data: Option<T>,
    pub error: Option<String>,
}

impl<T> ApiResponse<T> {
    /// The envelope reports success and carries exactly `data`.
    pub open spec fn is_ok_with(self, data: T) -> bool {
        &&& self.success
        &&& self.data == Some(data)
        &&& self.error is None
    }

    /// The envelope reports failure with exactly `message` and no data.
    pub open spec fn is_err_with(self, message: Seq<char>) -> bool {
        &&& !self.success
        &&& self.data is None
        &&& self.error matches Some(m) && m@ == message
    }

    /// A successful envelope around `data`.
    pub fn ok(data: T) -> (r: Self)
        ensures
            r.is_ok_with(data),
    {
        ApiResponse { success: true, data: Some(data), error: None }
    }

    /// A failed envelope carrying `message`.
    pub fn err(message: String) -> (r: Self)
        ensures
            r.is_err_with(message@),
    {
        ApiResponse { success: false, data: None, error: Some(message) }
    }
}

/// The body of a login request.
#[derive(Debug)]
pub struct LoginRequest {
    pub server_url: String,
    pub username: String,
    pub password: String,
    pub device_id: Option<String>,
}

/// The body of a server validation request.
#[derive(Debug)]
pub struct SetupRequest {
    pub server_url: String,
}

/// What a client may learn of its session: never the access token.
#[derive(Debug)]
pub struct SessionInfo {
    pub session_id: SessionId,
    pub user_id: String,
    pub username: String,
    pub server_url: String,
}

/// The session record as the store holds it.
#[derive(Debug)]
pub struct SessionData {
    pub session_id: SessionId,
    pub user_id: String,
    pub username: String,
    pub access_token: String,
    pub server_url: String,
    pub device_id: String,
}

/// The credentials handed to the upstream server at login.
#[allow(non_snake_case)]
#[derive(Debug)]
pub struct JellyfinAuthRequest {
    pub Username: String,
    pub Pw: String,
}

/// The account that the upstream server reports after a login.
#[allow(non_snake_case)]
#[derive(Debug)]
pub struct JellyfinUser {
    pub Id: String,
    pub Name: String,
}

/// The upstream server's answer to a successful login.
#[allow(non_snake_case)]
#[derive(Debug)]
pub struct JellyfinAuthResponse {
    pub User: JellyfinUser,
    pub AccessToken: String,
}

/// The view of a `SessionInfo`.
pub struct SessionInfoView {
    pub session_id: SessionId,
    pub user_id: Seq<char>,
    pub username: Seq<char>,
    pub server_url: Seq<char>,
}

/// The view of a `SessionData`.
pub struct SessionDataView {
    pub session_id: SessionId,
    pub user_id: Seq<char>,
    pub username: Seq<char>,
    pub access_token: Seq<char>,
    pub server_url: Seq<char>,
    pub device_id: Seq<char>,
}

impl View for SessionInfo {
    type V = SessionInfoView;

    open spec fn view(&self) -> SessionInfoView {
        SessionInfoView {
            session_id: self.session_id,
            user_id: self.user_id@,
            username: self.username@,
            server_url: self.server_url@,
        }
    }
}

impl View for SessionData {
    type V = SessionDataView;

    open spec fn view(&self) -> SessionDataView {
        SessionDataView {
            session_id: self.session_id,
            user_id: self.user_id@,
            username: self.username@,
            access_token: self.access_token@,
            server_url: self.server_url@,
            device_id: self.device_id@,
        }
    }
}

impl SessionDataView {
    /// The part of a session that a client may see.
    pub open spec fn info(self) -> SessionInfoView {
        SessionInfoView {
            session_id: self.session_id,
            user_id: self.user_id,
            username: self.username,
            server_url: self.server_url,
        }
    }
}

impl SessionData {
    /// The sanitized description of this session for its client: the session
    /// without its token.
    pub fn into_info(self) -> (info: SessionInfo)
        ensures
            info@ == self@.info(),
    {
        SessionInfo {
            session_id: self.session_id,
            user_id: self.user_id,
            username: self.username,
            server_url: self.server_url,
        }
    }
}

} // verus!
