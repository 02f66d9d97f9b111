//! What a handler hands back for a non-streaming endpoint: a status, the
//! envelope, and the session cookie to set or clear.

use vstd::prelude::*;
use crate::models::ApiResponse;

verus! {

/// The same-site policy of a cookie.
#[derive(Clone, Copy, Debug, PartialEq, Eq, Structural)]
pub enum SameSite {
    Strict,
    Lax,
    Unrestricted,
}

/// A cookie that the client is told to store.
#[derive(Debug)]
pub struct SessionCookie {
    pub name: String,
    pub value: String,
    pub path: String,
    pub http_only: bool,
    pub same_site: SameSite,
    pub secure: bool,
    /// The lifetime in seconds; `None` leaves the cookie to the client's session.
    pub max_age: Option<i64>,
}

/// The view of a `SessionCookie`.
pub struct SessionCookieView {
    pub name: Seq<char>,
    pub value: Seq<char>,
    pub path: Seq<char>,
    pub http_only: bool,
    pub same_site: SameSite,
    pub secure: bool,
    pub max_age: Option<i64>,
}

impl View for SessionCookie {
    type V = SessionCookieView;

    open spec fn view(&self) -> SessionCookieView {
        SessionCookieView {
            name: self.name@,
            value: self.value@,
            path: self.path@,
            http_only: self.http_only,
            same_site: self.same_site,
            secure: self.secure,
            max_age: self.max_age,
        }
    }
}

/// The reply of a non-streaming endpoint.
#[derive(Debug)]
pub struct Reply<T> {
    pub status: u16,
    pub cookie: Option<SessionCookie>,
    pub body: ApiResponse<T>,
}

/// The reply of the liveness probe: always 200 with the payload `ok`.
pub fn health_reply() -> (reply: Reply<&'static str>)
    ensures
        reply.status == 200,
        reply.cookie is None,
        reply.body.success,
        reply.body.error is None,
        reply.body.data matches Some(text) && text@ == "ok"@,
{
    Reply { status: 200, cookie: None, body: ApiResponse::ok("ok") }
}

} // verus!
