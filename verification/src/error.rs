//! The gateway's error taxonomy and the one HTTP status that each kind of
//! error is answered with.

use vstd::prelude::*;
use crate::models::ApiResponse;
use crate::reply::Reply;

verus! {

/// The kinds of failure that a handler can report.
#[derive(Clone, Copy, Debug, PartialEq, Eq, Structural)]
pub enum ErrorKind {
    /// The request carries no usable session cookie.
    NoSession,
    /// The cookie names a session that the store does not hold.
    SessionNotFound,
    /// The upstream server refused the credentials.
    UpstreamAuthRejected,
    /// The upstream server could not be reached, refused the request or
    /// answered with something unusable.
    UpstreamUnreachable,
    /// The session store failed.
    StoreError,
    /// The inbound method cannot be forwarded.
    MethodNotSupported,
}

/// The HTTP status that answers an error of the given kind.
pub open spec fn status_for(kind: ErrorKind) -> u16 {
    match kind {
        ErrorKind::NoSession => 401,
        ErrorKind::SessionNotFound => 401,
        ErrorKind::UpstreamAuthRejected => 401,
        ErrorKind::UpstreamUnreachable => 502,
        ErrorKind::StoreError => 500,
        ErrorKind::MethodNotSupported => 405,
    }
}

/// A failure with its kind and the message shown to the client.
#[derive(Debug)]
pub struct GatewayError {
    pub kind: ErrorKind,
    pub message: String,
}

/// The view of a `GatewayError`.
pub struct GatewayErrorView {
    pub kind: ErrorKind,
    pub message: Seq<char>,
}

impl View for GatewayError {
    type V = GatewayErrorView;

    open spec fn view(&self) -> GatewayErrorView {
        GatewayErrorView { kind: self.kind, message: self.message@ }
    }
}

impl ErrorKind {
    /// The HTTP status that answers this kind of error.
    pub fn status(self) -> (code: u16)
        ensures
            code == status_for(self),
    {
        match self {
            ErrorKind::NoSession => 401,
            ErrorKind::SessionNotFound => 401,
            ErrorKind::UpstreamAuthRejected => 401,
            ErrorKind::UpstreamUnreachable => 502,
            ErrorKind::StoreError => 500,
            ErrorKind::MethodNotSupported => 405,
        }
    }
}

impl GatewayError {
    /// An error of `kind` whose message is `message`.
    pub fn new(kind: ErrorKind, message: &str) -> (e: GatewayError)
        ensures
            e@ == (GatewayErrorView { kind, message: message@ }),
    {
        GatewayError { kind, message: String::from_str(message) }
    }

    /// An error of `kind` whose message is `prefix` followed by `detail`.
    pub fn with_detail(kind: ErrorKind, prefix: &str, detail: &str) -> (e: GatewayError)
        ensures
            e@ == (GatewayErrorView { kind, message: prefix@ + detail@ }),
    {
        let mut message = String::from_str(prefix);
        message.append(detail);
        GatewayError { kind, message }
    }

    /// The HTTP status that answers this error.
    pub fn status(&self) -> (code: u16)
        ensures
            code == status_for(self.kind),
    {
        self.kind.status()
    }

    /// The reply that reports this error to the client: the status of its
    /// kind, a failed envelope with its message, and no cookie.
    pub fn into_reply<T>(self) -> (reply: Reply<T>)
        ensures
            reply.status == status_for(self.kind),
            reply.cookie is None,
            reply.body.is_err_with(self.message@),
    {
        let status = self.kind.status();
        Reply { status, cookie: None, body: ApiResponse::err(self.message) }
    }
}

/// Every kind of error is answered with a client or server error status, and
/// the session and credential failures are all answered with 401.
pub proof fn lemma_error_statuses(kind: ErrorKind)
    ensures
        400 <= status_for(kind) < 600,
        (kind == ErrorKind::NoSession || kind == ErrorKind::SessionNotFound || kind
            == ErrorKind::UpstreamAuthRejected) <==> status_for(kind) == 401,
        kind == ErrorKind::StoreError <==> status_for(kind) == 500,
        kind == ErrorKind::UpstreamUnreachable <==> status_for(kind) == 502,
        kind == ErrorKind::MethodNotSupported <==> status_for(kind) == 405,
{
}

} // verus!
