//! What the gateway reads from the upstream HTTP client: status codes and the
//! methods it can represent.

use vstd::prelude::*;
use crate::fields::{fields_view, Field};

verus! {

/// The text that the upstream client prints for a status code: the number and
/// its standard reason phrase.
pub uninterp spec fn status_display(code: u16) -> Seq<char>;

/// Whether `c` may occur in an HTTP token.
pub open spec fn is_token_char(c: char) -> bool {
    ||| '0' <= c <= '9'
    ||| 'a' <= c <= 'z'
    ||| 'A' <= c <= 'Z'
    ||| c == '!'
    ||| c == '#'
    ||| c == '$'
    ||| c == '%'
    ||| c == '&'
    ||| c == '\''
    ||| c == '*'
    ||| c == '+'
    ||| c == '-'
    ||| c == '.'
    ||| c == '^'
    ||| c == '_'
    ||| c == '`'
    ||| c == '|'
    ||| c == '~'
}

/// Whether `name` is a method name that the upstream client can represent: a
/// non-empty HTTP token.
pub open spec fn is_method_token(name: Seq<char>) -> bool {
    &&& name.len() > 0
    &&& forall|i: int| 0 <= i < name.len() ==> is_token_char(#[trigger] name[i])
}

/// Asks `reqwest::StatusCode::from_u16` for the status and prints it through
/// its `Display`. Trusted: a status exists exactly for the codes from 100 to
/// 999, and its text is named by `status_display`.
#[verifier::external_body]
fn status_text(code: u16) -> (out: Option<String>)
    ensures
        out is Some <==> 100 <= code <= 999,
        out matches Some(t) ==> t@ == status_display(code),
{
    match reqwest::StatusCode::from_u16(code) {
        Ok(status) => Some(status.to_string()),
        Err(_) => None,
    }
}

/// Asks `reqwest::Method::from_bytes` whether it accepts `name`. Trusted: it
/// accepts exactly the non-empty names made of HTTP token characters.
#[verifier::external_body]
pub(crate) fn method_accepted(name: &str) -> (ok: bool)
    ensures
        ok == is_method_token(name@),
{
    reqwest::Method::from_bytes(name.as_bytes()).is_ok()
}

/// The name of the header that carries the gateway's credentials upstream.
pub open spec fn credential_header_name() -> Seq<char> {
    "X-Emby-Authorization"@
}

/// A request for the upstream server, ready to be sent.
#[derive(Debug)]
pub struct UpstreamRequest<B> {
    pub method: String,
    pub url: String,
    pub headers: Vec<Field>,
    pub body: B,
}

/// The view of an `UpstreamRequest`, the body left as it is.
pub struct UpstreamRequestView<B> {
    pub method: Seq<char>,
    pub url: Seq<char>,
    pub headers: Seq<(Seq<char>, Seq<char>)>,
    pub body: B,
}

impl<B> View for UpstreamRequest<B> {
    type V = UpstreamRequestView<B>;

    open spec fn view(&self) -> UpstreamRequestView<B> {
        UpstreamRequestView {
            method: self.method@,
            url: self.url@,
            headers: fields_view(self.headers@),
            body: self.body,
        }
    }
}

/// What came of a call that reads the whole answer.
#[derive(Debug)]
pub enum UpstreamAnswer<B> {
    /// The request could not be delivered or no response came back.
    Unreachable { detail: String },
    /// A response came back. `body` is what its payload was read as, or why
    /// it could not be read; it is looked at only under a success status.
    Responded { status: UpstreamStatus, body: Result<B, String> },
}

/// The credential header as a field.
pub fn credential_field(header: String) -> (field: Field)
    ensures
        field@ == (credential_header_name(), header@),
{
    Field { name: String::from_str("X-Emby-Authorization"), value: header }
}

/// The status code of an upstream response, always between 100 and 999.
#[derive(Clone, Copy, Debug)]
pub struct UpstreamStatus {
    code: u16,
}

impl View for UpstreamStatus {
    type V = u16;

    closed spec fn view(&self) -> u16 {
        self.code
    }
}

impl UpstreamStatus {
    #[verifier::type_invariant]
    spec fn in_range(self) -> bool {
        100 <= self.code <= 999
    }

    /// The status with the given code, if the code is one that HTTP allows.
    pub fn from_u16(code: u16) -> (out: Option<UpstreamStatus>)
        ensures
            out is Some <==> 100 <= code <= 999,
            out matches Some(status) ==> status@ == code,
    {
        if 100 <= code && code <= 999 {
            Some(UpstreamStatus { code })
        } else {
            None
        }
    }

    /// The numeric code.
    pub fn as_u16(&self) -> (code: u16)
        ensures
            code == self@,
            100 <= code <= 999,
    {
        proof {
            use_type_invariant(self);
        }
        self.code
    }

    /// Whether the status is in the success class, 200 to 299.
    pub fn is_success(&self) -> (ok: bool)
        ensures
            ok == (200 <= self@ < 300),
    {
        200 <= self.code && self.code < 300
    }

    /// The status as the upstream client prints it.
    pub fn describe(&self) -> (text: String)
        ensures
            text@ == status_display(self@),
    {
        proof {
            use_type_invariant(self);
        }
        match status_text(self.code) {
            Some(text) => text,
            None => String::new(),
        }
    }
}

} // verus!
