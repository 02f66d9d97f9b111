//! The generic forwarder: the upstream request that stands for an inbound
//! one, the head of the response that is relayed, and the relay of the body
//! chunk by chunk.

use vstd::prelude::*;
use crate::auth_header::{auth_header_text, build_token_header};
use crate::config::{AppConfig, AppConfigView};
use crate::error::{ErrorKind, GatewayError, GatewayErrorView};
use crate::fields::{fields_view, Field};
use crate::headers::{
    entries_view,
    inbound_allowed,
    outbound_allowed,
    pass_inbound_headers,
    pass_outbound_headers,
    passed_headers,
    HeaderEntry,
};
use crate::models::{SessionData, SessionDataView};
use crate::text::{ends_without, lemma_trim_trailing_idempotent, trim_end_slashes, trim_trailing};
use crate::upstream::{
    credential_field,
    credential_header_name,
    is_method_token,
    method_accepted,
    UpstreamRequest,
    UpstreamRequestView,
    UpstreamStatus,
};

verus! {

/// An inbound request to be forwarded: its method, the path below the
/// gateway's prefix, the query string without its `?`, its headers and its
/// body.
#[derive(Debug)]
pub struct InboundRequest<B> {
    pub method: String,
    pub tail: String,
    pub query: String,
    pub headers: Vec<HeaderEntry>,
    pub body: B,
}

/// The head of a response as it is relayed to the client.
#[derive(Debug)]
pub struct RelayedHead {
    pub status: u16,
    pub headers: Vec<Field>,
}

/// What came of a forwarded call, before any of the body is read.
#[derive(Debug)]
pub enum HeadAnswer<S> {
    /// The request could not be delivered or no response came back.
    Unreachable { detail: String },
    /// The head of a response came back; `body` is the body still to be read.
    Responded { status: UpstreamStatus, headers: Vec<HeaderEntry>, body: S },
}

/// A response to relay: the head as the client gets it, and the body still
/// to be read.
#[derive(Debug)]
pub struct Relayed<S> {
    pub head: RelayedHead,
    pub body: S,
}

/// The upstream address of a path: the server address without trailing
/// slashes, a slash, the path, and the query after a `?` where there is one.
pub open spec fn upstream_url(server_url: Seq<char>, tail: Seq<char>, query: Seq<char>) -> Seq<char> {
    let path = trim_trailing(server_url, '/') + "/"@ + tail;
    if query.len() == 0 {
        path
    } else {
        path + "?"@ + query
    }
}

/// The upstream address of the video stream of an item.
pub open spec fn stream_url(server_url: Seq<char>, item_id: Seq<char>) -> Seq<char> {
    trim_trailing(server_url, '/') + "/Videos/"@ + item_id
        + "/stream.mp4?static=true&mediaSourceId="@ + item_id
}

/// The headers of a call made on behalf of a session: the credential header
/// with the session's device and token, then the inbound headers that are
/// forwarded.
pub open spec fn forwarded_headers(
    app: AppConfigView,
    session: SessionDataView,
    inbound: Seq<(Seq<char>, Option<Seq<char>>)>,
) -> Seq<(Seq<char>, Seq<char>)> {
    seq![
        (
            credential_header_name(),
            auth_header_text(
                app.client_name,
                app.device_name,
                session.device_id,
                app.client_version,
                Some(session.access_token),
            ),
        ),
    ] + passed_headers(inbound, inbound_allowed())
}

/// The upstream request that stands for an inbound one: the same method, the
/// same path and query under the session's server, the same body.
pub open spec fn forwarded_request<B>(
    app: AppConfigView,
    session: SessionDataView,
    method: Seq<char>,
    tail: Seq<char>,
    query: Seq<char>,
    headers: Seq<(Seq<char>, Option<Seq<char>>)>,
    body: B,
) -> UpstreamRequestView<B> {
    UpstreamRequestView {
        method,
        url: upstream_url(session.server_url, tail, query),
        headers: forwarded_headers(app, session, headers),
        body,
    }
}

/// The error for an inbound method that cannot be forwarded.
pub open spec fn method_not_supported() -> GatewayErrorView {
    GatewayErrorView { kind: ErrorKind::MethodNotSupported, message: "Unsupported HTTP method"@ }
}

/// The error for a forwarded call that did not reach the server.
pub open spec fn proxy_unreachable(detail: Seq<char>) -> GatewayErrorView {
    GatewayErrorView {
        kind: ErrorKind::UpstreamUnreachable,
        message: "Proxy request failed: "@ + detail,
    }
}

/// The error for a stream call that did not reach the server.
pub open spec fn stream_unreachable(detail: Seq<char>) -> GatewayErrorView {
    GatewayErrorView {
        kind: ErrorKind::UpstreamUnreachable,
        message: "Streaming request failed: "@ + detail,
    }
}

/// The error for a response body that broke off.
pub open spec fn read_failed(detail: Seq<char>) -> GatewayErrorView {
    GatewayErrorView {
        kind: ErrorKind::UpstreamUnreachable,
        message: "Failed to read Jellyfin response: "@ + detail,
    }
}

/// Under a server address that does not end in a slash, forwarding keeps the
/// path and the query: the upstream address is the server address, a slash,
/// the path as it came and, after a `?`, the query as it came.
pub proof fn lemma_upstream_url_keeps_path(server_url: Seq<char>, tail: Seq<char>, query: Seq<char>)
    requires
        ends_without(server_url, '/'),
    ensures
        query.len() == 0 ==> upstream_url(server_url, tail, query) == server_url + "/"@ + tail,
        query.len() > 0 ==> upstream_url(server_url, tail, query) == server_url + "/"@ + tail
            + "?"@ + query,
{
    lemma_trim_trailing_idempotent(server_url, '/');
}

/// The refusal of an inbound method that cannot be forwarded.
pub fn unsupported_method() -> (e: GatewayError)
    ensures
        e@ == method_not_supported(),
{
    GatewayError::new(ErrorKind::MethodNotSupported, "Unsupported HTTP method")
}

/// Builds the upstream address of a path.
pub fn build_upstream_url(server_url: &str, tail: &str, query: &str) -> (url: String)
    ensures
        url@ == upstream_url(server_url@, tail@, query@),
{
    let mut url = trim_end_slashes(server_url);
    url.append("/");
    url.append(tail);
    if !query.is_empty() {
        url.append("?");
        url.append(query);
    }
    url
}

/// Builds the upstream address of the video stream of an item.
pub fn build_stream_url(server_url: &str, item_id: &str) -> (url: String)
    ensures
        url@ == stream_url(server_url@, item_id@),
{
    let mut url = trim_end_slashes(server_url);
    url.append("/Videos/");
    url.append(item_id);
    url.append("/stream.mp4?static=true&mediaSourceId=");
    url.append(item_id);
    url
}

/// Builds the headers of a call made on behalf of `session`.
pub fn build_forwarded_headers(
    app: &AppConfig,
    session: &SessionData,
    inbound: &Vec<HeaderEntry>,
) -> (headers: Vec<Field>)
    ensures
        fields_view(headers@) == forwarded_headers(app@, session@, entries_view(inbound@)),
{
    let mut headers: Vec<Field> = Vec::new();
    headers.push(credential_field(build_token_header(app, session)));
    pass_inbound_headers(&mut headers, inbound);
    headers
}

/// Plans the upstream request for an inbound one, or refuses a method that
/// the upstream client cannot represent.
pub fn plan_upstream_request<B>(
    app: &AppConfig,
    session: &SessionData,
    inbound: InboundRequest<B>,
) -> (out: Result<UpstreamRequest<B>, GatewayError>)
    ensures
        if is_method_token(inbound.method@) {
            out matches Ok(request) && request@ == forwarded_request(
                app@,
                session@,
                inbound.method@,
                inbound.tail@,
                inbound.query@,
                entries_view(inbound.headers@),
                inbound.body,
            )
        } else {
            out matches Err(e) && e@ == method_not_supported()
        },
{
    let url = build_upstream_url(
        session.server_url.as_str(),
        inbound.tail.as_str(),
        inbound.query.as_str(),
    );
    if !method_accepted(inbound.method.as_str()) {
        return Err(unsupported_method());
    }
    let headers = build_forwarded_headers(app, session, &inbound.headers);
    Ok(UpstreamRequest { method: inbound.method, url, headers, body: inbound.body })
}

/// Plans the upstream request for the video stream of an item.
pub fn plan_stream_request(
    app: &AppConfig,
    session: &SessionData,
    item_id: &str,
    inbound: &Vec<HeaderEntry>,
) -> (request: UpstreamRequest<()>)
    ensures
        request@ == (UpstreamRequestView {
            method: "GET"@,
            url: stream_url(session.server_url@, item_id@),
            headers: forwarded_headers(app@, session@, entries_view(inbound@)),
            body: (),
        }),
{
    let url = build_stream_url(session.server_url.as_str(), item_id);
    let headers = build_forwarded_headers(app, session, inbound);
    UpstreamRequest { method: String::from_str("GET"), url, headers, body: () }
}

/// The head that relays an upstream response: its status as it is, and of
/// its headers those that are relayed to the client.
pub fn relay_head(status: UpstreamStatus, headers: &Vec<HeaderEntry>) -> (head: RelayedHead)
    ensures
        head.status == status@,
        fields_view(head.headers@) == passed_headers(entries_view(headers@), outbound_allowed()),
{
    RelayedHead { status: status.as_u16(), headers: pass_outbound_headers(headers) }
}

/// Whether `out` relays a response of the given status and headers with the
/// body `body`: the status as it is, the relayed headers, the body untouched.
pub open spec fn relays<S>(
    out: Relayed<S>,
    status: u16,
    headers: Seq<(Seq<char>, Option<Seq<char>>)>,
    body: S,
) -> bool {
    &&& out.head.status == status
    &&& fields_view(out.head.headers@) == passed_headers(headers, outbound_allowed())
    &&& out.body == body
}

/// Decides a forwarded call on what came of it: the response to relay,
/// whatever its status, or the gateway error for a server that was not
/// reached.
pub fn conclude_forward<S>(answer: HeadAnswer<S>) -> (out: Result<Relayed<S>, GatewayError>)
    ensures
        match answer {
            HeadAnswer::Unreachable { detail } => out matches Err(e) && e@ == proxy_unreachable(
                detail@,
            ),
            HeadAnswer::Responded { status, headers, body } => out matches Ok(relayed) && relays(
                relayed,
                status@,
                entries_view(headers@),
                body,
            ),
        },
{
    match answer {
        HeadAnswer::Unreachable { detail } => Err(
            GatewayError::with_detail(
                ErrorKind::UpstreamUnreachable,
                "Proxy request failed: ",
                detail.as_str(),
            ),
        ),
        HeadAnswer::Responded { status, headers, body } => Ok(
            Relayed { head: relay_head(status, &headers), body },
        ),
    }
}

/// Decides a stream call on what came of it: the response to relay, whatever
/// its status, or the gateway error for a server that was not reached.
pub fn conclude_stream<S>(answer: HeadAnswer<S>) -> (out: Result<Relayed<S>, GatewayError>)
    ensures
        match answer {
            HeadAnswer::Unreachable { detail } => out matches Err(e) && e@ == stream_unreachable(
                detail@,
            ),
            HeadAnswer::Responded { status, headers, body } => out matches Ok(relayed) && relays(
                relayed,
                status@,
                entries_view(headers@),
                body,
            ),
        },
{
    match answer {
        HeadAnswer::Unreachable { detail } => Err(
            GatewayError::with_detail(
                ErrorKind::UpstreamUnreachable,
                "Streaming request failed: ",
                detail.as_str(),
            ),
        ),
        HeadAnswer::Responded { status, headers, body } => Ok(
            Relayed { head: relay_head(status, &headers), body },
        ),
    }
}

/// A chunk of a response body as it arrives: the data, or why the read failed.
pub open spec fn chunk_view<B>(chunk: Result<B, String>) -> Result<B, Seq<char>> {
    match chunk {
        Ok(data) => Ok(data),
        Err(detail) => Err(detail@),
    }
}

/// A chunk as it goes on to the client: the data, or the error that ends the
/// stream.
pub open spec fn relayed_view<B>(out: Result<B, GatewayError>) -> Result<B, GatewayErrorView> {
    match out {
        Ok(data) => Ok(data),
        Err(e) => Err(e@),
    }
}

/// What becomes of one chunk: data goes on as it is, and a failed read ends
/// the stream with a gateway error.
pub open spec fn relayed_chunk<B>(chunk: Result<B, Seq<char>>) -> Result<B, GatewayErrorView> {
    match chunk {
        Ok(data) => Ok(data),
        Err(detail) => Err(read_failed(detail)),
    }
}

/// The chunks that reach the client of a body that arrives as `chunks`:
/// every chunk before the first failed read, in order.
pub open spec fn relayed<B>(chunks: Seq<Result<B, Seq<char>>>) -> Seq<B>
    decreases chunks.len(),
{
    if chunks.len() == 0 {
        Seq::empty()
    } else {
        match relayed_chunk(chunks[0]) {
            Ok(data) => seq![data] + relayed(chunks.drop_first()),
            Err(_) => Seq::empty(),
        }
    }
}

/// Relays one chunk of a response body.
pub fn relay_chunk<B>(chunk: Result<B, String>) -> (out: Result<B, GatewayError>)
    ensures
        relayed_view(out) == relayed_chunk(chunk_view(chunk)),
{
    match chunk {
        Ok(data) => Ok(data),
        Err(detail) => Err(
            GatewayError::with_detail(
                ErrorKind::UpstreamUnreachable,
                "Failed to read Jellyfin response: ",
                detail.as_str(),
            ),
        ),
    }
}

/// A body that arrives whole is relayed whole: the chunks that reach the
/// client are the chunks that arrived, none dropped, doubled or out of order.
pub proof fn lemma_relay_keeps_chunks<B>(chunks: Seq<B>)
    ensures
        relayed(chunks.map_values(|data: B| Ok::<B, Seq<char>>(data))) == chunks,
    decreases chunks.len(),
{
    let arrived = chunks.map_values(|data: B| Ok::<B, Seq<char>>(data));
    if chunks.len() > 0 {
        lemma_relay_keeps_chunks(chunks.drop_first());
        assert(arrived.drop_first() == chunks.drop_first().map_values(
            |data: B| Ok::<B, Seq<char>>(data),
        ));
    }
}

/// The bytes that reach the client of a body that arrives whole are the
/// concatenation of its chunks.
pub proof fn lemma_relay_keeps_bytes(chunks: Seq<Seq<u8>>)
    ensures
        relayed(chunks.map_values(|data: Seq<u8>| Ok::<Seq<u8>, Seq<char>>(data))).flatten()
            == chunks.flatten(),
{
    lemma_relay_keeps_chunks(chunks);
}

/// A body that breaks off is relayed up to the break: the chunks before the
/// first failed read reach the client, and nothing after it.
pub proof fn lemma_relay_stops_at_failure<B>(
    before: Seq<B>,
    detail: Seq<char>,
    after: Seq<Result<B, Seq<char>>>,
)
    ensures
        relayed(
            before.map_values(|data: B| Ok::<B, Seq<char>>(data)) + seq![Err::<B, Seq<char>>(detail)]
                + after,
        ) == before,
    decreases before.len(),
{
    let arrived = before.map_values(|data: B| Ok::<B, Seq<char>>(data));
    let all = arrived + seq![Err::<B, Seq<char>>(detail)] + after;
    if before.len() > 0 {
        lemma_relay_stops_at_failure(before.drop_first(), detail, after);
        assert(all.drop_first() == before.drop_first().map_values(
            |data: B| Ok::<B, Seq<char>>(data),
        ) + seq![Err::<B, Seq<char>>(detail)] + after);
    }
}

} // verus!
