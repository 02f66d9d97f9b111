//! The discovery probe: an unauthenticated check that a candidate server
//! answers as a media server. It opens no session and asks nothing of the
//! store.

use vstd::prelude::*;
use crate::auth_header::{auth_header_text, build_client_header_for};
use crate::config::{AppConfig, AppConfigView};
use crate::error::{ErrorKind, GatewayError, GatewayErrorView};
use crate::fields::{fields_view, Field};
use crate::ident::{is_generated_id_text, new_device_id};
use crate::models::{ApiResponse, SetupRequest};
use crate::reply::Reply;
use crate::text::{trim_end_slashes, trim_trailing};
use crate::upstream::{
    credential_field,
    credential_header_name,
    status_display,
    UpstreamAnswer,
    UpstreamRequest,
    UpstreamRequestView,
};

verus! {

/// The probe of a candidate server from the device `device_id`: a `GET` of
/// its public system information, under a credential header without a token.
pub open spec fn probe_request(
    app: AppConfigView,
    server_url: Seq<char>,
    device_id: Seq<char>,
) -> UpstreamRequestView<()> {
    UpstreamRequestView {
        method: "GET"@,
        url: trim_trailing(server_url, '/') + "/System/Info/Public"@,
        headers: seq![
            (
                credential_header_name(),
                auth_header_text(app.client_name, app.device_name, device_id, app.client_version, None),
            ),
        ],
        body: (),
    }
}

/// The error for a candidate server that was not reached.
pub open spec fn probe_unreachable(detail: Seq<char>) -> GatewayErrorView {
    GatewayErrorView {
        kind: ErrorKind::UpstreamUnreachable,
        message: "Failed to reach Jellyfin server: "@ + detail,
    }
}

/// The error for a candidate server that answered with the status `code`,
/// which is no success.
pub open spec fn probe_rejected(code: u16) -> GatewayErrorView {
    GatewayErrorView {
        kind: ErrorKind::UpstreamUnreachable,
        message: "Jellyfin server rejected request: "@ + status_display(code),
    }
}

/// The error for a success answer whose payload could not be read.
pub open spec fn probe_malformed(detail: Seq<char>) -> GatewayErrorView {
    GatewayErrorView {
        kind: ErrorKind::UpstreamUnreachable,
        message: "Invalid Jellyfin system info response: "@ + detail,
    }
}

/// Plans the probe of a candidate server from the device `device_id`.
pub fn plan_probe_from(app: &AppConfig, payload: &SetupRequest, device_id: &str) -> (request:
    UpstreamRequest<()>)
    ensures
        request@ == probe_request(app@, payload.server_url@, device_id@),
{
    let mut url = trim_end_slashes(payload.server_url.as_str());
    url.append("/System/Info/Public");
    let mut headers: Vec<Field> = Vec::new();
    headers.push(credential_field(build_client_header_for(app, device_id)));
    assert(fields_view(headers@) =~= seq![
        (
            credential_header_name(),
            auth_header_text(
                app.client_name@,
                app.device_name@,
                device_id@,
                app.client_version@,
                None,
            ),
        ),
    ]);
    UpstreamRequest { method: String::from_str("GET"), url, headers, body: () }
}

/// Plans the probe of a candidate server from a device identifier made up
/// for this one call.
pub fn plan_probe(app: &AppConfig, payload: &SetupRequest) -> (request: UpstreamRequest<()>)
    ensures
        exists|device_id: Seq<char>|
            is_generated_id_text(device_id) && request@ == #[trigger] probe_request(
                app@,
                payload.server_url@,
                device_id,
            ),
{
    let device_id = new_device_id();
    plan_probe_from(app, payload, device_id.as_str())
}

/// Answers a probe on what came of it: the server's own payload, untouched, for
/// a success that could be read, and a gateway error for anything else.
pub fn conclude_probe<P>(answer: UpstreamAnswer<P>) -> (reply: Reply<P>)
    ensures
        reply.cookie is None,
        match answer {
            UpstreamAnswer::Unreachable { detail } => reply.status == 502 && reply.body.is_err_with(
                probe_unreachable(detail@).message,
            ),
            UpstreamAnswer::Responded { status, body } => if !(200 <= status@ < 300) {
                reply.status == 502 && reply.body.is_err_with(probe_rejected(status@).message)
            } else {
                match body {
                    Err(detail) => reply.status == 502 && reply.body.is_err_with(
                        probe_malformed(detail@).message,
                    ),
                    Ok(info) => reply.status == 200 && reply.body.is_ok_with(info),
                }
            },
        },
{
    match answer {
        UpstreamAnswer::Unreachable { detail } => GatewayError::with_detail(
            ErrorKind::UpstreamUnreachable,
            "Failed to reach Jellyfin server: ",
            detail.as_str(),
        ).into_reply(),
        UpstreamAnswer::Responded { status, body } => {
            if !status.is_success() {
                let shown = status.describe();
                GatewayError::with_detail(
                    ErrorKind::UpstreamUnreachable,
                    "Jellyfin server rejected request: ",
                    shown.as_str(),
                ).into_reply()
            } else {
                match body {
                    Err(detail) => GatewayError::with_detail(
                        ErrorKind::UpstreamUnreachable,
                        "Invalid Jellyfin system info response: ",
                        detail.as_str(),
                    ).into_reply(),
                    Ok(info) => Reply { status: 200, cookie: None, body: ApiResponse::ok(info) },
                }
            }
        },
    }
}

} // verus!
