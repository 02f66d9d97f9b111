//! The credential header that identifies the gateway to the upstream server.

use vstd::prelude::*;
use crate::config::AppConfig;
use crate::fields::opt_text;
use crate::ident::{is_generated_id_text, new_device_id};
use crate::models::SessionData;

verus! {

/// The credential fields of a header, in order: the four that identify the
/// caller and, where a token is given, the token as the fifth.
pub open spec fn credential_fields(
    client: Seq<char>,
    device: Seq<char>,
    device_id: Seq<char>,
    version: Seq<char>,
    token: Option<Seq<char>>,
) -> Seq<(Seq<char>, Seq<char>)> {
    let identity = seq![
        ("Client"@, client),
        ("Device"@, device),
        ("DeviceId"@, device_id),
        ("Version"@, version),
    ];
    match token {
        Some(t) => identity.push(("Token"@, t)),
        None => identity,
    }
}

/// One credential field as it is written: the name, `=`, and the value in
/// double quotes.
pub open spec fn rendered_field(field: (Seq<char>, Seq<char>)) -> Seq<char> {
    field.0 + "=\""@ + field.1 + "\""@
}

/// Credential fields as they are written: each rendered, a comma and a space
/// between neighbours.
pub open spec fn rendered_fields(fields: Seq<(Seq<char>, Seq<char>)>) -> Seq<char>
    decreases fields.len(),
{
    if fields.len() == 0 {
        Seq::empty()
    } else if fields.len() == 1 {
        rendered_field(fields[0])
    } else {
        rendered_fields(fields.drop_last()) + ", "@ + rendered_field(fields.last())
    }
}

/// The text of the credential header: the scheme, a space and the fields.
pub open spec fn auth_header_text(
    client: Seq<char>,
    device: Seq<char>,
    device_id: Seq<char>,
    version: Seq<char>,
    token: Option<Seq<char>>,
) -> Seq<char> {
    "MediaBrowser "@ + rendered_fields(credential_fields(client, device, device_id, version, token))
}

/// A header without a token has exactly four credential fields; one with a
/// token has exactly five, the same four and then the token.
pub proof fn lemma_credential_fields(
    client: Seq<char>,
    device: Seq<char>,
    device_id: Seq<char>,
    version: Seq<char>,
    token: Seq<char>,
)
    ensures
        credential_fields(client, device, device_id, version, None).len() == 4,
        credential_fields(client, device, device_id, version, Some(token)).len() == 5,
        credential_fields(client, device, device_id, version, Some(token))[4] == ("Token"@, token),
        credential_fields(client, device, device_id, version, Some(token)).subrange(0, 4)
            == credential_fields(client, device, device_id, version, None),
        credential_fields(client, device, device_id, version, None) == seq![
            ("Client"@, client),
            ("Device"@, device),
            ("DeviceId"@, device_id),
            ("Version"@, version),
        ],
{
}

/// A header with a token is the header without it, then a comma, a space and
/// the token field.
pub proof fn lemma_token_extends_header(
    client: Seq<char>,
    device: Seq<char>,
    device_id: Seq<char>,
    version: Seq<char>,
    token: Seq<char>,
)
    ensures
        auth_header_text(client, device, device_id, version, Some(token)) == auth_header_text(
            client,
            device,
            device_id,
            version,
            None,
        ) + ", "@ + rendered_field(("Token"@, token)),
{
    let without = credential_fields(client, device, device_id, version, None);
    let with = credential_fields(client, device, device_id, version, Some(token));
    assert(with.drop_last() == without);
}

/// Appends one credential field to `out`.
fn push_field(out: &mut String, name: &str, value: &str)
    ensures
        final(out)@ == old(out)@ + rendered_field((name@, value@)),
{
    out.append(name);
    out.append("=\"");
    out.append(value);
    out.append("\"");
}

/// Builds the credential header from the caller's identity and, for an
/// authenticated call, the session's token.
pub fn build_emby_auth_header(
    client: &str,
    device: &str,
    device_id: &str,
    version: &str,
    token: Option<&str>,
) -> (header: String)
    ensures
        header@ == auth_header_text(client@, device@, device_id@, version@, opt_text(token)),
{
    let ghost fields = credential_fields(client@, device@, device_id@, version@, opt_text(token));
    let ghost identity = credential_fields(client@, device@, device_id@, version@, None);
    let mut header = String::from_str("MediaBrowser ");
    push_field(&mut header, "Client", client);
    assert(header@ == "MediaBrowser "@ + rendered_fields(identity.subrange(0, 1)));
    header.append(", ");
    push_field(&mut header, "Device", device);
    proof {
        assert(identity.subrange(0, 2).drop_last() == identity.subrange(0, 1));
        assert(header@ == "MediaBrowser "@ + rendered_fields(identity.subrange(0, 2)));
    }
    header.append(", ");
    push_field(&mut header, "DeviceId", device_id);
    proof {
        assert(identity.subrange(0, 3).drop_last() == identity.subrange(0, 2));
        assert(header@ == "MediaBrowser "@ + rendered_fields(identity.subrange(0, 3)));
    }
    header.append(", ");
    push_field(&mut header, "Version", version);
    assert(header@ == "MediaBrowser "@ + rendered_fields(identity));
    if let Some(token) = token {
        header.append(", ");
        push_field(&mut header, "Token", token);
        assert(fields.drop_last() == identity);
    }
    header
}

/// The header for a call made on behalf of `session`: the gateway's identity,
/// the session's device and the session's token.
pub fn build_token_header(app: &AppConfig, session: &SessionData) -> (header: String)
    ensures
        header@ == auth_header_text(
            app.client_name@,
            app.device_name@,
            session.device_id@,
            app.client_version@,
            Some(session.access_token@),
        ),
{
    build_emby_auth_header(
        app.client_name.as_str(),
        app.device_name.as_str(),
        session.device_id.as_str(),
        app.client_version.as_str(),
        Some(session.access_token.as_str()),
    )
}

/// The header for an unauthenticated call from the device `device_id`.
pub fn build_client_header_for(app: &AppConfig, device_id: &str) -> (header: String)
    ensures
        header@ == auth_header_text(
            app.client_name@,
            app.device_name@,
            device_id@,
            app.client_version@,
            None,
        ),
{
    build_emby_auth_header(
        app.client_name.as_str(),
        app.device_name.as_str(),
        device_id,
        app.client_version.as_str(),
        None,
    )
}

/// The header for an unauthenticated call from a device identifier made up
/// for this one call.
pub fn build_client_header(app: &AppConfig) -> (header: String)
    ensures
        exists|device_id: Seq<char>|
            is_generated_id_text(device_id) && header@ == #[trigger] auth_header_text(
                app.client_name@,
                app.device_name@,
                device_id,
                app.client_version@,
                None,
            ),
{
    let device_id = new_device_id();
    build_client_header_for(app, device_id.as_str())
}

} // verus!
