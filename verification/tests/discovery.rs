use media_savant_api::config::AppConfig;
use media_savant_api::discovery::{conclude_probe, plan_probe, plan_probe_from};
use media_savant_api::ident::SessionId;
use media_savant_api::models::SetupRequest;
use media_savant_api::upstream::{UpstreamAnswer, UpstreamStatus};

fn app() -> AppConfig {
    AppConfig {
        port: 8080,
        client_name: "client".to_string(),
        device_name: "device".to_string(),
        client_version: "1.2.3".to_string(),
    }
}

fn setup(server_url: &str) -> SetupRequest {
    SetupRequest { server_url: server_url.to_string() }
}

fn status(code: u16) -> UpstreamStatus {
    UpstreamStatus::from_u16(code).unwrap()
}

#[test]
fn probe_gets_the_public_system_information() {
    let request = plan_probe_from(&app(), &setup("http://h/"), "dev-9");
    assert_eq!(request.method, "GET");
    assert_eq!(request.url, "http://h/System/Info/Public");
    assert_eq!(request.headers.len(), 1);
    assert_eq!(request.headers[0].name, "X-Emby-Authorization");
    assert_eq!(
        request.headers[0].value,
        "MediaBrowser Client=\"client\", Device=\"device\", DeviceId=\"dev-9\", Version=\"1.2.3\""
    );
}

#[test]
fn probe_comes_from_a_device_made_up_for_the_call() {
    let first = plan_probe(&app(), &setup("http://h"));
    let second = plan_probe(&app(), &setup("http://h"));
    assert_eq!(first.url, "http://h/System/Info/Public");
    let prefix = "MediaBrowser Client=\"client\", Device=\"device\", DeviceId=\"";
    let suffix = "\", Version=\"1.2.3\"";
    for request in [&first, &second] {
        let value = &request.headers[0].value;
        assert!(value.starts_with(prefix) && value.ends_with(suffix));
        let device_id = &value[prefix.len()..value.len() - suffix.len()];
        let id = SessionId::parse(device_id).unwrap();
        assert_eq!(id.to_text(), device_id);
        assert_eq!((id.bits >> 76) & 0xf, 4);
    }
    assert_ne!(first.headers[0].value, second.headers[0].value);
}

#[test]
fn unreachable_host_is_a_502_envelope_with_an_error_and_no_data() {
    let answer: UpstreamAnswer<serde_json::Value> =
        UpstreamAnswer::Unreachable { detail: "error sending request".to_string() };
    let reply = conclude_probe(answer);
    assert_eq!(reply.status, 502);
    assert!(reply.cookie.is_none());
    assert!(!reply.body.success);
    assert!(reply.body.data.is_none());
    let error = reply.body.error.unwrap();
    assert!(!error.is_empty());
    assert_eq!(error, "Failed to reach Jellyfin server: error sending request");
}

#[test]
fn unreachable_host_without_detail_still_has_an_error() {
    let answer: UpstreamAnswer<()> = UpstreamAnswer::Unreachable { detail: String::new() };
    let reply = conclude_probe(answer);
    assert_eq!(reply.status, 502);
    assert_eq!(reply.body.error.as_deref(), Some("Failed to reach Jellyfin server: "));
}

#[test]
fn a_server_that_refuses_is_a_502() {
    for code in [301u16, 404, 500] {
        let answer: UpstreamAnswer<u8> =
            UpstreamAnswer::Responded { status: status(code), body: Ok(1) };
        let reply = conclude_probe(answer);
        assert_eq!(reply.status, 502);
        assert!(reply.body.data.is_none());
        assert_eq!(
            reply.body.error,
            Some(format!("Jellyfin server rejected request: {}", status(code).describe()))
        );
    }
    let answer: UpstreamAnswer<u8> =
        UpstreamAnswer::Responded { status: status(503), body: Err(String::new()) };
    assert_eq!(
        conclude_probe(answer).body.error.as_deref(),
        Some("Jellyfin server rejected request: 503 Service Unavailable")
    );
}

#[test]
fn an_unreadable_payload_is_a_502() {
    let answer: UpstreamAnswer<u8> = UpstreamAnswer::Responded {
        status: status(200),
        body: Err("expected value at line 1 column 1".to_string()),
    };
    let reply = conclude_probe(answer);
    assert_eq!(reply.status, 502);
    assert!(reply.body.data.is_none());
    assert_eq!(
        reply.body.error.as_deref(),
        Some("Invalid Jellyfin system info response: expected value at line 1 column 1")
    );
}

#[test]
fn the_server_payload_is_handed_on_untouched() {
    let mut info = serde_json::Map::new();
    info.insert("ServerName".to_string(), serde_json::Value::String("media".to_string()));
    info.insert("Version".to_string(), serde_json::Value::String("10.9.0".to_string()));
    let payload = serde_json::Value::Object(info);
    let answer = UpstreamAnswer::Responded { status: status(200), body: Ok(payload.clone()) };
    let reply = conclude_probe(answer);
    assert_eq!(reply.status, 200);
    assert!(reply.cookie.is_none());
    assert!(reply.body.success);
    assert!(reply.body.error.is_none());
    assert_eq!(reply.body.data, Some(payload));
}
