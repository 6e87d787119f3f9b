use std::io::Read;

use armature_siem::config::{SiemConfig, SiemProvider};
use armature_siem::error::SiemError;
use armature_siem::event::SiemEvent;
use armature_siem::format::{EcsFormatter, JsonFormatter, SyslogFormatter};
use armature_siem::time::Timestamp;
use armature_siem::transport::{
    classify_response, http_auth, prepare_http_request, sentinel_signature, tls_server_host,
    tls_trust, HttpAuth, SentinelAuth, TlsTrust, UdpTransport,
};

fn fixed_date() -> Timestamp {
    // 2024-01-15 12:00:00 UTC
    Timestamp::from_parts(1_705_320_000, 0).unwrap()
}

fn sentinel() -> SentinelAuth {
    SentinelAuth {
        workspace_id: "test-workspace-123".to_string(),
        shared_key_b64: "c3VwZXItc2VjcmV0LWtleS1tYXRlcmlhbA==".to_string(),
        log_type: "ArmatureEvent".to_string(),
    }
}

#[test]
fn sentinel_signature_known_vector() {
    let (auth, date) = sentinel_signature(&sentinel(), 16, &fixed_date()).unwrap();
    assert_eq!(date, "Mon, 15 Jan 2024 12:00:00 GMT");
    assert_eq!(auth, "SharedKey test-workspace-123:xJZwrcXTwTLznci6k1CzpQVgM4PIvPImd8Xlj6QEO1g=");
}

#[test]
fn sentinel_signature_rejects_bad_key() {
    let mut s = sentinel();
    s.shared_key_b64 = "not base64!".to_string();
    match sentinel_signature(&s, 16, &fixed_date()) {
        Err(SiemError::Auth(m)) => assert!(m.starts_with("invalid Sentinel shared key: ")),
        other => panic!("unexpected {other:?}"),
    }
}

#[test]
fn prepared_sentinel_request_signs_sent_body() {
    let body = r#"{"event":"test"}"#;
    let plan = prepare_http_request(&HttpAuth::Sentinel(sentinel()), false, body, "application/json", &fixed_date())
        .unwrap();
    assert_eq!(plan.body, body.as_bytes());
    let names: Vec<&str> = plan.headers.iter().map(|(n, _)| n.as_str()).collect();
    assert_eq!(
        names,
        vec!["Content-Type", "Authorization", "x-ms-date", "Log-Type", "time-generated-field"]
    );
    assert_eq!(
        plan.headers[1].1,
        "SharedKey test-workspace-123:xJZwrcXTwTLznci6k1CzpQVgM4PIvPImd8Xlj6QEO1g="
    );
    assert_eq!(plan.headers[3].1, "ArmatureEvent");
}

#[test]
fn compressed_request_is_gzip_of_body() {
    let body = "hello hello hello hello";
    let plan = prepare_http_request(
        &HttpAuth::Header("Bearer t".to_string()),
        true,
        body,
        "text/plain",
        &fixed_date(),
    )
    .unwrap();
    assert_eq!(&plan.body[..2], &[0x1f, 0x8b]);
    let mut out = String::new();
    flate2::read::GzDecoder::new(&plan.body[..]).read_to_string(&mut out).unwrap();
    assert_eq!(out, body);
    assert_eq!(plan.headers[0], ("Content-Type".to_string(), "text/plain".to_string()));
    assert_eq!(plan.headers[1], ("Content-Encoding".to_string(), "gzip".to_string()));
    assert_eq!(plan.headers[2], ("Authorization".to_string(), "Bearer t".to_string()));
    // The Sentinel signature covers the compressed length.
    let plan = prepare_http_request(&HttpAuth::Sentinel(sentinel()), true, body, "application/json", &fixed_date())
        .unwrap();
    let (auth, _) = sentinel_signature(&sentinel(), plan.body.len(), &fixed_date()).unwrap();
    assert_eq!(plan.headers[2].1, auth);
}

#[test]
fn http_auth_per_provider() {
    let mut c = SiemConfig::default();
    c.token = Some("tok".to_string());
    match http_auth(&c).unwrap() {
        HttpAuth::Header(h) => assert_eq!(h, "Splunk tok"),
        _ => panic!(),
    }
    c.provider = SiemProvider::Datadog;
    match http_auth(&c).unwrap() {
        HttpAuth::Header(h) => assert_eq!(h, "Bearer tok"),
        _ => panic!(),
    }
    c.provider = SiemProvider::Custom;
    c.username = Some("user".to_string());
    c.password = Some("pass".to_string());
    match http_auth(&c).unwrap() {
        HttpAuth::Header(h) => assert_eq!(h, "Basic dXNlcjpwYXNz"),
        _ => panic!(),
    }
    c.provider = SiemProvider::SumoLogic;
    match http_auth(&c).unwrap() {
        HttpAuth::Header(h) => assert_eq!(h, "tok"),
        _ => panic!(),
    }
    c.provider = SiemProvider::Sentinel;
    match http_auth(&c) {
        Err(SiemError::Config(m)) => assert_eq!(m, "Sentinel transport requires a workspace_id"),
        _ => panic!(),
    }
    c.workspace_id = Some("ws".to_string());
    c.token = None;
    match http_auth(&c) {
        Err(SiemError::Config(m)) => assert_eq!(m, "Sentinel transport requires a shared key token"),
        _ => panic!(),
    }
    c.token = Some("a2V5".to_string());
    match http_auth(&c).unwrap() {
        HttpAuth::Sentinel(s) => {
            assert_eq!(s.workspace_id, "ws");
            assert_eq!(s.log_type, "ArmatureEvent");
        }
        _ => panic!(),
    }
    let mut none = SiemConfig::default();
    none.provider = SiemProvider::Elastic;
    assert!(matches!(http_auth(&none).unwrap(), HttpAuth::NoAuth));
}

#[test]
fn responses_classified() {
    assert!(classify_response(204, "204 No Content", None, "").is_ok());
    assert_eq!(
        classify_response(429, "429 Too Many Requests", Some("7"), ""),
        Err(SiemError::RateLimited(7000))
    );
    assert_eq!(
        classify_response(403, "403 Forbidden", None, "x"),
        Err(SiemError::Auth("Authentication failed: 403 Forbidden".to_string()))
    );
    assert_eq!(
        classify_response(500, "500 Internal Server Error", None, "oops"),
        Err(SiemError::Transport("HTTP 500 Internal Server Error - oops".to_string()))
    );
}

#[test]
fn tls_host_names() {
    assert_eq!(tls_server_host("siem.example.com:6514"), "siem.example.com");
    assert_eq!(tls_server_host("[::1]:6514"), "::1");
    assert_eq!(tls_server_host("plainhost"), "plainhost");
}

#[test]
fn udp_transport_keeps_endpoint() {
    let mut c = SiemConfig::default();
    c.endpoint = "syslog.example.com:514".to_string();
    let t = UdpTransport::new(&c).unwrap();
    assert_eq!(t.endpoint_str(), "syslog.example.com:514");
}

#[test]
fn timestamps_render() {
    let t = Timestamp::from_parts(1_705_320_000, 123_000_000).unwrap();
    assert_eq!(t.to_rfc3339(), "2024-01-15T12:00:00.123+00:00");
    assert_eq!(t.to_rfc3339_z(), "2024-01-15T12:00:00.123Z");
    assert_eq!(t.timestamp_millis(), 1_705_320_000_123);
    assert!(Timestamp::from_parts(0, 1_000_000_000).is_none());
}

#[test]
fn json_strings_are_escaped() {
    let e = SiemEvent::new("quote\"and\\slash\nline").with_id("id");
    let mut c = SiemConfig::default();
    c.provider = SiemProvider::Custom;
    let out = JsonFormatter.format(&e, &c).unwrap();
    let v: serde_json::Value = serde_json::from_str(&out).unwrap();
    assert_eq!(v["event_type"], "quote\"and\\slash\nline");
    assert_eq!(v["id"], "id");
    // Control characters are written as escapes, so the record stays on one line.
    let e = SiemEvent::new("a\u{1}b\tc\r").with_id("id");
    let out = JsonFormatter.format(&e, &c).unwrap();
    assert!(out.contains("\"event_type\":\"a\\u0001b\\tc\\r\""), "{out}");
    assert!(!out.contains('\n') && !out.contains('\r'));
}

#[test]
fn formats_carry_host_name() {
    let e = SiemEvent::new("t").with_timestamp(fixed_date());
    let out = SyslogFormatter::new(77)
        .format_with_host(&e, &SiemConfig::default(), &Some("box1".to_string()))
        .unwrap();
    assert!(out.starts_with("<134>1 2024-01-15T12:00:00+00:00 box1 armature 77 t "), "{out}");
    let out = SyslogFormatter::new(77).format_with_host(&e, &SiemConfig::default(), &None).unwrap();
    assert!(out.contains(" - armature 77 "), "{out}");
    let out = EcsFormatter.format_with_host(&e, &SiemConfig::default(), &Some("box2".to_string())).unwrap();
    let v: serde_json::Value = serde_json::from_str(&out).unwrap();
    assert_eq!(v["host"]["name"], "box2");
    assert_eq!(v["@timestamp"], "2024-01-15T12:00:00+00:00");
}

#[test]
fn tls_trust_only_relaxed_when_asked() {
    let mut c = SiemConfig::default();
    assert_eq!(tls_trust(&c), TlsTrust::PublicRoots);
    c.ca_cert_path = Some("/etc/ca.pem".to_string());
    assert_eq!(tls_trust(&c), TlsTrust::CaFile("/etc/ca.pem".to_string()));
    c.tls_verify = false;
    assert_eq!(tls_trust(&c), TlsTrust::AcceptAny);
}
