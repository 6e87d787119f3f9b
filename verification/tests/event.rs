use armature_siem::event::{EventCategory, EventOutcome, SiemEvent, SiemSeverity};
use armature_siem::metadata::MetadataValue;
use armature_siem::time::Timestamp;

#[test]
fn event_test_event_creation() {
    let event = SiemEvent::new("user.login")
        .category(EventCategory::Authentication)
        .severity(SiemSeverity::Low)
        .outcome(EventOutcome::Success)
        .src_ip("192.168.1.100")
        .src_user("alice")
        .action("login");

    assert_eq!(event.event_type, "user.login");
    assert_eq!(event.category, EventCategory::Authentication);
    assert_eq!(event.severity, SiemSeverity::Low);
    assert_eq!(event.outcome, EventOutcome::Success);
    assert_eq!(event.src_ip, Some("192.168.1.100".to_string()));
    assert_eq!(event.src_user, Some("alice".to_string()));
}

#[test]
fn lib_test_event_creation() {
    let event = SiemEvent::new("user.login")
        .category(EventCategory::Authentication)
        .severity(SiemSeverity::Low)
        .outcome(EventOutcome::Success)
        .src_ip("192.168.1.100")
        .src_user("alice")
        .action("login")
        .message("User logged in successfully");

    assert_eq!(event.event_type, "user.login");
    assert_eq!(event.category, EventCategory::Authentication);
    assert_eq!(event.severity, SiemSeverity::Low);
    assert_eq!(event.src_user, Some("alice".to_string()));
}

#[test]
fn test_severity_conversion() {
    assert_eq!(SiemSeverity::Unknown.as_cef_severity(), 0);
    assert_eq!(SiemSeverity::Low.as_cef_severity(), 3);
    assert_eq!(SiemSeverity::Medium.as_cef_severity(), 5);
    assert_eq!(SiemSeverity::High.as_cef_severity(), 8);
    assert_eq!(SiemSeverity::Critical.as_cef_severity(), 10);

    assert_eq!(SiemSeverity::Critical.as_syslog_severity(), 2);
}

#[test]
fn test_severity_mappings() {
    // CEF severity (0-10)
    assert_eq!(SiemSeverity::Unknown.as_cef_severity(), 0);
    assert_eq!(SiemSeverity::Low.as_cef_severity(), 3);
    assert_eq!(SiemSeverity::Medium.as_cef_severity(), 5);
    assert_eq!(SiemSeverity::High.as_cef_severity(), 8);
    assert_eq!(SiemSeverity::Critical.as_cef_severity(), 10);

    // Syslog severity (0-7, lower is more severe)
    assert_eq!(SiemSeverity::Unknown.as_syslog_severity(), 6); // Info
    assert_eq!(SiemSeverity::Low.as_syslog_severity(), 5); // Notice
    assert_eq!(SiemSeverity::Medium.as_syslog_severity(), 4); // Warning
    assert_eq!(SiemSeverity::High.as_syslog_severity(), 3); // Error
    assert_eq!(SiemSeverity::Critical.as_syslog_severity(), 2); // Critical
}

#[test]
fn test_event_metadata() {
    let event = SiemEvent::new("test")
        .metadata("custom_field", serde_json::Value::from("value"))
        .metadata("count", serde_json::Value::from(42));

    assert_eq!(event.metadata.get("custom_field"), Some(&MetadataValue::text("value")));
    assert_eq!(event.metadata.get("count"), Some(&MetadataValue::integer(42)));
}

#[test]
fn test_siem_event_builder() {
    let event = SiemEvent::new("security.alert")
        .category(EventCategory::IntrusionDetection)
        .severity(SiemSeverity::Critical)
        .outcome(EventOutcome::Success)
        .src_ip("10.0.0.100")
        .src_port(12345)
        .dst_ip("192.168.1.1")
        .dst_port(443)
        .src_user("attacker")
        .protocol("TCP")
        .action("blocked")
        .message("Suspicious connection blocked")
        .threat_indicator("ip", "10.0.0.100")
        .metadata("rule_id", serde_json::Value::from("RULE-001"))
        .metadata("confidence", serde_json::Value::from(0.95));

    assert_eq!(event.event_type, "security.alert");
    assert_eq!(event.severity, SiemSeverity::Critical);
    assert_eq!(event.src_ip, Some("10.0.0.100".to_string()));
    assert_eq!(event.dst_port, Some(443));
    assert_eq!(event.threat_indicator, Some("10.0.0.100".to_string()));
    assert_eq!(event.metadata.len(), 2);
}

#[test]
fn new_event_defaults() {
    let e = SiemEvent::new("x.y");
    assert_eq!(e.event_type, "x.y");
    assert_eq!(e.action, "unknown");
    assert_eq!(e.severity, SiemSeverity::Unknown);
    assert_eq!(e.outcome, EventOutcome::Unknown);
    assert_eq!(e.category, EventCategory::Web);
    assert!(e.metadata.is_empty());
    assert_eq!(e.src_ip, None);
    // A random version 4 UUID in hyphenated lower-case form.
    assert_eq!(e.id.len(), 36);
    assert_eq!(e.id.as_bytes()[14], b'4');
    assert!(e.id.chars().all(|c| c == '-' || c.is_ascii_hexdigit() && !c.is_ascii_uppercase()));
    let other = SiemEvent::new("x.y");
    assert_ne!(e.id, other.id);
    // Stamped with the current time.
    assert!(e.timestamp.timestamp() > 1_600_000_000);
    assert!(other.timestamp.timestamp_millis() >= e.timestamp.timestamp_millis());
}

#[test]
fn builders_set_fields() {
    let e = SiemEvent::new("t")
        .with_id("fixed-id")
        .with_timestamp(Timestamp::from_parts(1_700_000_000, 5).unwrap())
        .src_host("h1")
        .src_process("p")
        .dst_host("h2")
        .dst_user("u2")
        .http_method("GET")
        .url("/x")
        .user_agent("ua")
        .http_status(404)
        .bytes(10)
        .resource_type("rt")
        .resource_id("rid")
        .resource_name("rn")
        .application("app")
        .service("svc")
        .environment("prod")
        .error_code("E1")
        .error_message("boom")
        .duration_ms(12)
        .device_id("d1")
        .device_type("dt")
        .file_path("/f")
        .file_hash("abc")
        .file_size(99)
        .raw("raw line");
    assert_eq!(e.id, "fixed-id");
    assert_eq!(e.timestamp.timestamp(), 1_700_000_000);
    assert_eq!(e.timestamp.timestamp_subsec_nanos(), 5);
    assert_eq!(e.src_host.as_deref(), Some("h1"));
    assert_eq!(e.src_process.as_deref(), Some("p"));
    assert_eq!(e.dst_host.as_deref(), Some("h2"));
    assert_eq!(e.dst_user.as_deref(), Some("u2"));
    assert_eq!(e.http_method.as_deref(), Some("GET"));
    assert_eq!(e.url.as_deref(), Some("/x"));
    assert_eq!(e.user_agent.as_deref(), Some("ua"));
    assert_eq!(e.http_status, Some(404));
    assert_eq!(e.bytes, Some(10));
    assert_eq!(e.resource_type.as_deref(), Some("rt"));
    assert_eq!(e.resource_id.as_deref(), Some("rid"));
    assert_eq!(e.resource_name.as_deref(), Some("rn"));
    assert_eq!(e.application.as_deref(), Some("app"));
    assert_eq!(e.service.as_deref(), Some("svc"));
    assert_eq!(e.environment.as_deref(), Some("prod"));
    assert_eq!(e.error_code.as_deref(), Some("E1"));
    assert_eq!(e.error_message.as_deref(), Some("boom"));
    assert_eq!(e.duration_ms, Some(12));
    assert_eq!(e.device_id.as_deref(), Some("d1"));
    assert_eq!(e.device_type.as_deref(), Some("dt"));
    assert_eq!(e.file_path.as_deref(), Some("/f"));
    assert_eq!(e.file_hash.as_deref(), Some("abc"));
    assert_eq!(e.file_size, Some(99));
    assert_eq!(e.raw.as_deref(), Some("raw line"));
}

#[test]
fn threat_indicator_sets_type_and_value() {
    let e = SiemEvent::new("t").threat_indicator("domain", "evil.example");
    assert_eq!(e.threat_indicator.as_deref(), Some("evil.example"));
    assert_eq!(e.threat_indicator_type.as_deref(), Some("domain"));
    assert_eq!(e.category, EventCategory::Web);
}

#[test]
fn metadata_overwrites_same_key() {
    let e = SiemEvent::new("t")
        .metadata_value("k", MetadataValue::text("a"))
        .metadata_value("k", MetadataValue::text("b"))
        .metadata_value("j", MetadataValue::unsigned(7));
    assert_eq!(e.metadata.len(), 2);
    assert_eq!(e.metadata.get("k"), Some(&MetadataValue::text("b")));
    assert_eq!(e.metadata.get("j"), Some(&MetadataValue::unsigned(7)));
    assert_eq!(e.metadata.get("missing"), None);
    // Entries are kept in key order.
    assert_eq!(e.metadata.entry(0).0, "j");
    assert_eq!(e.metadata.entry(1).0, "k");
}

#[test]
fn metadata_json_values() {
    let e = SiemEvent::new("t")
        .metadata("b", serde_json::Value::Bool(true))
        .metadata("n", serde_json::Value::Null)
        .metadata("arr", serde_json::Value::from(vec![1, 2]));
    assert_eq!(e.metadata.get("b"), Some(&MetadataValue::boolean(true)));
    assert_eq!(e.metadata.get("n"), Some(&MetadataValue::null()));
    assert_eq!(e.metadata.get("arr").unwrap().text, "[1,2]");
    assert!(!e.metadata.get("arr").unwrap().is_number());
    let f = MetadataValue::from_json(serde_json::Value::from(0.95));
    assert!(f.is_number());
    assert_eq!(f.text, "0.95");
    let o = MetadataValue::from_json(serde_json::Value::Object(serde_json::Map::new()));
    assert!(!o.is_number());
    assert_eq!(o.text, "{}");
    let t = MetadataValue::from_json(serde_json::Value::from("x\"y"));
    assert_eq!(t, MetadataValue::text("x\"y"));
    assert!(MetadataValue::integer(-3).is_number());
    assert_eq!(MetadataValue::integer(-3).text, "-3");
}

#[test]
fn category_and_outcome_names() {
    assert_eq!(EventCategory::IntrusionDetection.to_string(), "intrusion_detection");
    assert_eq!(EventCategory::Custom("mine".to_string()).to_string(), "mine");
    assert_eq!(EventCategory::Iam.as_str(), "iam");
    assert_eq!(EventOutcome::Failure.as_lower_str(), "failure");
    assert_eq!(SiemSeverity::default(), SiemSeverity::Unknown);
    assert_eq!(EventOutcome::default(), EventOutcome::Unknown);
    assert_eq!(EventCategory::default(), EventCategory::Web);
}
