use armature_siem::config::{EventFormat, SiemConfig, SiemProvider, SyslogFacility};
use armature_siem::event::{EventCategory, EventOutcome, SiemEvent, SiemSeverity};
use armature_siem::format::{
    get_formatter, CefFormatter, EcsFormatter, EventFormatter, JsonFormatter, LeefFormatter,
    SyslogFormatter,
};

fn cef_sample_event() -> SiemEvent {
    SiemEvent::new("user.login")
        .category(EventCategory::Authentication)
        .severity(SiemSeverity::Low)
        .outcome(EventOutcome::Success)
        .src_ip("192.168.1.100")
        .src_user("alice")
        .action("login")
        .message("User logged in successfully")
}

fn cef_sample_config() -> SiemConfig {
    let mut c = SiemConfig::default();
    c.cef_vendor = "Armature".to_string();
    c.cef_product = "WebApp".to_string();
    c.cef_version = "1.0".to_string();
    c
}

#[test]
fn test_cef_format() {
    let formatter = CefFormatter;
    let event = cef_sample_event();
    let config = cef_sample_config();

    let result = formatter.format(&event, &config).unwrap();

    assert!(result.starts_with("CEF:0|Armature|WebApp|1.0|"));
    assert!(result.contains("login"));
    assert!(result.contains("src=192.168.1.100"));
    assert!(result.contains("suser=alice"));
}

#[test]
fn test_cef_metadata_uses_distinct_custom_slots() {
    let formatter = CefFormatter;
    let event = cef_sample_event()
        .metadata("tenant", serde_json::Value::from("acme-corp"))
        .metadata("risk_score", serde_json::Value::from("high"));
    let config = cef_sample_config();

    let result = formatter.format(&event, &config).unwrap();

    assert!(
        result.contains("cs1=acme-corp") || result.contains("cs2=acme-corp"),
        "expected tenant value in a cs slot: {result}"
    );
    assert!(
        result.contains("cs1=high") || result.contains("cs2=high"),
        "expected risk_score value in a cs slot: {result}"
    );
    assert!(
        result.contains("acme-corp") && result.contains("high"),
        "both metadata values must survive formatting: {result}"
    );
    assert!(
        !(result.contains("cs1=acme-corp") && result.contains("cs1=high")),
        "metadata entries collided on the same cs slot: {result}"
    );
}

#[test]
fn test_cef_metadata_overflow_preserves_all_string_values() {
    let formatter = CefFormatter;
    let mut event = cef_sample_event();
    for i in 1..=8 {
        event = event.metadata(&format!("key{i}"), serde_json::Value::from(format!("val{i}")));
    }
    let config = cef_sample_config();

    let result = formatter.format(&event, &config).unwrap();

    for i in 1..=6 {
        assert!(result.contains(&format!("val{i}")), "expected val{i} in a cs slot: {result}");
    }
    assert!(result.contains("cs6="), "expected cs6 slot to be used: {result}");
    assert!(result.contains("additionalMetadata="), "expected overflow extension key: {result}");
    for i in 7..=8 {
        assert!(
            result.contains(&format!("val{i}")),
            "expected overflow val{i} to survive in additionalMetadata: {result}"
        );
    }
}

#[test]
fn test_cef_numeric_metadata_uses_cn1_when_no_http_status() {
    let formatter = CefFormatter;
    let event = cef_sample_event().metadata("risk_score", serde_json::Value::from(42));
    let config = cef_sample_config();
    assert!(event.http_status.is_none());

    let result = formatter.format(&event, &config).unwrap();

    assert!(
        result.contains("cn1=42"),
        "expected numeric metadata to use cn1 when http_status is absent: {result}"
    );
    assert!(result.contains("cn1Label=risk_score"), "expected cn1Label to be set: {result}");
}

#[test]
fn test_cef_metadata_slot_assignment_is_deterministic() {
    let formatter = CefFormatter;
    let config = cef_sample_config();

    let build_event = || {
        let mut event = cef_sample_event();
        for i in 1..=8 {
            event = event.metadata(&format!("key{i}"), serde_json::Value::from(format!("val{i}")));
        }
        event
    };

    let result_a = formatter.format(&build_event(), &config).unwrap();
    let result_b = formatter.format(&build_event(), &config).unwrap();

    let slots_a = &result_a[result_a.find("cs1=").expect("cs1 present")..];
    let slots_b = &result_b[result_b.find("cs1=").expect("cs1 present")..];
    assert_eq!(
        slots_a, slots_b,
        "CEF slot assignment must be deterministic across runs for the same input"
    );

    for i in 1..=6 {
        assert!(
            result_a.contains(&format!("cs{i}=val{i} cs{i}Label=key{i}")),
            "expected key{i}/val{i} pinned to cs{i}: {result_a}"
        );
    }
    assert!(result_a.contains("additionalMetadata="), "expected overflow for key7/key8: {result_a}");
    assert!(result_a.contains("val7") && result_a.contains("val8"));
}

#[test]
fn test_cef_escape_header() {
    assert_eq!(CefFormatter::escape_header("test|pipe"), "test\\|pipe");
    assert_eq!(CefFormatter::escape_header("test\\slash"), "test\\\\slash");
}

#[test]
fn test_cef_escape_extension() {
    assert_eq!(CefFormatter::escape_extension("key=value"), "key\\=value");
    assert_eq!(CefFormatter::escape_extension("line1\nline2"), "line1\\nline2");
}

fn ecs_sample_event() -> SiemEvent {
    SiemEvent::new("user.authentication")
        .category(EventCategory::Authentication)
        .severity(SiemSeverity::Low)
        .outcome(EventOutcome::Success)
        .src_ip("192.168.1.100")
        .src_user("alice")
        .action("login")
        .message("User logged in successfully")
        .http_method("POST")
        .http_status(200)
        .url("/api/auth/login")
}

#[test]
fn test_ecs_format() {
    let formatter = EcsFormatter;
    let event = ecs_sample_event();
    let config = SiemConfig::default();

    let result = formatter.format(&event, &config).unwrap();
    let parsed: serde_json::Value = serde_json::from_str(&result).unwrap();

    assert!(parsed.get("@timestamp").is_some());
    assert_eq!(parsed["event"]["action"], "login");
    assert_eq!(parsed["event"]["outcome"], "success");
    assert_eq!(parsed["source"]["ip"], "192.168.1.100");
    assert_eq!(parsed["user"]["name"], "alice");
    assert_eq!(parsed["http"]["request"]["method"], "POST");
    assert_eq!(parsed["http"]["response"]["status_code"], 200);
    assert_eq!(parsed["ecs"]["version"], "8.11");
}

#[test]
fn test_ecs_content_type() {
    let formatter = EcsFormatter;
    assert_eq!(formatter.content_type(), "application/json");
}

fn json_sample_event() -> SiemEvent {
    SiemEvent::new("user.login")
        .category(EventCategory::Authentication)
        .severity(SiemSeverity::Low)
        .outcome(EventOutcome::Success)
        .src_ip("192.168.1.100")
        .src_user("alice")
        .action("login")
}

#[test]
fn test_json_format_generic() {
    let formatter = JsonFormatter;
    let event = json_sample_event();
    let mut config = SiemConfig::default();
    config.provider = SiemProvider::Custom;

    let result = formatter.format(&event, &config).unwrap();

    assert!(result.contains("\"event_type\":\"user.login\""));
    assert!(result.contains("\"src_ip\":\"192.168.1.100\""));
}

#[test]
fn test_json_format_splunk() {
    let formatter = JsonFormatter;
    let event = json_sample_event();
    let mut config = SiemConfig::default();
    config.provider = SiemProvider::Splunk;
    config.source = Some("armature".to_string());
    config.source_type = Some("security".to_string());
    config.index = Some("main".to_string());

    let result = formatter.format(&event, &config).unwrap();

    assert!(result.contains("\"time\":"));
    assert!(result.contains("\"host\":"));
    assert!(result.contains("\"source\":\"armature\""));
    assert!(result.contains("\"sourcetype\":\"security\""));
    assert!(result.contains("\"event\":"));
}

#[test]
fn test_batch_format() {
    let formatter = JsonFormatter;
    let events = vec![json_sample_event(), json_sample_event()];
    let mut config = SiemConfig::default();
    config.provider = SiemProvider::Splunk;

    let result = formatter.format_batch(&events, &config).unwrap();

    let lines: Vec<&str> = result.lines().collect();
    assert_eq!(lines.len(), 2);
}

fn leef_sample_event() -> SiemEvent {
    SiemEvent::new("user.login")
        .category(EventCategory::Authentication)
        .severity(SiemSeverity::High)
        .outcome(EventOutcome::Failure)
        .src_ip("10.0.0.50")
        .src_user("bob")
        .action("login_attempt")
        .message("Failed login attempt")
}

#[test]
fn test_leef_format() {
    let formatter = LeefFormatter;
    let event = leef_sample_event();
    let mut config = SiemConfig::default();
    config.cef_vendor = "Armature".to_string();
    config.cef_product = "Security".to_string();
    config.cef_version = "2.0".to_string();

    let result = formatter.format(&event, &config).unwrap();

    assert!(result.starts_with("LEEF:2.0|Armature|Security|2.0|user.login|"));
    assert!(result.contains("src=10.0.0.50"));
    assert!(result.contains("usrName=bob"));
    assert!(result.contains("outcome=failure"));
}

#[test]
fn test_leef_escape() {
    assert_eq!(LeefFormatter::escape_header("test|pipe"), "test\\|pipe");
    assert_eq!(LeefFormatter::escape_value("key=value"), "key\\=value");
}

fn mod_sample_event() -> SiemEvent {
    SiemEvent::new("user.login")
        .category(EventCategory::Authentication)
        .severity(SiemSeverity::Low)
        .outcome(EventOutcome::Success)
        .src_ip("192.168.1.100")
        .src_user("alice")
        .action("login")
        .message("User logged in successfully")
}

fn mod_sample_config() -> SiemConfig {
    let mut c = SiemConfig::default();
    c.app_name = "test-app".to_string();
    c.cef_vendor = "TestVendor".to_string();
    c.cef_product = "TestProduct".to_string();
    c.cef_version = "1.0".to_string();
    c
}

#[test]
fn test_get_formatter() {
    let json_formatter = get_formatter(EventFormat::Json, 4242);
    assert_eq!(json_formatter.content_type(), "application/json");

    let cef_formatter = get_formatter(EventFormat::Cef, 4242);
    assert_eq!(cef_formatter.content_type(), "text/plain");
}

#[test]
fn test_format_selection() {
    let formatter = get_formatter(EventFormat::Cef, 4242);
    assert_eq!(formatter.content_type(), "text/plain");

    let formatter = get_formatter(EventFormat::Json, 4242);
    assert_eq!(formatter.content_type(), "application/json");
}

#[test]
fn mod_test_batch_formatting() {
    let events = vec![mod_sample_event(), mod_sample_event()];
    let config = mod_sample_config();
    let formatter = get_formatter(EventFormat::Json, 4242);

    let result = formatter.format_batch(&events, &config);
    assert!(result.is_ok());
    let formatted = result.unwrap();
    assert!(formatted.contains('\n'));
}

fn syslog_sample_event() -> SiemEvent {
    SiemEvent::new("auth.failure")
        .category(EventCategory::Authentication)
        .severity(SiemSeverity::High)
        .outcome(EventOutcome::Failure)
        .src_ip("192.168.1.100")
        .src_user("attacker")
        .action("login")
        .message("Authentication failed: invalid password")
}

#[test]
fn test_syslog_format() {
    let formatter = SyslogFormatter::new(4242);
    let event = syslog_sample_event();
    let mut config = SiemConfig::default();
    config.app_name = "myapp".to_string();
    config.syslog_facility = SyslogFacility::Auth;

    let result = formatter.format(&event, &config).unwrap();

    // Auth facility (4) * 8 + severity 3 (error) = 35
    assert!(result.starts_with("<35>1 "));
    assert!(result.contains("myapp"));
    assert!(result.contains("auth.failure"));
    assert!(result.contains("[armature@32473"));
    assert!(result.contains("Authentication failed"));
}

#[test]
fn test_pri_calculation() {
    // User facility (1) * 8 + info severity (6) = 14
    assert_eq!(SyslogFormatter::calculate_pri(SyslogFacility::User, 6), 14);
    // Local0 facility (16) * 8 + critical (2) = 130
    assert_eq!(SyslogFormatter::calculate_pri(SyslogFacility::Local0, 2), 130);
}

#[test]
fn test_sd_escape() {
    assert_eq!(SyslogFormatter::escape_sd_value("test\"quote"), "test\\\"quote");
    assert_eq!(SyslogFormatter::escape_sd_value("test]bracket"), "test\\]bracket");
}
