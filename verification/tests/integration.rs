use armature_siem::{
    get_formatter, EventCategory, EventFormat, EventFormatter, EventOutcome, SiemConfig,
    SiemEvent, SiemProvider, SiemSeverity, SyslogFacility,
};

#[test]
fn test_cef_formatting() {
    let event = SiemEvent::new("user.login")
        .category(EventCategory::Authentication)
        .severity(SiemSeverity::Low)
        .outcome(EventOutcome::Success)
        .src_ip("192.168.1.100")
        .src_user("alice")
        .action("login")
        .message("User logged in");

    let mut config = SiemConfig::default();
    config.provider = SiemProvider::ArcSight;
    config.cef_vendor = "TestVendor".to_string();
    config.cef_product = "TestProduct".to_string();
    config.cef_version = "1.0".to_string();

    let formatter = get_formatter(EventFormat::Cef, 4242);
    let result = formatter.format(&event, &config).unwrap();

    assert!(result.starts_with("CEF:0|TestVendor|TestProduct|1.0|"));
    assert!(result.contains("src=192.168.1.100"));
    assert!(result.contains("suser=alice"));
    assert!(result.contains("|3|")); // Severity 3 for Low
}

#[test]
fn test_leef_formatting() {
    let event = SiemEvent::new("auth.failure")
        .category(EventCategory::Authentication)
        .severity(SiemSeverity::High)
        .outcome(EventOutcome::Failure)
        .src_ip("10.0.0.50")
        .src_user("badactor")
        .action("login")
        .message("Authentication failed");

    let mut config = SiemConfig::default();
    config.provider = SiemProvider::QRadar;
    config.cef_vendor = "Armature".to_string();
    config.cef_product = "Security".to_string();
    config.cef_version = "1.0".to_string();

    let formatter = get_formatter(EventFormat::Leef, 4242);
    let result = formatter.format(&event, &config).unwrap();

    assert!(result.starts_with("LEEF:2.0|Armature|Security|1.0|auth.failure|"));
    assert!(result.contains("src=10.0.0.50"));
    assert!(result.contains("usrName=badactor"));
    assert!(result.contains("outcome=failure"));
}

#[test]
fn test_syslog_formatting() {
    let event = SiemEvent::new("session.created")
        .category(EventCategory::Session)
        .severity(SiemSeverity::Low)
        .outcome(EventOutcome::Success)
        .src_user("testuser")
        .action("create")
        .message("Session started");

    let mut config = SiemConfig::default();
    config.provider = SiemProvider::Syslog;
    config.app_name = "testapp".to_string();
    config.syslog_facility = SyslogFacility::Local0;

    let formatter = get_formatter(EventFormat::Syslog, 4242);
    let result = formatter.format(&event, &config).unwrap();

    // Local0 (16) * 8 + Notice (5) = 133
    assert!(result.starts_with("<133>1 "));
    assert!(result.contains("testapp"));
    assert!(result.contains("session.created"));
    assert!(result.contains("[armature@32473"));
}

#[test]
fn test_ecs_formatting() {
    let event = SiemEvent::new("http.request")
        .category(EventCategory::Web)
        .severity(SiemSeverity::Low)
        .outcome(EventOutcome::Success)
        .src_ip("192.168.1.50")
        .http_method("GET")
        .http_status(200)
        .url("/api/users")
        .user_agent("Mozilla/5.0")
        .action("request");

    let config = SiemConfig::default();

    let formatter = get_formatter(EventFormat::Ecs, 4242);
    let result = formatter.format(&event, &config).unwrap();

    let parsed: serde_json::Value = serde_json::from_str(&result).unwrap();

    assert!(parsed.get("@timestamp").is_some());
    assert_eq!(parsed["event"]["action"], "request");
    assert_eq!(parsed["source"]["ip"], "192.168.1.50");
    assert_eq!(parsed["http"]["request"]["method"], "GET");
    assert_eq!(parsed["http"]["response"]["status_code"], 200);
    assert_eq!(parsed["ecs"]["version"], "8.11");
}

#[test]
fn test_json_formatting_splunk() {
    let event = SiemEvent::new("test.event").category(EventCategory::Web).action("test");

    let mut config = SiemConfig::default();
    config.provider = SiemProvider::Splunk;
    config.source = Some("armature".to_string());
    config.source_type = Some("security".to_string());
    config.index = Some("main".to_string());

    let formatter = get_formatter(EventFormat::Json, 4242);
    let result = formatter.format(&event, &config).unwrap();

    let parsed: serde_json::Value = serde_json::from_str(&result).unwrap();

    assert!(parsed.get("time").is_some());
    assert!(parsed.get("host").is_some());
    assert_eq!(parsed["source"], "armature");
    assert_eq!(parsed["sourcetype"], "security");
    assert!(parsed.get("event").is_some());
}

#[test]
fn integration_test_batch_formatting() {
    let events = vec![
        SiemEvent::new("event.1").action("test1"),
        SiemEvent::new("event.2").action("test2"),
        SiemEvent::new("event.3").action("test3"),
    ];

    let mut config = SiemConfig::default();
    config.provider = SiemProvider::Splunk;

    let formatter = get_formatter(EventFormat::Json, 4242);
    let result = formatter.format_batch(&events, &config).unwrap();

    // Splunk expects newline-delimited JSON
    let lines: Vec<&str> = result.lines().collect();
    assert_eq!(lines.len(), 3);
}

#[test]
fn test_module_exports() {
    // Ensure all public types are accessible
    let _ = SiemEvent::new("test");
    let _ = SiemSeverity::Low;
    let _ = EventCategory::Authentication;
    let _ = EventOutcome::Success;
    let _ = SiemProvider::Splunk;
    let _ = EventFormat::Json;
}
