use armature_siem::client::{background_flush_enabled, is_retryable, pow2_saturating, Batch, BatchStep, RetryPolicy};
use armature_siem::config::{SiemConfig, SiemProvider, SyslogFacility};
use armature_siem::error::SiemError;
use armature_siem::event::{SiemEvent, SiemSeverity};
use armature_siem::format::{CefFormatter, LeefFormatter, SyslogFormatter};
use armature_siem::metadata::MetadataValue;
use armature_siem::time::Duration;

#[test]
fn lookup_after_insert_and_insertion_order() {
    let a = SiemEvent::new("t")
        .metadata_value("zeta", MetadataValue::text("1"))
        .metadata_value("alpha", MetadataValue::text("2"))
        .metadata_value("mid", MetadataValue::unsigned(3));
    let b = SiemEvent::new("t")
        .metadata_value("mid", MetadataValue::unsigned(3))
        .metadata_value("zeta", MetadataValue::text("1"))
        .metadata_value("alpha", MetadataValue::text("2"));
    assert_eq!(a.metadata.get("alpha"), Some(&MetadataValue::text("2")));
    assert_eq!(a.metadata.len(), b.metadata.len());
    for i in 0..a.metadata.len() {
        assert_eq!(a.metadata.entry(i), b.metadata.entry(i));
    }
}

#[test]
fn escaped_values_read_back() {
    // CEF extension escaping: backslash, equals sign and line breaks.
    assert_eq!(CefFormatter::escape_extension("a\\b=c\r\nd"), "a\\\\b\\=c\\r\\nd");
    // CEF header escaping turns line breaks into spaces.
    assert_eq!(CefFormatter::escape_header("a|b\\c\r\nd"), "a\\|b\\\\c  d");
    // Syslog parameter values: backslash, quote and closing bracket.
    assert_eq!(SyslogFormatter::escape_sd_value("a\\\"]"), "a\\\\\\\"\\]");
    // LEEF values: tab becomes a space, line breaks are written as escapes.
    assert_eq!(LeefFormatter::escape_value("a\tb\nc\rd"), "a b\\nc\\rd");
    assert_eq!(LeefFormatter::escape_header("x\ny|z"), "x y\\|z");
}

#[test]
fn cef_numeric_slots_start_after_http_status() {
    let mut e = SiemEvent::new("t").http_status(503);
    for i in 1..=4 {
        e = e.metadata_value(&format!("n{i}"), MetadataValue::unsigned(i));
    }
    let out = CefFormatter.format(&e, &SiemConfig::default()).unwrap();
    assert!(out.contains(" cn1=503 cn1Label=httpStatusCode"));
    assert!(out.contains(" cn2=1 cn2Label=n1"));
    assert!(out.contains(" cn3=2 cn3Label=n2"));
    assert!(!out.contains("cn4"));
    assert!(out.ends_with(" additionalMetadata={\"n3\":3,\"n4\":4}"));
}

#[test]
fn pri_splits_into_facility_and_severity() {
    let pri = SyslogFormatter::calculate_pri(SyslogFacility::Local7, 7);
    assert_eq!(pri, 191);
    assert_eq!(pri / 8, SyslogFacility::Local7.code());
    assert_eq!(pri % 8, 7);
}

#[test]
fn severity_scales_follow_order() {
    let order = [
        SiemSeverity::Unknown,
        SiemSeverity::Low,
        SiemSeverity::Medium,
        SiemSeverity::High,
        SiemSeverity::Critical,
    ];
    for w in order.windows(2) {
        assert!(w[0].as_cef_severity() < w[1].as_cef_severity());
        assert!(w[0].as_syslog_severity() > w[1].as_syslog_severity());
    }
}

#[test]
fn retry_backoff_doubles_until_retries_run_out() {
    let mut config = SiemConfig::default();
    config.max_retries = 3;
    config.retry_delay = Duration::from_millis(100);
    let policy = RetryPolicy::from_config(&config);
    let err = SiemError::Connection("refused".to_string());
    let waits: Vec<Option<u64>> = (0..4)
        .map(|a| policy.next_retry(a, &err).map(|d| d.as_secs() * 1000 + (d.subsec_nanos() / 1_000_000) as u64))
        .collect();
    assert_eq!(waits, vec![Some(100), Some(200), Some(400), None]);
    // A rate-limited response waits what the server asked for.
    let d = policy.next_retry(0, &SiemError::RateLimited(1500)).unwrap();
    assert_eq!((d.as_secs(), d.subsec_nanos()), (1, 500_000_000));
    // Permanent errors are never retried.
    assert_eq!(policy.next_retry(0, &SiemError::Auth("no".to_string())).map(|d| d.as_secs()), None);
    assert!(!is_retryable(&SiemError::BatchFull(3)));
    assert!(!is_retryable(&SiemError::Config("x".to_string())));
    assert!(is_retryable(&SiemError::Timeout(5)));
    assert!(is_retryable(&SiemError::Http("x".to_string())));
    assert_eq!(pow2_saturating(3), 8);
    assert_eq!(pow2_saturating(40), u32::MAX);
}

#[test]
fn backoff_saturates_at_largest_span() {
    let mut config = SiemConfig::default();
    config.max_retries = u32::MAX;
    config.retry_delay = Duration::from_secs(u64::MAX / 2);
    let policy = RetryPolicy::from_config(&config);
    let d = policy.next_retry(5, &SiemError::Io("x".to_string())).unwrap();
    assert_eq!(d.as_secs(), u64::MAX);
    assert_eq!(d.subsec_nanos(), 999_999_999);
}

#[test]
fn batch_flushes_when_full_and_never_holds_capacity() {
    let mut b = Batch::new(3);
    assert!(matches!(b.add(SiemEvent::new("a")), BatchStep::Queued));
    assert!(matches!(b.add(SiemEvent::new("b")), BatchStep::Queued));
    assert_eq!(b.len(), 2);
    match b.add(SiemEvent::new("c")) {
        BatchStep::Flush(v) => {
            let names: Vec<&str> = v.iter().map(|e| e.event_type.as_str()).collect();
            assert_eq!(names, vec!["a", "b", "c"]);
        }
        BatchStep::Queued => panic!("a full batch must flush"),
    }
    assert_eq!(b.len(), 0);
    assert!(matches!(b.add(SiemEvent::new("d")), BatchStep::Queued));
    let rest = b.take();
    assert_eq!(rest.len(), 1);
    assert_eq!(b.len(), 0);
    // A batch size of zero still holds a batch of one.
    let mut one = Batch::new(0);
    assert!(matches!(one.add(SiemEvent::new("x")), BatchStep::Flush(_)));
}

#[test]
fn background_flush_needs_batching_and_interval() {
    let mut c = SiemConfig::default();
    assert!(background_flush_enabled(&c));
    c.batch_flush_interval = Duration::zero();
    assert!(!background_flush_enabled(&c));
    c.batch_flush_interval = Duration::from_millis(5);
    c.batching_enabled = false;
    assert!(!background_flush_enabled(&c));
    c.provider = SiemProvider::Custom;
    assert!(!background_flush_enabled(&c));
}

#[test]
fn error_messages() {
    assert_eq!(SiemError::RateLimited(1500).to_string(), "Rate limited, retry after: 1500ms");
    assert_eq!(SiemError::BatchFull(10).to_string(), "Batch is full, max size: 10");
    assert_eq!(SiemError::Timeout(3).to_string(), "Operation timed out after 3ms");
    assert_eq!(SiemError::Config("x".to_string()).to_string(), "Configuration error: x");
    assert_eq!(SiemError::Auth("y".to_string()).to_string(), "Authentication failed: y");
}
