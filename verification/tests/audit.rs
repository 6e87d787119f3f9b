use armature_siem::audit::{AuditRecord, AuditSeverity, AuditStatus};
use armature_siem::event::{EventCategory, EventOutcome, SiemEvent, SiemSeverity};
use armature_siem::metadata::MetadataValue;
use armature_siem::time::Timestamp;

fn record(severity: AuditSeverity, status: AuditStatus) -> AuditRecord {
    AuditRecord {
        id: "audit-1".to_string(),
        timestamp: Timestamp::from_parts(1_705_320_000, 0).unwrap(),
        event_type: "user.delete".to_string(),
        severity,
        status,
        action: "delete".to_string(),
        user_id: Some("alice".to_string()),
        ip_address: Some("10.0.0.1".to_string()),
        user_agent: Some("curl/8".to_string()),
        method: Some("DELETE".to_string()),
        path: Some("/users/7".to_string()),
        status_code: Some(403),
        resource_type: Some("user".to_string()),
        resource_id: Some("7".to_string()),
        error: Some("forbidden".to_string()),
        duration_ms: Some(12),
        metadata: vec![
            ("b".to_string(), MetadataValue::text("1")),
            ("a".to_string(), MetadataValue::unsigned(2)),
            ("b".to_string(), MetadataValue::text("3")),
        ],
    }
}

#[test]
fn audit_record_becomes_siem_event() {
    let e = SiemEvent::from(record(AuditSeverity::Warning, AuditStatus::Denied));
    assert_eq!(e.id, "audit-1");
    assert_eq!(e.timestamp.timestamp(), 1_705_320_000);
    assert_eq!(e.event_type, "user.delete");
    assert_eq!(e.category, EventCategory::Web);
    assert_eq!(e.severity, SiemSeverity::Medium);
    assert_eq!(e.outcome, EventOutcome::Failure);
    assert_eq!(e.action, "delete");
    assert_eq!(e.src_user.as_deref(), Some("alice"));
    assert_eq!(e.src_ip.as_deref(), Some("10.0.0.1"));
    assert_eq!(e.user_agent.as_deref(), Some("curl/8"));
    assert_eq!(e.http_method.as_deref(), Some("DELETE"));
    assert_eq!(e.url.as_deref(), Some("/users/7"));
    assert_eq!(e.http_status, Some(403));
    assert_eq!(e.resource_type.as_deref(), Some("user"));
    assert_eq!(e.resource_id.as_deref(), Some("7"));
    assert_eq!(e.error_message.as_deref(), Some("forbidden"));
    assert_eq!(e.duration_ms, Some(12));
    assert_eq!(e.metadata.len(), 2);
    assert_eq!(e.metadata.get("a"), Some(&MetadataValue::unsigned(2)));
    assert_eq!(e.metadata.get("b"), Some(&MetadataValue::text("3")));
    assert_eq!(e.message, None);
}

#[test]
fn audit_severity_and_status_mapping() {
    let cases = [
        (AuditSeverity::Info, SiemSeverity::Low),
        (AuditSeverity::Warning, SiemSeverity::Medium),
        (AuditSeverity::Error, SiemSeverity::High),
        (AuditSeverity::Critical, SiemSeverity::Critical),
    ];
    for (a, s) in cases {
        assert_eq!(SiemEvent::from(record(a, AuditStatus::Success)).severity, s);
    }
    let statuses = [
        (AuditStatus::Success, EventOutcome::Success),
        (AuditStatus::Failure, EventOutcome::Failure),
        (AuditStatus::Denied, EventOutcome::Failure),
        (AuditStatus::Error, EventOutcome::Failure),
    ];
    for (st, o) in statuses {
        assert_eq!(SiemEvent::from(record(AuditSeverity::Info, st)).outcome, o);
    }
}
