//! Audit-log records and their conversion into SIEM events.

use vstd::prelude::*;
use crate::event::{EventCategory, EventOutcome, SiemEvent, SiemSeverity};
use crate::metadata::{entries_view, sorted_insert, MetaEntry, Metadata, MetadataValue};
use crate::time::Timestamp;

verus! {

/// Severity of an audit record.
#[derive(Debug, Clone, Copy, PartialEq, Eq, Structural)]
pub enum AuditSeverity {
    Info,
    Warning,
    Error,
    Critical,
}

/// Outcome of the audited operation.
#[derive(Debug, Clone, Copy, PartialEq, Eq, Structural)]
pub enum AuditStatus {
    Success,
    Failure,
    Denied,
    Error,
}

/// An audit-log record: what the conversion reads of it.
#[derive(Debug)]
pub struct AuditRecord {
    pub id: String,
    pub timestamp: Timestamp,
    pub event_type: String,
    pub severity: AuditSeverity,
    pub status: AuditStatus,
    pub action: String,
    pub user_id: Option<String>,
    pub ip_address: Option<String>,
    pub user_agent: Option<String>,
    pub method: Option<String>,
    pub path: Option<String>,
    pub status_code: Option<u16>,
    pub resource_type: Option<String>,
    pub resource_id: Option<String>,
    pub error: Option<String>,
    pub duration_ms: Option<u64>,
    /// Metadata entries, added to the event in this order.
    pub metadata: Vec<(String, MetadataValue)>,
}

/// The SIEM severity of an audit severity: info is low, warning medium,
/// error high, critical critical.
pub open spec fn severity_of_audit(s: AuditSeverity) -> SiemSeverity {
    match s {
        AuditSeverity::Info => SiemSeverity::Low,
        AuditSeverity::Warning => SiemSeverity::Medium,
        AuditSeverity::Error => SiemSeverity::High,
        AuditSeverity::Critical => SiemSeverity::Critical,
    }
}

/// The SIEM outcome of an audit status: success, or failure for a failed,
/// denied or erroneous operation.
pub open spec fn outcome_of_audit(s: AuditStatus) -> EventOutcome {
    match s {
        AuditStatus::Success => EventOutcome::Success,
        _ => EventOutcome::Failure,
    }
}

/// Metadata built by inserting the entries in order into empty metadata
/// (a later entry replaces an earlier one with the same key).
pub open spec fn metadata_of(entries: Seq<MetaEntry>) -> Seq<MetaEntry>
    decreases entries.len(),
{
    if entries.len() == 0 {
        Seq::empty()
    } else {
        sorted_insert(metadata_of(entries.drop_last()), entries.last().0, entries.last().1)
    }
}

fn convert_severity(s: AuditSeverity) -> (r: SiemSeverity)
    ensures
        r == severity_of_audit(s),
{
    match s {
        AuditSeverity::Info => SiemSeverity::Low,
        AuditSeverity::Warning => SiemSeverity::Medium,
        AuditSeverity::Error => SiemSeverity::High,
        AuditSeverity::Critical => SiemSeverity::Critical,
    }
}

fn convert_status(s: AuditStatus) -> (r: EventOutcome)
    ensures
        r == outcome_of_audit(s),
{
    match s {
        AuditStatus::Success => EventOutcome::Success,
        AuditStatus::Failure | AuditStatus::Denied | AuditStatus::Error => EventOutcome::Failure,
    }
}

fn metadata_from(entries: &Vec<(String, MetadataValue)>) -> (m: Metadata)
    ensures
        m@ == metadata_of(entries_view(entries@)),
{
    let ghost all = entries_view(entries@);
    let mut m = Metadata::new();
    let n = entries.len();
    let mut i: usize = 0;
    assert(all.take(0) =~= Seq::<MetaEntry>::empty());
    while i < n
        invariant
            n == entries@.len(),
            all == entries_view(entries@),
            i <= n,
            m@ == metadata_of(all.take(i as int)),
        decreases n - i,
    {
        let k = entries[i].0.clone();
        let v = entries[i].1.clone();
        m.insert(k, v);
        assert(all.take(i + 1).drop_last() =~= all.take(i as int));
        assert(all.take(i + 1).last() == all[i as int]);
        i = i + 1;
    }
    assert(all.take(n as int) =~= all);
    m
}

impl SiemEvent {
    /// The SIEM event for an audit record: its id, time, type and action;
    /// the web category; the mapped severity and outcome; the user as
    /// source user, the IP address as source IP, the user agent, method,
    /// path (as URL), status code, resource type and id, error (as error
    /// message) and duration where the record has them; and its metadata.
    pub fn from(audit: AuditRecord) -> (r: SiemEvent)
        ensures
            r.id == audit.id,
            r.timestamp == audit.timestamp,
            r.event_type == audit.event_type,
            r.category == EventCategory::Web,
            r.severity == severity_of_audit(audit.severity),
            r.outcome == outcome_of_audit(audit.status),
            r.action == audit.action,
            r.src_user == audit.user_id,
            r.src_ip == audit.ip_address,
            r.user_agent == audit.user_agent,
            r.http_method == audit.method,
            r.url == audit.path,
            r.http_status == audit.status_code,
            r.resource_type == audit.resource_type,
            r.resource_id == audit.resource_id,
            r.error_message == audit.error,
            r.duration_ms == audit.duration_ms,
            r.metadata@ == metadata_of(entries_view(audit.metadata@)),
            r.message is None,
            r.src_port is None,
            r.src_host is None,
            r.src_process is None,
            r.dst_ip is None,
            r.dst_port is None,
            r.dst_host is None,
            r.dst_user is None,
            r.bytes is None,
            r.resource_name is None,
            r.application is None,
            r.service is None,
            r.environment is None,
            r.error_code is None,
            r.protocol is None,
            r.device_id is None,
            r.device_type is None,
            r.threat_indicator_type is None,
            r.threat_indicator is None,
            r.file_path is None,
            r.file_hash is None,
            r.file_size is None,
            r.raw is None,
    {
        let metadata = metadata_from(&audit.metadata);
        SiemEvent {
            id: audit.id,
            timestamp: audit.timestamp,
            event_type: audit.event_type,
            category: EventCategory::Web,
            severity: convert_severity(audit.severity),
            outcome: convert_status(audit.status),
            action: audit.action,
            message: None,
            src_ip: audit.ip_address,
            src_port: None,
            src_host: None,
            src_user: audit.user_id,
            src_process: None,
            dst_ip: None,
            dst_port: None,
            dst_host: None,
            dst_user: None,
            http_method: audit.method,
            url: audit.path,
            user_agent: audit.user_agent,
            http_status: audit.status_code,
            bytes: None,
            resource_type: audit.resource_type,
            resource_id: audit.resource_id,
            resource_name: None,
            application: None,
            service: None,
            environment: None,
            error_code: None,
            error_message: audit.error,
            duration_ms: audit.duration_ms,
            protocol: None,
            device_id: None,
            device_type: None,
            threat_indicator_type: None,
            threat_indicator: None,
            file_path: None,
            file_hash: None,
            file_size: None,
            metadata,
            raw: None,
        }
    }
}

} // verus!
