//! SIEM event types and structures.

use vstd::prelude::*;
use crate::metadata::{Metadata, MetadataValue, sorted_insert};
use crate::time::Timestamp;

verus! {

/// Severity level for SIEM events.
#[derive(Debug, Clone, Copy, PartialEq, Eq, Structural, PartialOrd, Ord)]
pub enum SiemSeverity {
    /// Unknown severity (0)
    Unknown,
    /// Low severity (1-3)
    Low,
    /// Medium severity (4-6)
    Medium,
    /// High severity (7-8)
    High,
    /// Critical severity (9-10)
    Critical,
}

/// Severity on the 0-10 scale used by CEF.
pub open spec fn spec_cef_severity(s: SiemSeverity) -> u8 {
    match s {
        SiemSeverity::Unknown => 0,
        SiemSeverity::Low => 3,
        SiemSeverity::Medium => 5,
        SiemSeverity::High => 8,
        SiemSeverity::Critical => 10,
    }
}

/// Severity on the syslog scale (0 most severe, 7 least).
pub open spec fn spec_syslog_severity(s: SiemSeverity) -> u8 {
    match s {
        SiemSeverity::Unknown => 6,
        SiemSeverity::Low => 5,
        SiemSeverity::Medium => 4,
        SiemSeverity::High => 3,
        SiemSeverity::Critical => 2,
    }
}

/// Position of a severity in the order Unknown < Low < Medium < High < Critical.
pub open spec fn severity_rank(s: SiemSeverity) -> int {
    match s {
        SiemSeverity::Unknown => 0,
        SiemSeverity::Low => 1,
        SiemSeverity::Medium => 2,
        SiemSeverity::High => 3,
        SiemSeverity::Critical => 4,
    }
}

/// The two scales agree with the severity order: a more severe event never
/// gets a lower CEF number nor a higher syslog number; CEF numbers lie in
/// 0..=10 and syslog severities in 0..=7.
pub proof fn lemma_severity_scales_ordered(a: SiemSeverity, b: SiemSeverity)
    requires
        severity_rank(a) <= severity_rank(b),
    ensures
        spec_cef_severity(a) <= spec_cef_severity(b),
        spec_syslog_severity(a) >= spec_syslog_severity(b),
        spec_cef_severity(b) <= 10,
        spec_syslog_severity(a) <= 7,
        severity_rank(a) < severity_rank(b) ==> spec_cef_severity(a) < spec_cef_severity(b)
            && spec_syslog_severity(a) > spec_syslog_severity(b),
{
}

impl SiemSeverity {
    /// Get numeric value (0-10 scale for CEF)
    pub fn as_cef_severity(&self) -> (r: u8)
        ensures
            r == spec_cef_severity(*self),
    {
        match self {
            SiemSeverity::Unknown => 0,
            SiemSeverity::Low => 3,
            SiemSeverity::Medium => 5,
            SiemSeverity::High => 8,
            SiemSeverity::Critical => 10,
        }
    }

    /// Get syslog severity (0-7)
    pub fn as_syslog_severity(&self) -> (r: u8)
        ensures
            r == spec_syslog_severity(*self),
    {
        match self {
            SiemSeverity::Unknown => 6,
            SiemSeverity::Low => 5,
            SiemSeverity::Medium => 4,
            SiemSeverity::High => 3,
            SiemSeverity::Critical => 2,
        }
    }
}

impl Default for SiemSeverity {
    fn default() -> (r: SiemSeverity)
        ensures
            r == SiemSeverity::Unknown,
    {
        SiemSeverity::Unknown
    }
}

/// Event outcome.
#[derive(Debug, Clone, Copy, PartialEq, Eq, Structural)]
pub enum EventOutcome {
    /// Operation succeeded
    Success,
    /// Operation failed
    Failure,
    /// Outcome unknown
    Unknown,
}

impl Default for EventOutcome {
    fn default() -> (r: EventOutcome)
        ensures
            r == EventOutcome::Unknown,
    {
        EventOutcome::Unknown
    }
}

/// Lower-case name of an outcome (`success`, `failure`, `unknown`).
pub open spec fn outcome_lower(o: EventOutcome) -> Seq<char> {
    match o {
        EventOutcome::Success => "success"@,
        EventOutcome::Failure => "failure"@,
        EventOutcome::Unknown => "unknown"@,
    }
}

impl EventOutcome {
    /// Lower-case name of the outcome.
    pub fn as_lower_str(&self) -> (r: &'static str)
        ensures
            r@ == outcome_lower(*self),
    {
        match self {
            EventOutcome::Success => "success",
            EventOutcome::Failure => "failure",
            EventOutcome::Unknown => "unknown",
        }
    }
}

/// Event category (aligned with ECS categories).
#[derive(Debug, Clone, PartialEq, Eq)]
pub enum EventCategory {
    /// Authentication events
    Authentication,
    /// Authorization events
    Authorization,
    /// Configuration changes
    Configuration,
    /// Database activity
    Database,
    /// File system activity
    File,
    /// Host activity
    Host,
    /// IAM activity
    Iam,
    /// Intrusion detection
    IntrusionDetection,
    /// Malware activity
    Malware,
    /// Network activity
    Network,
    /// Package management
    Package,
    /// Process activity
    Process,
    /// Registry activity
    Registry,
    /// Session activity
    Session,
    /// Threat intelligence
    Threat,
    /// Vulnerability
    Vulnerability,
    /// Web activity
    Web,
    /// Custom category
    Custom(String),
}

impl Default for EventCategory {
    fn default() -> (r: EventCategory)
        ensures
            r == EventCategory::Web,
    {
        EventCategory::Web
    }
}

/// The display name of a category: its snake_case name, or the custom text.
pub open spec fn category_text(c: EventCategory) -> Seq<char> {
    match c {
        EventCategory::Authentication => "authentication"@,
        EventCategory::Authorization => "authorization"@,
        EventCategory::Configuration => "configuration"@,
        EventCategory::Database => "database"@,
        EventCategory::File => "file"@,
        EventCategory::Host => "host"@,
        EventCategory::Iam => "iam"@,
        EventCategory::IntrusionDetection => "intrusion_detection"@,
        EventCategory::Malware => "malware"@,
        EventCategory::Network => "network"@,
        EventCategory::Package => "package"@,
        EventCategory::Process => "process"@,
        EventCategory::Registry => "registry"@,
        EventCategory::Session => "session"@,
        EventCategory::Threat => "threat"@,
        EventCategory::Vulnerability => "vulnerability"@,
        EventCategory::Web => "web"@,
        EventCategory::Custom(s) => s@,
    }
}

impl EventCategory {
    /// The display name of the category.
    pub fn as_str(&self) -> (r: &str)
        ensures
            r@ == category_text(*self),
    {
        match self {
            EventCategory::Authentication => "authentication",
            EventCategory::Authorization => "authorization",
            EventCategory::Configuration => "configuration",
            EventCategory::Database => "database",
            EventCategory::File => "file",
            EventCategory::Host => "host",
            EventCategory::Iam => "iam",
            EventCategory::IntrusionDetection => "intrusion_detection",
            EventCategory::Malware => "malware",
            EventCategory::Network => "network",
            EventCategory::Package => "package",
            EventCategory::Process => "process",
            EventCategory::Registry => "registry",
            EventCategory::Session => "session",
            EventCategory::Threat => "threat",
            EventCategory::Vulnerability => "vulnerability",
            EventCategory::Web => "web",
            EventCategory::Custom(s) => s.as_str(),
        }
    }

    /// The display name of the category as a fresh string.
    pub fn to_string(&self) -> (r: String)
        ensures
            r@ == category_text(*self),
    {
        String::from_str(self.as_str())
    }
}

/// Lower-case hexadecimal digit.
pub open spec fn is_lower_hex(c: char) -> bool {
    ('0' <= c <= '9') || ('a' <= c <= 'f')
}

/// A random (version 4) UUID in lower-case hyphenated form,
/// `xxxxxxxx-xxxx-4xxx-Yxxx-xxxxxxxxxxxx` with `Y` one of `8`, `9`, `a`, `b`.
pub open spec fn is_uuid_v4_text(s: Seq<char>) -> bool {
    &&& s.len() == 36
    &&& forall|k: int| 0 <= k < 36 ==> (#[trigger] s[k] == '-' <==> (k == 8 || k == 13 || k == 18 || k == 23))
    &&& forall|k: int| 0 <= k < 36 && k != 8 && k != 13 && k != 18 && k != 23 ==> is_lower_hex(#[trigger] s[k])
    &&& s[14] == '4'
    &&& (s[19] == '8' || s[19] == '9' || s[19] == 'a' || s[19] == 'b')
}

/// Calls `uuid::Uuid::new_v4` and renders it with `to_string`. The value
/// is random; uuid fixes the version nibble to 4 and the variant bits to
/// `10`, and renders lower-case hyphenated hex. (uuid panics if the
/// operating system's random source fails.)
#[verifier::external_body]
fn random_uuid_v4() -> (r: String)
    ensures
        is_uuid_v4_text(r@),
{
    uuid::Uuid::new_v4().to_string()
}

/// The view of an optional string field.
pub open spec fn opt_view(o: Option<String>) -> Option<Seq<char>> {
    match o {
        Some(s) => Some(s@),
        None => None,
    }
}

/// SIEM event structure.
///
/// A normalized event structure that can be converted to various SIEM formats.
#[derive(Debug, Clone)]
pub struct SiemEvent {
    /// Unique event ID
    pub id: String,
    /// Timestamp when event occurred
    pub timestamp: Timestamp,
    /// Event type/name (e.g., "user.login", "file.access")
    pub event_type: String,
    /// Event category
    pub category: EventCategory,
    /// Severity level
    pub severity: SiemSeverity,
    /// Event outcome
    pub outcome: EventOutcome,
    /// Event action (e.g., "login", "logout", "create", "delete")
    pub action: String,
    /// Event message/description
    pub message: Option<String>,
    /// Source IP address
    pub src_ip: Option<String>,
    /// Source port
    pub src_port: Option<u16>,
    /// Source hostname
    pub src_host: Option<String>,
    /// Source user
    pub src_user: Option<String>,
    /// Source process
    pub src_process: Option<String>,
    /// Destination IP address
    pub dst_ip: Option<String>,
    /// Destination port
    pub dst_port: Option<u16>,
    /// Destination hostname
    pub dst_host: Option<String>,
    /// Destination user
    pub dst_user: Option<String>,
    /// HTTP method
    pub http_method: Option<String>,
    /// Request URL/path
    pub url: Option<String>,
    /// User agent
    pub user_agent: Option<String>,
    /// HTTP status code
    pub http_status: Option<u16>,
    /// Request/response size in bytes
    pub bytes: Option<u64>,
    /// Resource type being accessed
    pub resource_type: Option<String>,
    /// Resource identifier
    pub resource_id: Option<String>,
    /// Resource name
    pub resource_name: Option<String>,
    /// Application name
    pub application: Option<String>,
    /// Service name
    pub service: Option<String>,
    /// Environment (prod, staging, dev)
    pub environment: Option<String>,
    /// Error code
    pub error_code: Option<String>,
    /// Error message
    pub error_message: Option<String>,
    /// Event duration in milliseconds
    pub duration_ms: Option<u64>,
    /// Network protocol
    pub protocol: Option<String>,
    /// Device ID
    pub device_id: Option<String>,
    /// Device type
    pub device_type: Option<String>,
    /// Threat indicator type
    pub threat_indicator_type: Option<String>,
    /// Threat indicator value
    pub threat_indicator: Option<String>,
    /// File path
    pub file_path: Option<String>,
    /// File hash
    pub file_hash: Option<String>,
    /// File size
    pub file_size: Option<u64>,
    /// Additional metadata, kept in key order
    pub metadata: Metadata,
    /// Raw event data (if preserving original)
    pub raw: Option<String>,
}

impl SiemEvent {
    /// Create a new SIEM event with a fresh random ID and the current time.
    pub fn new(event_type: &str) -> (r: SiemEvent)
        ensures
            r.event_type@ == event_type@,
            is_uuid_v4_text(r.id@),
            r.timestamp@.0 >= 0,
            r.category == EventCategory::Web,
            r.severity == SiemSeverity::Unknown,
            r.outcome == EventOutcome::Unknown,
            r.action@ == "unknown"@,
            r.metadata@.len() == 0,
            r.message is None,
            r.src_ip is None,
            r.src_host is None,
            r.src_user is None,
            r.src_process is None,
            r.dst_ip is None,
            r.dst_host is None,
            r.dst_user is None,
            r.http_method is None,
            r.url is None,
            r.user_agent is None,
            r.resource_type is None,
            r.resource_id is None,
            r.resource_name is None,
            r.application is None,
            r.service is None,
            r.environment is None,
            r.error_code is None,
            r.error_message is None,
            r.protocol is None,
            r.device_id is None,
            r.device_type is None,
            r.file_path is None,
            r.file_hash is None,
            r.raw is None,
            r.threat_indicator_type is None,
            r.threat_indicator is None,
            r.src_port is None,
            r.dst_port is None,
            r.http_status is None,
            r.bytes is None,
            r.duration_ms is None,
            r.file_size is None,
            r.raw is None,
    {
        SiemEvent {
            id: random_uuid_v4(),
            timestamp: Timestamp::now(),
            event_type: String::from_str(event_type),
            category: EventCategory::Web,
            severity: SiemSeverity::Unknown,
            outcome: EventOutcome::Unknown,
            action: String::from_str("unknown"),
            message: None,
            src_ip: None,
            src_port: None,
            src_host: None,
            src_user: None,
            src_process: None,
            dst_ip: None,
            dst_port: None,
            dst_host: None,
            dst_user: None,
            http_method: None,
            url: None,
            user_agent: None,
            http_status: None,
            bytes: None,
            resource_type: None,
            resource_id: None,
            resource_name: None,
            application: None,
            service: None,
            environment: None,
            error_code: None,
            error_message: None,
            duration_ms: None,
            protocol: None,
            device_id: None,
            device_type: None,
            threat_indicator_type: None,
            threat_indicator: None,
            file_path: None,
            file_hash: None,
            file_size: None,
            metadata: Metadata::new(),
            raw: None,
        }
    }

    /// Set event category
    pub fn category(self, category: EventCategory) -> (r: SiemEvent)
        ensures
            r == (SiemEvent { category, ..self }),
    {
        SiemEvent { category, ..self }
    }

    /// Set severity
    pub fn severity(self, severity: SiemSeverity) -> (r: SiemEvent)
        ensures
            r == (SiemEvent { severity, ..self }),
    {
        SiemEvent { severity, ..self }
    }

    /// Set outcome
    pub fn outcome(self, outcome: EventOutcome) -> (r: SiemEvent)
        ensures
            r == (SiemEvent { outcome, ..self }),
    {
        SiemEvent { outcome, ..self }
    }

    /// Set action
    pub fn action(self, action: &str) -> (r: SiemEvent)
        ensures
            r.action@ == action@,
            r == (SiemEvent { action: r.action, ..self }),
    {
        SiemEvent { action: String::from_str(action), ..self }
    }

    /// Set custom ID
    pub fn with_id(self, id: &str) -> (r: SiemEvent)
        ensures
            r.id@ == id@,
            r == (SiemEvent { id: r.id, ..self }),
    {
        SiemEvent { id: String::from_str(id), ..self }
    }

    /// Set timestamp
    pub fn with_timestamp(self, timestamp: Timestamp) -> (r: SiemEvent)
        ensures
            r == (SiemEvent { timestamp, ..self }),
    {
        SiemEvent { timestamp, ..self }
    }

    /// Set threat indicator
    pub fn threat_indicator(self, indicator_type: &str, value: &str) -> (r: SiemEvent)
        ensures
            opt_view(r.threat_indicator_type) == Some(indicator_type@),
            opt_view(r.threat_indicator) == Some(value@),
            r == (SiemEvent {
                threat_indicator_type: r.threat_indicator_type,
                threat_indicator: r.threat_indicator,
                ..self
            }),
    {
        SiemEvent {
            threat_indicator_type: Some(String::from_str(indicator_type)),
            threat_indicator: Some(String::from_str(value)),
            ..self
        }
    }

    /// Add metadata given as a library value; a value already stored under
    /// the same key is replaced.
    pub fn metadata_value(self, key: &str, value: MetadataValue) -> (r: SiemEvent)
        ensures
            r.metadata@ == sorted_insert(self.metadata@, key@, value@),
            r == (SiemEvent { metadata: r.metadata, ..self }),
    {
        let mut event = self;
        event.metadata.insert(String::from_str(key), value);
        event
    }

    /// Add metadata given as a JSON value; a value already stored under the
    /// same key is replaced.
    pub fn metadata(self, key: &str, value: serde_json::Value) -> (r: SiemEvent)
        ensures
            exists|v: MetadataValue| r.metadata@ == sorted_insert(self.metadata@, key@, v@),
            r == (SiemEvent { metadata: r.metadata, ..self }),
    {
        let v = MetadataValue::from_json(value);
        let ghost vv = v;
        let r = self.metadata_value(key, v);
        assert(r.metadata@ == sorted_insert(self.metadata@, key@, vv@));
        r
    }

    /// Set message
    pub fn message(self, message: &str) -> (r: SiemEvent)
        ensures
            opt_view(r.message) == Some(message@),
            r == (SiemEvent { message: r.message, ..self }),
    {
        SiemEvent { message: Some(String::from_str(message)), ..self }
    }

    /// Set source IP
    pub fn src_ip(self, ip: &str) -> (r: SiemEvent)
        ensures
            opt_view(r.src_ip) == Some(ip@),
            r == (SiemEvent { src_ip: r.src_ip, ..self }),
    {
        SiemEvent { src_ip: Some(String::from_str(ip)), ..self }
    }

    /// Set source hostname
    pub fn src_host(self, host: &str) -> (r: SiemEvent)
        ensures
            opt_view(r.src_host) == Some(host@),
            r == (SiemEvent { src_host: r.src_host, ..self }),
    {
        SiemEvent { src_host: Some(String::from_str(host)), ..self }
    }

    /// Set source user
    pub fn src_user(self, user: &str) -> (r: SiemEvent)
        ensures
            opt_view(r.src_user) == Some(user@),
            r == (SiemEvent { src_user: r.src_user, ..self }),
    {
        SiemEvent { src_user: Some(String::from_str(user)), ..self }
    }

    /// Set source process
    pub fn src_process(self, process: &str) -> (r: SiemEvent)
        ensures
            opt_view(r.src_process) == Some(process@),
            r == (SiemEvent { src_process: r.src_process, ..self }),
    {
        SiemEvent { src_process: Some(String::from_str(process)), ..self }
    }

    /// Set destination IP
    pub fn dst_ip(self, ip: &str) -> (r: SiemEvent)
        ensures
            opt_view(r.dst_ip) == Some(ip@),
            r == (SiemEvent { dst_ip: r.dst_ip, ..self }),
    {
        SiemEvent { dst_ip: Some(String::from_str(ip)), ..self }
    }

    /// Set destination hostname
    pub fn dst_host(self, host: &str) -> (r: SiemEvent)
        ensures
            opt_view(r.dst_host) == Some(host@),
            r == (SiemEvent { dst_host: r.dst_host, ..self }),
    {
        SiemEvent { dst_host: Some(String::from_str(host)), ..self }
    }

    /// Set destination user
    pub fn dst_user(self, user: &str) -> (r: SiemEvent)
        ensures
            opt_view(r.dst_user) == Some(user@),
            r == (SiemEvent { dst_user: r.dst_user, ..self }),
    {
        SiemEvent { dst_user: Some(String::from_str(user)), ..self }
    }

    /// Set HTTP method
    pub fn http_method(self, method: &str) -> (r: SiemEvent)
        ensures
            opt_view(r.http_method) == Some(method@),
            r == (SiemEvent { http_method: r.http_method, ..self }),
    {
        SiemEvent { http_method: Some(String::from_str(method)), ..self }
    }

    /// Set URL
    pub fn url(self, url: &str) -> (r: SiemEvent)
        ensures
            opt_view(r.url) == Some(url@),
            r == (SiemEvent { url: r.url, ..self }),
    {
        SiemEvent { url: Some(String::from_str(url)), ..self }
    }

    /// Set user agent
    pub fn user_agent(self, ua: &str) -> (r: SiemEvent)
        ensures
            opt_view(r.user_agent) == Some(ua@),
            r == (SiemEvent { user_agent: r.user_agent, ..self }),
    {
        SiemEvent { user_agent: Some(String::from_str(ua)), ..self }
    }

    /// Set resource type
    pub fn resource_type(self, rt: &str) -> (r: SiemEvent)
        ensures
            opt_view(r.resource_type) == Some(rt@),
            r == (SiemEvent { resource_type: r.resource_type, ..self }),
    {
        SiemEvent { resource_type: Some(String::from_str(rt)), ..self }
    }

    /// Set resource ID
    pub fn resource_id(self, id: &str) -> (r: SiemEvent)
        ensures
            opt_view(r.resource_id) == Some(id@),
            r == (SiemEvent { resource_id: r.resource_id, ..self }),
    {
        SiemEvent { resource_id: Some(String::from_str(id)), ..self }
    }

    /// Set resource name
    pub fn resource_name(self, name: &str) -> (r: SiemEvent)
        ensures
            opt_view(r.resource_name) == Some(name@),
            r == (SiemEvent { resource_name: r.resource_name, ..self }),
    {
        SiemEvent { resource_name: Some(String::from_str(name)), ..self }
    }

    /// Set application
    pub fn application(self, app: &str) -> (r: SiemEvent)
        ensures
            opt_view(r.application) == Some(app@),
            r == (SiemEvent { application: r.application, ..self }),
    {
        SiemEvent { application: Some(String::from_str(app)), ..self }
    }

    /// Set service
    pub fn service(self, service: &str) -> (r: SiemEvent)
        ensures
            opt_view(r.service) == Some(service@),
            r == (SiemEvent { service: r.service, ..self }),
    {
        SiemEvent { service: Some(String::from_str(service)), ..self }
    }

    /// Set environment
    pub fn environment(self, env: &str) -> (r: SiemEvent)
        ensures
            opt_view(r.environment) == Some(env@),
            r == (SiemEvent { environment: r.environment, ..self }),
    {
        SiemEvent { environment: Some(String::from_str(env)), ..self }
    }

    /// Set error code
    pub fn error_code(self, code: &str) -> (r: SiemEvent)
        ensures
            opt_view(r.error_code) == Some(code@),
            r == (SiemEvent { error_code: r.error_code, ..self }),
    {
        SiemEvent { error_code: Some(String::from_str(code)), ..self }
    }

    /// Set error message
    pub fn error_message(self, msg: &str) -> (r: SiemEvent)
        ensures
            opt_view(r.error_message) == Some(msg@),
            r == (SiemEvent { error_message: r.error_message, ..self }),
    {
        SiemEvent { error_message: Some(String::from_str(msg)), ..self }
    }

    /// Set protocol
    pub fn protocol(self, proto: &str) -> (r: SiemEvent)
        ensures
            opt_view(r.protocol) == Some(proto@),
            r == (SiemEvent { protocol: r.protocol, ..self }),
    {
        SiemEvent { protocol: Some(String::from_str(proto)), ..self }
    }

    /// Set device ID
    pub fn device_id(self, id: &str) -> (r: SiemEvent)
        ensures
            opt_view(r.device_id) == Some(id@),
            r == (SiemEvent { device_id: r.device_id, ..self }),
    {
        SiemEvent { device_id: Some(String::from_str(id)), ..self }
    }

    /// Set device type
    pub fn device_type(self, dt: &str) -> (r: SiemEvent)
        ensures
            opt_view(r.device_type) == Some(dt@),
            r == (SiemEvent { device_type: r.device_type, ..self }),
    {
        SiemEvent { device_type: Some(String::from_str(dt)), ..self }
    }

    /// Set file path
    pub fn file_path(self, path: &str) -> (r: SiemEvent)
        ensures
            opt_view(r.file_path) == Some(path@),
            r == (SiemEvent { file_path: r.file_path, ..self }),
    {
        SiemEvent { file_path: Some(String::from_str(path)), ..self }
    }

    /// Set file hash
    pub fn file_hash(self, hash: &str) -> (r: SiemEvent)
        ensures
            opt_view(r.file_hash) == Some(hash@),
            r == (SiemEvent { file_hash: r.file_hash, ..self }),
    {
        SiemEvent { file_hash: Some(String::from_str(hash)), ..self }
    }

    /// Set raw event data
    pub fn raw(self, raw: &str) -> (r: SiemEvent)
        ensures
            opt_view(r.raw) == Some(raw@),
            r == (SiemEvent { raw: r.raw, ..self }),
    {
        SiemEvent { raw: Some(String::from_str(raw)), ..self }
    }

    /// Set source port
    pub fn src_port(self, port: u16) -> (r: SiemEvent)
        ensures
            r == (SiemEvent { src_port: Some(port), ..self }),
    {
        SiemEvent { src_port: Some(port), ..self }
    }

    /// Set destination port
    pub fn dst_port(self, port: u16) -> (r: SiemEvent)
        ensures
            r == (SiemEvent { dst_port: Some(port), ..self }),
    {
        SiemEvent { dst_port: Some(port), ..self }
    }

    /// Set HTTP status
    pub fn http_status(self, status: u16) -> (r: SiemEvent)
        ensures
            r == (SiemEvent { http_status: Some(status), ..self }),
    {
        SiemEvent { http_status: Some(status), ..self }
    }

    /// Set bytes
    pub fn bytes(self, bytes: u64) -> (r: SiemEvent)
        ensures
            r == (SiemEvent { bytes: Some(bytes), ..self }),
    {
        SiemEvent { bytes: Some(bytes), ..self }
    }

    /// Set duration in milliseconds
    pub fn duration_ms(self, ms: u64) -> (r: SiemEvent)
        ensures
            r == (SiemEvent { duration_ms: Some(ms), ..self }),
    {
        SiemEvent { duration_ms: Some(ms), ..self }
    }

    /// Set file size
    pub fn file_size(self, size: u64) -> (r: SiemEvent)
        ensures
            r == (SiemEvent { file_size: Some(size), ..self }),
    {
        SiemEvent { file_size: Some(size), ..self }
    }
}

} // verus!
