//! SIEM configuration with builder pattern.

use vstd::prelude::*;
use crate::error::SiemError;
use crate::event::opt_view;
use crate::text::{contains_char, starts_with};
use crate::time::Duration;

verus! {

/// SIEM provider type.
#[derive(Debug, Clone, Copy, PartialEq, Eq, Structural)]
pub enum SiemProvider {
    /// Splunk Enterprise / Cloud
    Splunk,
    /// Elasticsearch / Elastic Security
    Elastic,
    /// IBM QRadar
    QRadar,
    /// Microsoft Sentinel
    Sentinel,
    /// Sumo Logic
    SumoLogic,
    /// Datadog Security
    Datadog,
    /// LogRhythm
    LogRhythm,
    /// ArcSight (Micro Focus)
    ArcSight,
    /// Generic Syslog
    Syslog,
    /// Custom/Generic HTTPS endpoint
    Custom,
}

/// Display name of a provider.
pub open spec fn provider_name(p: SiemProvider) -> Seq<char> {
    match p {
        SiemProvider::Splunk => "Splunk"@,
        SiemProvider::Elastic => "Elastic"@,
        SiemProvider::QRadar => "QRadar"@,
        SiemProvider::Sentinel => "Sentinel"@,
        SiemProvider::SumoLogic => "SumoLogic"@,
        SiemProvider::Datadog => "Datadog"@,
        SiemProvider::LogRhythm => "LogRhythm"@,
        SiemProvider::ArcSight => "ArcSight"@,
        SiemProvider::Syslog => "Syslog"@,
        SiemProvider::Custom => "Custom"@,
    }
}

impl SiemProvider {
    /// Display name of the provider.
    pub fn to_string(&self) -> (r: String)
        ensures
            r@ == provider_name(*self),
    {
        let s = match self {
            SiemProvider::Splunk => "Splunk",
            SiemProvider::Elastic => "Elastic",
            SiemProvider::QRadar => "QRadar",
            SiemProvider::Sentinel => "Sentinel",
            SiemProvider::SumoLogic => "SumoLogic",
            SiemProvider::Datadog => "Datadog",
            SiemProvider::LogRhythm => "LogRhythm",
            SiemProvider::ArcSight => "ArcSight",
            SiemProvider::Syslog => "Syslog",
            SiemProvider::Custom => "Custom",
        };
        String::from_str(s)
    }
}

/// Event format for SIEM systems.
#[derive(Debug, Clone, Copy, PartialEq, Eq, Structural)]
pub enum EventFormat {
    /// JSON format (most flexible)
    Json,
    /// Common Event Format (ArcSight, Splunk, etc.)
    Cef,
    /// Log Event Extended Format (IBM QRadar)
    Leef,
    /// Syslog RFC 5424
    Syslog,
    /// Elastic Common Schema
    Ecs,
}

impl Default for EventFormat {
    fn default() -> (r: EventFormat)
        ensures
            r == EventFormat::Json,
    {
        EventFormat::Json
    }
}

/// Display name of a format.
pub open spec fn format_name(f: EventFormat) -> Seq<char> {
    match f {
        EventFormat::Json => "JSON"@,
        EventFormat::Cef => "CEF"@,
        EventFormat::Leef => "LEEF"@,
        EventFormat::Syslog => "Syslog"@,
        EventFormat::Ecs => "ECS"@,
    }
}

impl EventFormat {
    /// Display name of the format.
    pub fn to_string(&self) -> (r: String)
        ensures
            r@ == format_name(*self),
    {
        let s = match self {
            EventFormat::Json => "JSON",
            EventFormat::Cef => "CEF",
            EventFormat::Leef => "LEEF",
            EventFormat::Syslog => "Syslog",
            EventFormat::Ecs => "ECS",
        };
        String::from_str(s)
    }
}

/// Transport protocol.
#[derive(Debug, Clone, Copy, PartialEq, Eq, Structural)]
pub enum Transport {
    /// HTTPS (HTTP Event Collector, etc.)
    Https,
    /// TCP
    Tcp,
    /// UDP
    Udp,
    /// TLS over TCP
    Tls,
}

impl Default for Transport {
    fn default() -> (r: Transport)
        ensures
            r == Transport::Https,
    {
        Transport::Https
    }
}

/// Syslog facility.
#[derive(Debug, Clone, Copy, PartialEq, Eq, Structural)]
pub enum SyslogFacility {
    Kern,
    User,
    Mail,
    Daemon,
    Auth,
    Syslog,
    Lpr,
    News,
    Uucp,
    Cron,
    Authpriv,
    Ftp,
    Local0,
    Local1,
    Local2,
    Local3,
    Local4,
    Local5,
    Local6,
    Local7,
}

/// The numeric facility code of RFC 5424.
pub open spec fn facility_code(f: SyslogFacility) -> u8 {
    match f {
        SyslogFacility::Kern => 0,
        SyslogFacility::User => 1,
        SyslogFacility::Mail => 2,
        SyslogFacility::Daemon => 3,
        SyslogFacility::Auth => 4,
        SyslogFacility::Syslog => 5,
        SyslogFacility::Lpr => 6,
        SyslogFacility::News => 7,
        SyslogFacility::Uucp => 8,
        SyslogFacility::Cron => 9,
        SyslogFacility::Authpriv => 10,
        SyslogFacility::Ftp => 11,
        SyslogFacility::Local0 => 16,
        SyslogFacility::Local1 => 17,
        SyslogFacility::Local2 => 18,
        SyslogFacility::Local3 => 19,
        SyslogFacility::Local4 => 20,
        SyslogFacility::Local5 => 21,
        SyslogFacility::Local6 => 22,
        SyslogFacility::Local7 => 23,
    }
}

impl SyslogFacility {
    /// The numeric facility code.
    pub fn code(&self) -> (r: u8)
        ensures
            r == facility_code(*self),
            r <= 23,
    {
        match self {
            SyslogFacility::Kern => 0,
            SyslogFacility::User => 1,
            SyslogFacility::Mail => 2,
            SyslogFacility::Daemon => 3,
            SyslogFacility::Auth => 4,
            SyslogFacility::Syslog => 5,
            SyslogFacility::Lpr => 6,
            SyslogFacility::News => 7,
            SyslogFacility::Uucp => 8,
            SyslogFacility::Cron => 9,
            SyslogFacility::Authpriv => 10,
            SyslogFacility::Ftp => 11,
            SyslogFacility::Local0 => 16,
            SyslogFacility::Local1 => 17,
            SyslogFacility::Local2 => 18,
            SyslogFacility::Local3 => 19,
            SyslogFacility::Local4 => 20,
            SyslogFacility::Local5 => 21,
            SyslogFacility::Local6 => 22,
            SyslogFacility::Local7 => 23,
        }
    }
}

impl Default for SyslogFacility {
    fn default() -> (r: SyslogFacility)
        ensures
            r == SyslogFacility::Local0,
    {
        SyslogFacility::Local0
    }
}

/// SIEM client configuration.
#[derive(Debug, Clone)]
#[non_exhaustive]
pub struct SiemConfig {
    /// Target SIEM provider
    pub provider: SiemProvider,
    /// Endpoint URL or host:port
    pub endpoint: String,
    /// Event format
    pub format: EventFormat,
    /// Transport protocol
    pub transport: Transport,
    /// Authentication token (HEC token, API key, etc.)
    pub token: Option<String>,
    /// Azure Log Analytics workspace ID (Sentinel `SharedKey` authentication)
    pub workspace_id: Option<String>,
    /// Username for basic auth
    pub username: Option<String>,
    /// Password for basic auth
    pub password: Option<String>,
    /// Index/source for events (Splunk index, Elastic index, etc.)
    pub index: Option<String>,
    /// Source type (for Splunk)
    pub source_type: Option<String>,
    /// Source (for Splunk/CEF)
    pub source: Option<String>,
    /// Connection timeout
    pub connect_timeout: Duration,
    /// Request timeout
    pub request_timeout: Duration,
    /// Enable batching
    pub batching_enabled: bool,
    /// Batch size (number of events)
    pub batch_size: usize,
    /// Batch flush interval
    pub batch_flush_interval: Duration,
    /// Enable TLS certificate verification
    pub tls_verify: bool,
    /// Custom CA certificate path
    pub ca_cert_path: Option<String>,
    /// Syslog facility (for Syslog format)
    pub syslog_facility: SyslogFacility,
    /// Application name (for Syslog/CEF)
    pub app_name: String,
    /// CEF vendor name
    pub cef_vendor: String,
    /// CEF product name
    pub cef_product: String,
    /// CEF product version
    pub cef_version: String,
    /// Enable compression (gzip)
    pub compression: bool,
    /// Max retries on failure
    pub max_retries: u32,
    /// Retry delay
    pub retry_delay: Duration,
}

/// The configuration `SiemConfig::default()` produces.
pub open spec fn is_default_config(c: SiemConfig) -> bool {
    &&& c.provider == SiemProvider::Splunk
    &&& c.endpoint@ == Seq::<char>::empty()
    &&& c.format == EventFormat::Json
    &&& c.transport == Transport::Https
    &&& c.token is None
    &&& c.workspace_id is None
    &&& default_settings(c)
}

/// The default values of every setting other than the provider, endpoint,
/// format, transport, token and workspace ID.
pub open spec fn default_settings(c: SiemConfig) -> bool {
    &&& c.username is None
    &&& c.password is None
    &&& c.index is None
    &&& c.source_type is None
    &&& c.source is None
    &&& c.connect_timeout@ == 10_000_000_000
    &&& c.request_timeout@ == 30_000_000_000
    &&& c.batching_enabled
    &&& c.batch_size == 100
    &&& c.batch_flush_interval@ == 5_000_000_000
    &&& c.tls_verify
    &&& c.ca_cert_path is None
    &&& c.syslog_facility == SyslogFacility::Local0
    &&& c.app_name@ == "armature"@
    &&& c.cef_vendor@ == "Armature"@
    &&& c.cef_product@ == "ArmatureFramework"@
    &&& c.cef_version@ == "1.0"@
    &&& !c.compression
    &&& c.max_retries == 3
    &&& c.retry_delay@ == 1_000_000_000
}

impl Default for SiemConfig {
    fn default() -> (r: SiemConfig)
        ensures
            is_default_config(r),
    {
        SiemConfig {
            provider: SiemProvider::Splunk,
            endpoint: String::new(),
            format: EventFormat::Json,
            transport: Transport::Https,
            token: None,
            workspace_id: None,
            username: None,
            password: None,
            index: None,
            source_type: None,
            source: None,
            connect_timeout: Duration::from_secs(10),
            request_timeout: Duration::from_secs(30),
            batching_enabled: true,
            batch_size: 100,
            batch_flush_interval: Duration::from_secs(5),
            tls_verify: true,
            ca_cert_path: None,
            syslog_facility: SyslogFacility::Local0,
            app_name: String::from_str("armature"),
            cef_vendor: String::from_str("Armature"),
            cef_product: String::from_str("ArmatureFramework"),
            cef_version: String::from_str("1.0"),
            compression: false,
            max_retries: 3,
            retry_delay: Duration::from_millis(1000),
        }
    }
}

/// Why a configuration is rejected, if it is: the endpoint is missing, an
/// HTTPS transport lacks an `http://`/`https://` scheme, or a TCP/UDP/TLS
/// transport lacks a `host:port` colon.
pub open spec fn validation_error(c: SiemConfig) -> Option<Seq<char>> {
    if c.endpoint@.len() == 0 {
        Some("Endpoint is required"@)
    } else {
        match c.transport {
            Transport::Https => if !"http://"@.is_prefix_of(c.endpoint@) && !"https://"@.is_prefix_of(
                c.endpoint@,
            ) {
                Some("HTTPS transport requires http:// or https:// endpoint"@)
            } else {
                None
            },
            _ => if !c.endpoint@.contains(':') {
                Some("TCP/UDP transport requires host:port format"@)
            } else {
                None
            },
        }
    }
}

impl SiemConfig {
    /// Create a new config builder
    pub fn builder() -> (b: SiemConfigBuilder)
        ensures
            is_default_config(b@),
    {
        SiemConfigBuilder { config: SiemConfig::default() }
    }

    /// Validate the configuration
    pub fn validate(&self) -> (r: Result<(), SiemError>)
        ensures
            r is Ok <==> validation_error(*self) is None,
            r matches Err(e) ==> (e matches SiemError::Config(m) && validation_error(*self) == Some(
                m@,
            )),
    {
        if self.endpoint.as_str().unicode_len() == 0 {
            return Err(SiemError::Config(String::from_str("Endpoint is required")));
        }
        match self.transport {
            Transport::Https => {
                if !starts_with(self.endpoint.as_str(), "http://") && !starts_with(
                    self.endpoint.as_str(),
                    "https://",
                ) {
                    return Err(
                        SiemError::Config(
                            String::from_str("HTTPS transport requires http:// or https:// endpoint"),
                        ),
                    );
                }
            },
            Transport::Tcp | Transport::Udp | Transport::Tls => {
                if !contains_char(self.endpoint.as_str(), ':') {
                    return Err(
                        SiemError::Config(
                            String::from_str("TCP/UDP transport requires host:port format"),
                        ),
                    );
                }
            },
        }
        Ok(())
    }
}

/// The format and transport a provider selects, if it selects any.
pub open spec fn provider_defaults(p: SiemProvider) -> Option<(EventFormat, Transport)> {
    match p {
        SiemProvider::Splunk => Some((EventFormat::Json, Transport::Https)),
        SiemProvider::Elastic => Some((EventFormat::Ecs, Transport::Https)),
        SiemProvider::QRadar => Some((EventFormat::Leef, Transport::Tcp)),
        SiemProvider::Sentinel => Some((EventFormat::Json, Transport::Https)),
        SiemProvider::ArcSight => Some((EventFormat::Cef, Transport::Tcp)),
        SiemProvider::Syslog => Some((EventFormat::Syslog, Transport::Udp)),
        _ => None,
    }
}

/// Builder for SIEM configuration.
#[derive(Debug)]
pub struct SiemConfigBuilder {
    config: SiemConfig,
}

impl View for SiemConfigBuilder {
    type V = SiemConfig;

    /// The configuration built so far.
    closed spec fn view(&self) -> SiemConfig {
        self.config
    }
}

impl Default for SiemConfigBuilder {
    fn default() -> (b: SiemConfigBuilder)
        ensures
            is_default_config(b@),
    {
        SiemConfigBuilder { config: SiemConfig::default() }
    }
}

impl SiemConfigBuilder {
    /// Set the SIEM provider, together with the format and transport that
    /// the provider uses (Splunk: JSON over HTTPS, Elastic: ECS over HTTPS,
    /// QRadar: LEEF over TCP, Sentinel: JSON over HTTPS, ArcSight: CEF over
    /// TCP, Syslog: Syslog over UDP; the others keep the current choice).
    pub fn provider(self, provider: SiemProvider) -> (r: SiemConfigBuilder)
        ensures
            r@ == (match provider_defaults(provider) {
                Some((f, t)) => SiemConfig { provider, format: f, transport: t, ..self@ },
                None => SiemConfig { provider, ..self@ },
            }),
    {
        let mut config = self.config;
        config.provider = provider;
        match provider {
            SiemProvider::Splunk => {
                config.format = EventFormat::Json;
                config.transport = Transport::Https;
            },
            SiemProvider::Elastic => {
                config.format = EventFormat::Ecs;
                config.transport = Transport::Https;
            },
            SiemProvider::QRadar => {
                config.format = EventFormat::Leef;
                config.transport = Transport::Tcp;
            },
            SiemProvider::Sentinel => {
                config.format = EventFormat::Json;
                config.transport = Transport::Https;
            },
            SiemProvider::ArcSight => {
                config.format = EventFormat::Cef;
                config.transport = Transport::Tcp;
            },
            SiemProvider::Syslog => {
                config.format = EventFormat::Syslog;
                config.transport = Transport::Udp;
            },
            _ => {},
        }
        SiemConfigBuilder { config }
    }

    /// Set the endpoint URL or host:port
    pub fn endpoint(self, endpoint: &str) -> (r: SiemConfigBuilder)
        ensures
            r@.endpoint@ == endpoint@,
            r@ == (SiemConfig { endpoint: r@.endpoint, ..self@ }),
    {
        SiemConfigBuilder { config: SiemConfig { endpoint: String::from_str(endpoint), ..self.config } }
    }

    /// Set application name
    pub fn app_name(self, name: &str) -> (r: SiemConfigBuilder)
        ensures
            r@.app_name@ == name@,
            r@ == (SiemConfig { app_name: r@.app_name, ..self@ }),
    {
        SiemConfigBuilder { config: SiemConfig { app_name: String::from_str(name), ..self.config } }
    }

    /// Set CEF vendor
    pub fn cef_vendor(self, vendor: &str) -> (r: SiemConfigBuilder)
        ensures
            r@.cef_vendor@ == vendor@,
            r@ == (SiemConfig { cef_vendor: r@.cef_vendor, ..self@ }),
    {
        SiemConfigBuilder { config: SiemConfig { cef_vendor: String::from_str(vendor), ..self.config } }
    }

    /// Set CEF product
    pub fn cef_product(self, product: &str) -> (r: SiemConfigBuilder)
        ensures
            r@.cef_product@ == product@,
            r@ == (SiemConfig { cef_product: r@.cef_product, ..self@ }),
    {
        SiemConfigBuilder { config: SiemConfig { cef_product: String::from_str(product), ..self.config } }
    }

    /// Set CEF version
    pub fn cef_version(self, version: &str) -> (r: SiemConfigBuilder)
        ensures
            r@.cef_version@ == version@,
            r@ == (SiemConfig { cef_version: r@.cef_version, ..self@ }),
    {
        SiemConfigBuilder { config: SiemConfig { cef_version: String::from_str(version), ..self.config } }
    }

    /// Set the authentication token
    pub fn token(self, token: &str) -> (r: SiemConfigBuilder)
        ensures
            opt_view(r@.token) == Some(token@),
            r@ == (SiemConfig { token: r@.token, ..self@ }),
    {
        SiemConfigBuilder { config: SiemConfig { token: Some(String::from_str(token)), ..self.config } }
    }

    /// Set the Azure Log Analytics workspace ID (Sentinel `SharedKey` auth)
    pub fn workspace_id(self, workspace_id: &str) -> (r: SiemConfigBuilder)
        ensures
            opt_view(r@.workspace_id) == Some(workspace_id@),
            r@ == (SiemConfig { workspace_id: r@.workspace_id, ..self@ }),
    {
        SiemConfigBuilder { config: SiemConfig { workspace_id: Some(String::from_str(workspace_id)), ..self.config } }
    }

    /// Set the index/source
    pub fn index(self, index: &str) -> (r: SiemConfigBuilder)
        ensures
            opt_view(r@.index) == Some(index@),
            r@ == (SiemConfig { index: r@.index, ..self@ }),
    {
        SiemConfigBuilder { config: SiemConfig { index: Some(String::from_str(index)), ..self.config } }
    }

    /// Set the source type (Splunk)
    pub fn source_type(self, source_type: &str) -> (r: SiemConfigBuilder)
        ensures
            opt_view(r@.source_type) == Some(source_type@),
            r@ == (SiemConfig { source_type: r@.source_type, ..self@ }),
    {
        SiemConfigBuilder { config: SiemConfig { source_type: Some(String::from_str(source_type)), ..self.config } }
    }

    /// Set the source (Splunk/CEF)
    pub fn source(self, source: &str) -> (r: SiemConfigBuilder)
        ensures
            opt_view(r@.source) == Some(source@),
            r@ == (SiemConfig { source: r@.source, ..self@ }),
    {
        SiemConfigBuilder { config: SiemConfig { source: Some(String::from_str(source)), ..self.config } }
    }

    /// Set custom CA certificate path
    pub fn ca_cert(self, path: &str) -> (r: SiemConfigBuilder)
        ensures
            opt_view(r@.ca_cert_path) == Some(path@),
            r@ == (SiemConfig { ca_cert_path: r@.ca_cert_path, ..self@ }),
    {
        SiemConfigBuilder { config: SiemConfig { ca_cert_path: Some(String::from_str(path)), ..self.config } }
    }

    /// Set basic auth credentials
    pub fn basic_auth(self, username: &str, password: &str) -> (r: SiemConfigBuilder)
        ensures
            opt_view(r@.username) == Some(username@),
            opt_view(r@.password) == Some(password@),
            r@ == (SiemConfig { username: r@.username, password: r@.password, ..self@ }),
    {
        SiemConfigBuilder {
            config: SiemConfig {
                username: Some(String::from_str(username)),
                password: Some(String::from_str(password)),
                ..self.config
            },
        }
    }

    /// Set the event format
    pub fn format(self, format: EventFormat) -> (r: SiemConfigBuilder)
        ensures
            r@ == (SiemConfig { format: format, ..self@ }),
    {
        SiemConfigBuilder { config: SiemConfig { format: format, ..self.config } }
    }

    /// Set the transport protocol
    pub fn transport(self, transport: Transport) -> (r: SiemConfigBuilder)
        ensures
            r@ == (SiemConfig { transport: transport, ..self@ }),
    {
        SiemConfigBuilder { config: SiemConfig { transport: transport, ..self.config } }
    }

    /// Set connection timeout
    pub fn connect_timeout(self, timeout: Duration) -> (r: SiemConfigBuilder)
        ensures
            r@ == (SiemConfig { connect_timeout: timeout, ..self@ }),
    {
        SiemConfigBuilder { config: SiemConfig { connect_timeout: timeout, ..self.config } }
    }

    /// Set request timeout
    pub fn request_timeout(self, timeout: Duration) -> (r: SiemConfigBuilder)
        ensures
            r@ == (SiemConfig { request_timeout: timeout, ..self@ }),
    {
        SiemConfigBuilder { config: SiemConfig { request_timeout: timeout, ..self.config } }
    }

    /// Enable/disable batching
    pub fn batching(self, enabled: bool) -> (r: SiemConfigBuilder)
        ensures
            r@ == (SiemConfig { batching_enabled: enabled, ..self@ }),
    {
        SiemConfigBuilder { config: SiemConfig { batching_enabled: enabled, ..self.config } }
    }

    /// Set batch size
    pub fn batch_size(self, size: usize) -> (r: SiemConfigBuilder)
        ensures
            r@ == (SiemConfig { batch_size: size, ..self@ }),
    {
        SiemConfigBuilder { config: SiemConfig { batch_size: size, ..self.config } }
    }

    /// Set batch flush interval
    pub fn batch_flush_interval(self, interval: Duration) -> (r: SiemConfigBuilder)
        ensures
            r@ == (SiemConfig { batch_flush_interval: interval, ..self@ }),
    {
        SiemConfigBuilder { config: SiemConfig { batch_flush_interval: interval, ..self.config } }
    }

    /// Enable/disable TLS verification
    pub fn tls_verify(self, verify: bool) -> (r: SiemConfigBuilder)
        ensures
            r@ == (SiemConfig { tls_verify: verify, ..self@ }),
    {
        SiemConfigBuilder { config: SiemConfig { tls_verify: verify, ..self.config } }
    }

    /// Set syslog facility
    pub fn syslog_facility(self, facility: SyslogFacility) -> (r: SiemConfigBuilder)
        ensures
            r@ == (SiemConfig { syslog_facility: facility, ..self@ }),
    {
        SiemConfigBuilder { config: SiemConfig { syslog_facility: facility, ..self.config } }
    }

    /// Enable/disable compression
    pub fn compression(self, enabled: bool) -> (r: SiemConfigBuilder)
        ensures
            r@ == (SiemConfig { compression: enabled, ..self@ }),
    {
        SiemConfigBuilder { config: SiemConfig { compression: enabled, ..self.config } }
    }

    /// Set max retries
    pub fn max_retries(self, retries: u32) -> (r: SiemConfigBuilder)
        ensures
            r@ == (SiemConfig { max_retries: retries, ..self@ }),
    {
        SiemConfigBuilder { config: SiemConfig { max_retries: retries, ..self.config } }
    }

    /// Set retry delay
    pub fn retry_delay(self, delay: Duration) -> (r: SiemConfigBuilder)
        ensures
            r@ == (SiemConfig { retry_delay: delay, ..self@ }),
    {
        SiemConfigBuilder { config: SiemConfig { retry_delay: delay, ..self.config } }
    }

    /// Build the configuration; it is returned exactly when it validates.
    pub fn build(self) -> (r: Result<SiemConfig, SiemError>)
        ensures
            r is Ok <==> validation_error(self@) is None,
            r matches Ok(c) ==> c == self@,
            r matches Err(e) ==> (e matches SiemError::Config(m) && validation_error(self@) == Some(
                m@,
            )),
    {
        match self.config.validate() {
            Ok(()) => Ok(self.config),
            Err(e) => Err(e),
        }
    }
}

} // verus!
