//! Ready-made configuration builders for the common SIEM providers. Each
//! starts from the default configuration, selects the provider (and so its
//! format and transport) and fills in the provider's endpoint.

use vstd::prelude::*;
use crate::config::{
    default_settings, EventFormat, SiemConfig, SiemConfigBuilder, SiemProvider, Transport,
};
use crate::event::opt_view;
use crate::format::parts::push_str;

verus! {

/// The settings a provider preset starts from: the defaults, with this
/// provider, format, transport and endpoint and no credentials.
pub open spec fn preset(
    c: SiemConfig,
    provider: SiemProvider,
    format: EventFormat,
    transport: Transport,
    endpoint: Seq<char>,
) -> bool {
    &&& default_settings(c)
    &&& c.provider == provider
    &&& c.format == format
    &&& c.transport == transport
    &&& c.endpoint@ == endpoint
    &&& c.token is None
    &&& c.workspace_id is None
}

/// Path of the Splunk HTTP Event Collector below the server's base URL.
pub open spec fn splunk_hec_path() -> Seq<char> {
    "/services/collector/event"@
}

/// The Azure Monitor HTTP Data Collector URL of a Log Analytics workspace.
pub open spec fn sentinel_endpoint(workspace_id: Seq<char>) -> Seq<char> {
    "https://"@ + workspace_id + ".ods.opinsights.azure.com/api/logs?api-version=2016-04-01"@
}

/// The Datadog log intake URL.
pub open spec fn datadog_endpoint() -> Seq<char> {
    "https://http-intake.logs.datadoghq.com/api/v2/logs"@
}

fn preset_builder(provider: SiemProvider, endpoint: &str) -> (b: SiemConfigBuilder)
    ensures
        b@.provider == provider,
        b@.endpoint@ == endpoint@,
        b@.token is None,
        b@.workspace_id is None,
        default_settings(b@),
        provider == SiemProvider::Datadog ==> b@.format == EventFormat::Json && b@.transport
            == Transport::Https,
        provider == SiemProvider::Splunk ==> b@.format == EventFormat::Json && b@.transport
            == Transport::Https,
        provider == SiemProvider::Elastic ==> b@.format == EventFormat::Ecs && b@.transport
            == Transport::Https,
        provider == SiemProvider::QRadar ==> b@.format == EventFormat::Leef && b@.transport
            == Transport::Tcp,
        provider == SiemProvider::Sentinel ==> b@.format == EventFormat::Json && b@.transport
            == Transport::Https,
        provider == SiemProvider::Syslog ==> b@.format == EventFormat::Syslog && b@.transport
            == Transport::Udp,
{
    SiemConfig::builder().provider(provider).endpoint(endpoint)
}

/// Splunk presets.
pub struct SplunkConfig;

impl SplunkConfig {
    /// Splunk HTTP Event Collector at `base_url` (JSON over HTTPS); the
    /// endpoint is the collector's event path below `base_url`.
    pub fn hec(base_url: &str) -> (b: SiemConfigBuilder)
        ensures
            preset(
                b@,
                SiemProvider::Splunk,
                EventFormat::Json,
                Transport::Https,
                base_url@ + splunk_hec_path(),
            ),
    {
        let mut url = String::new();
        push_str(&mut url, base_url);
        push_str(&mut url, "/services/collector/event");
        preset_builder(SiemProvider::Splunk, url.as_str())
    }
}

/// Elasticsearch presets.
pub struct ElasticConfig;

impl ElasticConfig {
    /// Elasticsearch at `url` (Elastic Common Schema over HTTPS).
    pub fn new(url: &str) -> (b: SiemConfigBuilder)
        ensures
            preset(b@, SiemProvider::Elastic, EventFormat::Ecs, Transport::Https, url@),
    {
        preset_builder(SiemProvider::Elastic, url)
    }
}

/// IBM QRadar presets.
pub struct QRadarConfig;

impl QRadarConfig {
    /// QRadar receiving LEEF over TCP at `host_port`.
    pub fn leef(host_port: &str) -> (b: SiemConfigBuilder)
        ensures
            preset(b@, SiemProvider::QRadar, EventFormat::Leef, Transport::Tcp, host_port@),
    {
        preset_builder(SiemProvider::QRadar, host_port)
    }
}

/// Microsoft Sentinel presets.
pub struct SentinelConfig;

impl SentinelConfig {
    /// Microsoft Sentinel through the Log Analytics workspace
    /// `workspace_id`, signing requests with the base64 `shared_key`
    /// (JSON over HTTPS).
    pub fn new(workspace_id: &str, shared_key: &str) -> (b: SiemConfigBuilder)
        ensures
            default_settings(b@),
            b@.provider == SiemProvider::Sentinel,
            b@.format == EventFormat::Json,
            b@.transport == Transport::Https,
            b@.endpoint@ == sentinel_endpoint(workspace_id@),
            opt_view(b@.workspace_id) == Some(workspace_id@),
            opt_view(b@.token) == Some(shared_key@),
    {
        let mut url = String::new();
        push_str(&mut url, "https://");
        push_str(&mut url, workspace_id);
        push_str(&mut url, ".ods.opinsights.azure.com/api/logs?api-version=2016-04-01");
        preset_builder(SiemProvider::Sentinel, url.as_str()).workspace_id(workspace_id).token(
            shared_key,
        )
    }
}

/// Datadog presets.
pub struct DatadogConfig;

impl DatadogConfig {
    /// Datadog log intake with the API key `api_key` (JSON over HTTPS).
    pub fn new(api_key: &str) -> (b: SiemConfigBuilder)
        ensures
            default_settings(b@),
            b@.provider == SiemProvider::Datadog,
            b@.format == EventFormat::Json,
            b@.transport == Transport::Https,
            b@.endpoint@ == datadog_endpoint(),
            b@.workspace_id is None,
            opt_view(b@.token) == Some(api_key@),
    {
        preset_builder(SiemProvider::Datadog, "https://http-intake.logs.datadoghq.com/api/v2/logs")
            .token(api_key)
    }
}

/// Generic syslog presets.
pub struct SyslogConfig;

impl SyslogConfig {
    /// Syslog (RFC 5424) over UDP to `host_port`.
    pub fn udp(host_port: &str) -> (b: SiemConfigBuilder)
        ensures
            preset(b@, SiemProvider::Syslog, EventFormat::Syslog, Transport::Udp, host_port@),
    {
        preset_builder(SiemProvider::Syslog, host_port)
    }

    /// Syslog (RFC 5424) over TCP to `host_port`.
    pub fn tcp(host_port: &str) -> (b: SiemConfigBuilder)
        ensures
            preset(b@, SiemProvider::Syslog, EventFormat::Syslog, Transport::Tcp, host_port@),
    {
        preset_builder(SiemProvider::Syslog, host_port).transport(Transport::Tcp)
    }
}

} // verus!
