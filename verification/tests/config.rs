use armature_siem::config::{EventFormat, SiemConfig, SiemProvider, SyslogFacility, Transport};
use armature_siem::error::SiemError;
use armature_siem::provider::{
    DatadogConfig, ElasticConfig, QRadarConfig, SentinelConfig, SplunkConfig, SyslogConfig,
};
use armature_siem::time::Duration;

#[test]
fn test_config_builder() {
    let config = SiemConfig::builder()
        .provider(SiemProvider::Splunk)
        .endpoint("https://splunk.example.com:8088")
        .token("my-hec-token")
        .index("security")
        .build()
        .unwrap();

    assert_eq!(config.provider, SiemProvider::Splunk);
    assert_eq!(config.endpoint, "https://splunk.example.com:8088");
    assert_eq!(config.token, Some("my-hec-token".to_string()));
    assert_eq!(config.index, Some("security".to_string()));
}

#[test]
fn test_config_validation_empty_endpoint() {
    let result = SiemConfig::builder().provider(SiemProvider::Splunk).build();

    assert!(result.is_err());
}

#[test]
fn test_provider_defaults() {
    let config = SiemConfig::builder()
        .provider(SiemProvider::QRadar)
        .endpoint("qradar.example.com:514")
        .build()
        .unwrap();

    assert_eq!(config.format, EventFormat::Leef);
    assert_eq!(config.transport, Transport::Tcp);
}

#[test]
fn test_provider_configs() {
    // Test Splunk HEC config
    let splunk_config = SplunkConfig::hec("https://splunk.example.com:8088")
        .token("test-token")
        .build()
        .unwrap();
    assert_eq!(splunk_config.provider, SiemProvider::Splunk);
    assert!(splunk_config.endpoint.contains("/services/collector"));

    // Test Elastic config
    let elastic_config = ElasticConfig::new("https://elastic.example.com:9200")
        .index("security")
        .build()
        .unwrap();
    assert_eq!(elastic_config.provider, SiemProvider::Elastic);
    assert_eq!(elastic_config.format, EventFormat::Ecs);

    // Test QRadar config
    let qradar_config = QRadarConfig::leef("qradar.example.com:514")
        .build()
        .unwrap();
    assert_eq!(qradar_config.provider, SiemProvider::QRadar);
    assert_eq!(qradar_config.format, EventFormat::Leef);

    // Test Sentinel config
    let sentinel_config = SentinelConfig::new("workspace-id", "shared-key")
        .build()
        .unwrap();
    assert_eq!(sentinel_config.provider, SiemProvider::Sentinel);
    assert!(sentinel_config.endpoint.contains("opinsights.azure.com"));

    // Test Datadog config
    let datadog_config = DatadogConfig::new("api-key").build().unwrap();
    assert_eq!(datadog_config.provider, SiemProvider::Datadog);
    assert!(datadog_config.endpoint.contains("datadoghq.com"));
}

#[test]
fn test_config_validation() {
    // Empty endpoint should fail
    let result = SiemConfig::builder().provider(SiemProvider::Splunk).build();
    assert!(result.is_err());

    // Wrong transport/endpoint combo should fail
    let result = SiemConfig::builder()
        .provider(SiemProvider::Splunk)
        .endpoint("splunk.example.com") // Missing http://
        .transport(Transport::Https)
        .build();
    assert!(result.is_err());

    // Valid config should succeed
    let result = SiemConfig::builder()
        .provider(SiemProvider::Splunk)
        .endpoint("https://splunk.example.com:8088")
        .token("test")
        .build();
    assert!(result.is_ok());
}

#[test]
fn test_splunk_config_builder() {
    let config = SplunkConfig::hec("https://splunk.example.com:8088")
        .token("test-token")
        .index("main")
        .source_type("armature:security")
        .build()
        .unwrap();

    assert_eq!(config.provider, SiemProvider::Splunk);
    assert_eq!(config.format, EventFormat::Json);
    assert!(config.endpoint.contains("/services/collector"));
}

#[test]
fn default_config_values() {
    let c = SiemConfig::default();
    assert_eq!(c.provider, SiemProvider::Splunk);
    assert_eq!(c.endpoint, "");
    assert_eq!(c.format, EventFormat::Json);
    assert_eq!(c.transport, Transport::Https);
    assert!(c.batching_enabled);
    assert_eq!(c.batch_size, 100);
    assert_eq!(c.batch_flush_interval.as_secs(), 5);
    assert_eq!(c.connect_timeout.as_secs(), 10);
    assert_eq!(c.request_timeout.as_secs(), 30);
    assert_eq!(c.syslog_facility, SyslogFacility::Local0);
    assert_eq!(c.app_name, "armature");
    assert_eq!(c.cef_vendor, "Armature");
    assert_eq!(c.cef_product, "ArmatureFramework");
    assert_eq!(c.cef_version, "1.0");
    assert_eq!(c.max_retries, 3);
    assert_eq!(c.retry_delay.as_secs(), 1);
    assert!(!c.compression);
    assert!(c.tls_verify);
}

#[test]
fn builder_setters_store_values() {
    let c = SiemConfig::builder()
        .provider(SiemProvider::Custom)
        .endpoint("https://collector.example.com")
        .format(EventFormat::Cef)
        .transport(Transport::Https)
        .basic_auth("user", "pass")
        .source("armature")
        .source_type("json")
        .app_name("app")
        .cef_vendor("V")
        .cef_product("P")
        .cef_version("9")
        .ca_cert("/etc/ca.pem")
        .tls_verify(false)
        .compression(true)
        .batching(false)
        .batch_size(7)
        .batch_flush_interval(Duration::from_millis(250))
        .connect_timeout(Duration::from_secs(2))
        .request_timeout(Duration::from_secs(3))
        .max_retries(9)
        .retry_delay(Duration::from_millis(20))
        .syslog_facility(SyslogFacility::Auth)
        .workspace_id("ws")
        .build()
        .unwrap();
    assert_eq!(c.provider, SiemProvider::Custom);
    assert_eq!(c.format, EventFormat::Cef);
    assert_eq!(c.username, Some("user".to_string()));
    assert_eq!(c.password, Some("pass".to_string()));
    assert_eq!(c.source, Some("armature".to_string()));
    assert_eq!(c.source_type, Some("json".to_string()));
    assert_eq!(c.app_name, "app");
    assert_eq!(c.cef_vendor, "V");
    assert_eq!(c.cef_product, "P");
    assert_eq!(c.cef_version, "9");
    assert_eq!(c.ca_cert_path, Some("/etc/ca.pem".to_string()));
    assert!(!c.tls_verify);
    assert!(c.compression);
    assert!(!c.batching_enabled);
    assert_eq!(c.batch_size, 7);
    assert_eq!(c.batch_flush_interval.subsec_nanos(), 250_000_000);
    assert_eq!(c.connect_timeout.as_secs(), 2);
    assert_eq!(c.request_timeout.as_secs(), 3);
    assert_eq!(c.max_retries, 9);
    assert_eq!(c.retry_delay.subsec_nanos(), 20_000_000);
    assert_eq!(c.syslog_facility, SyslogFacility::Auth);
    assert_eq!(c.workspace_id, Some("ws".to_string()));
}

#[test]
fn provider_choice_sets_format_and_transport() {
    let pairs = [
        (SiemProvider::Splunk, EventFormat::Json, Transport::Https),
        (SiemProvider::Elastic, EventFormat::Ecs, Transport::Https),
        (SiemProvider::QRadar, EventFormat::Leef, Transport::Tcp),
        (SiemProvider::Sentinel, EventFormat::Json, Transport::Https),
        (SiemProvider::ArcSight, EventFormat::Cef, Transport::Tcp),
        (SiemProvider::Syslog, EventFormat::Syslog, Transport::Udp),
    ];
    for (p, f, t) in pairs {
        let c = SiemConfig::builder().format(EventFormat::Ecs).transport(Transport::Udp).provider(p);
        let c = c.endpoint("https://x.example").build().unwrap();
        assert_eq!(c.provider, p);
        assert_eq!(c.format, f);
        assert_eq!(c.transport, t);
    }
    // Providers without their own defaults keep the current choice.
    let c = SiemConfig::builder()
        .format(EventFormat::Cef)
        .provider(SiemProvider::Custom)
        .endpoint("https://x.example")
        .build()
        .unwrap();
    assert_eq!(c.format, EventFormat::Cef);
}

#[test]
fn validation_error_messages() {
    match SiemConfig::builder().build() {
        Err(SiemError::Config(m)) => assert!(m.contains("Endpoint")),
        other => panic!("unexpected {other:?}"),
    }
    match SiemConfig::builder().endpoint("splunk.example.com").build() {
        Err(SiemError::Config(m)) => assert!(m.contains("http")),
        other => panic!("unexpected {other:?}"),
    }
    // TCP endpoints need no scheme.
    let ok = SiemConfig::builder()
        .transport(Transport::Tcp)
        .endpoint("collector.example.com:514")
        .build();
    assert!(ok.is_ok());
}

#[test]
fn provider_presets_fill_endpoints() {
    let s = SplunkConfig::hec("https://splunk.example.com:8088").build().unwrap();
    assert_eq!(s.endpoint, "https://splunk.example.com:8088/services/collector/event");
    let s = SentinelConfig::new("ws-1", "a2V5").build().unwrap();
    assert_eq!(
        s.endpoint,
        "https://ws-1.ods.opinsights.azure.com/api/logs?api-version=2016-04-01"
    );
    assert_eq!(s.workspace_id, Some("ws-1".to_string()));
    assert_eq!(s.token, Some("a2V5".to_string()));
    let d = DatadogConfig::new("k").build().unwrap();
    assert_eq!(d.endpoint, "https://http-intake.logs.datadoghq.com/api/v2/logs");
    assert_eq!(d.token, Some("k".to_string()));
    let u = SyslogConfig::udp("syslog.example.com:514")
        .app_name("myapp")
        .syslog_facility(SyslogFacility::Auth)
        .build()
        .unwrap();
    assert_eq!(u.transport, Transport::Udp);
    assert_eq!(u.format, EventFormat::Syslog);
    assert_eq!(u.provider, SiemProvider::Syslog);
    let t = SyslogConfig::tcp("syslog.example.com:514").build().unwrap();
    assert_eq!(t.transport, Transport::Tcp);
    let q = QRadarConfig::leef("qradar.example.com:514")
        .cef_vendor("MyCompany")
        .cef_product("MyApp")
        .build()
        .unwrap();
    assert_eq!(q.transport, Transport::Tcp);
    assert_eq!(q.cef_vendor, "MyCompany");
}

#[test]
fn enum_display_names() {
    assert_eq!(SiemProvider::QRadar.to_string(), "QRadar");
    assert_eq!(SiemProvider::SumoLogic.to_string(), "SumoLogic");
    assert_eq!(EventFormat::Syslog.to_string(), "Syslog");
    assert_eq!(EventFormat::default(), EventFormat::Json);
    assert_eq!(SyslogFacility::Local7.code(), 23);
    assert_eq!(SyslogFacility::Kern.code(), 0);
    assert_eq!(SyslogFacility::default(), SyslogFacility::Local0);
}
