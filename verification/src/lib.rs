//! Enterprise SIEM integration: event model, configuration, and the
//! CEF / LEEF / Syslog / JSON / ECS wire formats, with their contracts.

pub mod audit;
pub mod client;
pub mod codec;
pub mod config;
pub mod error;
pub mod event;
pub mod format;
pub mod metadata;
pub mod provider;
pub mod text;
pub mod time;
pub mod transport;

pub use audit::{AuditRecord, AuditSeverity, AuditStatus};
pub use client::{background_flush_enabled, is_retryable, Batch, BatchStep, RetryPolicy};
pub use config::{EventFormat, SiemConfig, SiemConfigBuilder, SiemProvider, SyslogFacility, Transport};
pub use error::{SiemError, SiemResult};
pub use event::{EventCategory, EventOutcome, SiemEvent, SiemSeverity};
pub use format::{get_formatter, EventFormatter, Formatter};
pub use metadata::{Metadata, MetadataValue};
pub use provider::{
    DatadogConfig, ElasticConfig, QRadarConfig, SentinelConfig, SplunkConfig, SyslogConfig,
};
pub use time::{Duration, Timestamp};
