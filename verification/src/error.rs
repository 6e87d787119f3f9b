//! SIEM error types.

use vstd::prelude::*;
use crate::format::parts::push_str;
use crate::text::{dec, push_u64};

verus! {

/// SIEM-related errors.
///
/// Errors raised by outside libraries (JSON, HTTP, I/O, URL parsing) are
/// carried as their rendered messages.
#[derive(Debug, Clone, PartialEq, Eq)]
pub enum SiemError {
    /// Configuration error
    Config(String),
    /// Connection error
    Connection(String),
    /// Transport error (sending events)
    Transport(String),
    /// Serialization error
    Serialization(String),
    /// HTTP error (for HEC endpoints)
    Http(String),
    /// IO error
    Io(String),
    /// URL parse error
    UrlParse(String),
    /// Authentication error
    Auth(String),
    /// Rate limited, retry after the given number of milliseconds
    RateLimited(u64),
    /// Provider not supported
    UnsupportedProvider(String),
    /// Format not supported
    UnsupportedFormat(String),
    /// Batch full
    BatchFull(usize),
    /// Timeout after the given number of milliseconds
    Timeout(u64),
}

/// The message of an error, as it is displayed.
pub open spec fn error_text(e: SiemError) -> Seq<char> {
    match e {
        SiemError::Config(m) => "Configuration error: "@ + m@,
        SiemError::Connection(m) => "Connection failed: "@ + m@,
        SiemError::Transport(m) => "Transport error: "@ + m@,
        SiemError::Serialization(m) => "Serialization error: "@ + m@,
        SiemError::Http(m) => "HTTP error: "@ + m@,
        SiemError::Io(m) => "IO error: "@ + m@,
        SiemError::UrlParse(m) => "Invalid URL: "@ + m@,
        SiemError::Auth(m) => "Authentication failed: "@ + m@,
        SiemError::RateLimited(ms) => "Rate limited, retry after: "@ + dec(ms as nat) + "ms"@,
        SiemError::UnsupportedProvider(m) => "Provider not supported: "@ + m@,
        SiemError::UnsupportedFormat(m) => "Format not supported: "@ + m@,
        SiemError::BatchFull(n) => "Batch is full, max size: "@ + dec(n as nat),
        SiemError::Timeout(ms) => "Operation timed out after "@ + dec(ms as nat) + "ms"@,
    }
}

impl SiemError {
    /// The message of the error, as it is displayed.
    pub fn to_string(&self) -> (r: String)
        ensures
            r@ == error_text(*self),
    {
        let mut out = String::new();
        match self {
            SiemError::Config(m) => {
                push_str(&mut out, "Configuration error: ");
                out.append(m.as_str());
            },
            SiemError::Connection(m) => {
                push_str(&mut out, "Connection failed: ");
                out.append(m.as_str());
            },
            SiemError::Transport(m) => {
                push_str(&mut out, "Transport error: ");
                out.append(m.as_str());
            },
            SiemError::Serialization(m) => {
                push_str(&mut out, "Serialization error: ");
                out.append(m.as_str());
            },
            SiemError::Http(m) => {
                push_str(&mut out, "HTTP error: ");
                out.append(m.as_str());
            },
            SiemError::Io(m) => {
                push_str(&mut out, "IO error: ");
                out.append(m.as_str());
            },
            SiemError::UrlParse(m) => {
                push_str(&mut out, "Invalid URL: ");
                out.append(m.as_str());
            },
            SiemError::Auth(m) => {
                push_str(&mut out, "Authentication failed: ");
                out.append(m.as_str());
            },
            SiemError::RateLimited(ms) => {
                push_str(&mut out, "Rate limited, retry after: ");
                push_u64(&mut out, *ms);
                push_str(&mut out, "ms");
            },
            SiemError::UnsupportedProvider(m) => {
                push_str(&mut out, "Provider not supported: ");
                out.append(m.as_str());
            },
            SiemError::UnsupportedFormat(m) => {
                push_str(&mut out, "Format not supported: ");
                out.append(m.as_str());
            },
            SiemError::BatchFull(n) => {
                push_str(&mut out, "Batch is full, max size: ");
                push_u64(&mut out, *n as u64);
            },
            SiemError::Timeout(ms) => {
                push_str(&mut out, "Operation timed out after ");
                push_u64(&mut out, *ms);
                push_str(&mut out, "ms");
            },
        }
        out
    }
}

/// Result type for SIEM operations.
pub type SiemResult<T> = Result<T, SiemError>;

} // verus!
