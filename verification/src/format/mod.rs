//! SIEM event format converters.
//!
//! - **CEF** - Common Event Format (ArcSight, Splunk, etc.)
//! - **LEEF** - Log Event Extended Format (IBM QRadar)
//! - **Syslog** - RFC 5424 Syslog format
//! - **JSON** - Generic JSON format
//! - **ECS** - Elastic Common Schema

pub mod cef;
pub mod ecs;
pub mod json;
pub mod leef;
pub mod parts;
pub mod syslog;

pub use cef::CefFormatter;
pub use ecs::EcsFormatter;
pub use json::JsonFormatter;
pub use leef::LeefFormatter;
pub use syslog::SyslogFormatter;

use vstd::prelude::*;
use crate::config::{EventFormat, SiemConfig};
use crate::error::SiemError;
use crate::event::{opt_view, SiemEvent};
use cef::cef_record;
use ecs::{ecs_duration_fits, ecs_record};
use json::{json_batch, json_record};
use leef::leef_record;
use parts::{join_lines, push_str};
use syslog::{host_or, syslog_record, system_hostname};

verus! {

/// Formatting of events into one of the wire formats.
pub trait EventFormatter {
    /// Events this formatter can render.
    spec fn accepts(&self, event: SiemEvent) -> bool;

    /// Format an event to string
    fn format(&self, event: &SiemEvent, config: &SiemConfig) -> Result<String, SiemError>
        requires
            self.accepts(*event),
    ;

    /// Format multiple events (for batch sending)
    fn format_batch(&self, events: &[SiemEvent], config: &SiemConfig) -> Result<String, SiemError>
        requires
            forall|i: int| 0 <= i < events@.len() ==> self.accepts(#[trigger] events@[i]),
    ;

    /// Get the content type for HTTP transport
    fn content_type(&self) -> &'static str;
}

/// A formatter for one of the supported formats.
#[derive(Debug, Clone, Copy)]
pub enum Formatter {
    Json(JsonFormatter),
    Cef(CefFormatter),
    Leef(LeefFormatter),
    Syslog(SyslogFormatter),
    Ecs(EcsFormatter),
}

/// Events a formatter of the given kind can render: ECS needs durations that
/// fit in nanoseconds; the other formats take every event.
pub open spec fn formatter_accepts(f: Formatter, e: SiemEvent) -> bool {
    match f {
        Formatter::Ecs(_) => ecs_duration_fits(e),
        _ => true,
    }
}

/// The record a formatter writes for one event, given the host name.
pub open spec fn formatter_record(f: Formatter, e: SiemEvent, c: SiemConfig, host: Option<Seq<char>>) -> Seq<
    char,
> {
    match f {
        Formatter::Json(_) => json_record(e, c, host_or(host, "unknown"@)),
        Formatter::Cef(_) => cef_record(e, c),
        Formatter::Leef(_) => leef_record(e, c),
        Formatter::Syslog(s) => syslog_record(e, c, host_or(host, "-"@), s.proc_id),
        Formatter::Ecs(_) => ecs_record(e, host_or(host, "unknown"@)),
    }
}

/// What a formatter writes for several events: JSON has its own batch
/// layout; the other formats put one record per line.
pub open spec fn formatter_batch(f: Formatter, es: Seq<SiemEvent>, c: SiemConfig, host: Option<Seq<char>>) -> Seq<
    char,
> {
    match f {
        Formatter::Json(_) => json_batch(es, c, host_or(host, "unknown"@)),
        _ => join_lines(Seq::new(es.len(), |i: int| formatter_record(f, es[i], c, host))),
    }
}

/// The format a formatter writes.
pub open spec fn formatter_kind(f: Formatter) -> EventFormat {
    match f {
        Formatter::Json(_) => EventFormat::Json,
        Formatter::Cef(_) => EventFormat::Cef,
        Formatter::Leef(_) => EventFormat::Leef,
        Formatter::Syslog(_) => EventFormat::Syslog,
        Formatter::Ecs(_) => EventFormat::Ecs,
    }
}

/// Content type used when the format is sent over HTTP.
pub open spec fn content_type_of(f: EventFormat) -> Seq<char> {
    match f {
        EventFormat::Json | EventFormat::Ecs => "application/json"@,
        _ => "text/plain"@,
    }
}

/// Get a formatter for the specified format. The syslog formatter prints
/// `proc_id` as its PROCID field.
pub fn get_formatter(format: EventFormat, proc_id: u32) -> (f: Formatter)
    ensures
        formatter_kind(f) == format,
        f matches Formatter::Syslog(s) ==> s.proc_id == proc_id,
{
    match format {
        EventFormat::Json => Formatter::Json(JsonFormatter),
        EventFormat::Cef => Formatter::Cef(CefFormatter),
        EventFormat::Leef => Formatter::Leef(LeefFormatter),
        EventFormat::Syslog => Formatter::Syslog(SyslogFormatter::new(proc_id)),
        EventFormat::Ecs => Formatter::Ecs(EcsFormatter),
    }
}

impl Formatter {
    /// Format an event given the host name as the machine reports it.
    pub fn format_with_host(&self, event: &SiemEvent, config: &SiemConfig, host: &Option<String>) -> (r:
        Result<String, SiemError>)
        requires
            formatter_accepts(*self, *event),
        ensures
            r matches Ok(s) && s@ == formatter_record(*self, *event, *config, opt_view(*host)),
    {
        match self {
            Formatter::Json(f) => f.format_with_host(event, config, host),
            Formatter::Cef(f) => f.format(event, config),
            Formatter::Leef(f) => f.format(event, config),
            Formatter::Syslog(f) => f.format_with_host(event, config, host),
            Formatter::Ecs(f) => f.format_with_host(event, config, host),
        }
    }

    /// Format several events given the host name as the machine reports it.
    pub fn format_batch_with_host(&self, events: &[SiemEvent], config: &SiemConfig, host: &Option<String>) -> (r:
        Result<String, SiemError>)
        requires
            forall|i: int| 0 <= i < events@.len() ==> formatter_accepts(*self, #[trigger] events@[i]),
        ensures
            r matches Ok(s) && s@ == formatter_batch(*self, events@, *config, opt_view(*host)),
    {
        match self {
            Formatter::Json(f) => f.format_batch_with_host(events, config, host),
            _ => {
                let ghost recs = Seq::new(
                    events@.len(),
                    |i: int| formatter_record(*self, events@[i], *config, opt_view(*host)),
                );
                let n = events.len();
                let mut out = String::new();
                let mut i: usize = 0;
                assert(Seq::new(0, |k: int| recs[k]) =~= Seq::<Seq<char>>::empty());
                while i < n
                    invariant
                        n == events@.len(),
                        i <= n,
                        recs == Seq::new(
                            events@.len(),
                            |k: int| formatter_record(*self, events@[k], *config, opt_view(*host)),
                        ),
                        forall|k: int| 0 <= k < events@.len() ==> formatter_accepts(*self, #[trigger] events@[k]),
                        out@ == join_lines(Seq::new(i as nat, |k: int| recs[k])),
                    decreases n - i,
                {
                    if i > 0 {
                        push_str(&mut out, "\n");
                    }
                    let line = match self.format_with_host(&events[i], config, host) {
                        Ok(s) => s,
                        Err(e) => return Err(e),
                    };
                    out.append(line.as_str());
                    proof {
                        let s1 = Seq::new((i + 1) as nat, |k: int| recs[k]);
                        let s0 = Seq::new(i as nat, |k: int| recs[k]);
                        assert(s1.drop_last() =~= s0);
                        reveal_strlit("\n");
                        assert(out@ =~= join_lines(s1));
                    }
                    i = i + 1;
                }
                assert(Seq::new(n as nat, |k: int| recs[k]) =~= recs);
                Ok(out)
            },
        }
    }

    /// Content type for HTTP transport.
    pub fn content_type(&self) -> (r: &'static str)
        ensures
            r@ == content_type_of(formatter_kind(*self)),
    {
        match self {
            Formatter::Json(f) => f.content_type(),
            Formatter::Cef(f) => f.content_type(),
            Formatter::Leef(f) => f.content_type(),
            Formatter::Syslog(f) => f.content_type(),
            Formatter::Ecs(f) => f.content_type(),
        }
    }
}

impl EventFormatter for Formatter {
    open spec fn accepts(&self, event: SiemEvent) -> bool {
        formatter_accepts(*self, event)
    }

    /// Format an event, with this machine's host name where the format has one.
    fn format(&self, event: &SiemEvent, config: &SiemConfig) -> (r: Result<String, SiemError>)
        ensures
            r matches Ok(s) && exists|h: Option<Seq<char>>| s@ == formatter_record(*self, *event, *config, h),
    {
        let host = system_hostname();
        self.format_with_host(event, config, &host)
    }

    /// Format several events, with this machine's host name where the format has one.
    fn format_batch(&self, events: &[SiemEvent], config: &SiemConfig) -> (r: Result<String, SiemError>)
        ensures
            r matches Ok(s) && exists|h: Option<Seq<char>>| s@ == formatter_batch(*self, events@, *config, h),
    {
        let host = system_hostname();
        self.format_batch_with_host(events, config, &host)
    }

    fn content_type(&self) -> (r: &'static str)
        ensures
            r@ == content_type_of(formatter_kind(*self)),
    {
        Formatter::content_type(self)
    }
}

impl EventFormatter for JsonFormatter {
    open spec fn accepts(&self, event: SiemEvent) -> bool {
        true
    }

    /// Format an event, with this machine's host name where the format has one.
    fn format(&self, event: &SiemEvent, config: &SiemConfig) -> (r: Result<String, SiemError>)
        ensures
            r matches Ok(s) && exists|h: Option<Seq<char>>|
                s@ == formatter_record(Formatter::Json(*self), *event, *config, h),
    {
        EventFormatter::format(&Formatter::Json(*self), event, config)
    }

    /// Format several events, with this machine's host name where the format has one.
    fn format_batch(&self, events: &[SiemEvent], config: &SiemConfig) -> (r: Result<String, SiemError>)
        ensures
            r matches Ok(s) && exists|h: Option<Seq<char>>|
                s@ == formatter_batch(Formatter::Json(*self), events@, *config, h),
    {
        EventFormatter::format_batch(&Formatter::Json(*self), events, config)
    }

    fn content_type(&self) -> (r: &'static str)
        ensures
            r@ == content_type_of(EventFormat::Json),
    {
        Formatter::Json(*self).content_type()
    }
}

impl EventFormatter for CefFormatter {
    open spec fn accepts(&self, event: SiemEvent) -> bool {
        true
    }

    /// Format an event, with this machine's host name where the format has one.
    fn format(&self, event: &SiemEvent, config: &SiemConfig) -> (r: Result<String, SiemError>)
        ensures
            r matches Ok(s) && exists|h: Option<Seq<char>>|
                s@ == formatter_record(Formatter::Cef(*self), *event, *config, h),
    {
        EventFormatter::format(&Formatter::Cef(*self), event, config)
    }

    /// Format several events, with this machine's host name where the format has one.
    fn format_batch(&self, events: &[SiemEvent], config: &SiemConfig) -> (r: Result<String, SiemError>)
        ensures
            r matches Ok(s) && exists|h: Option<Seq<char>>|
                s@ == formatter_batch(Formatter::Cef(*self), events@, *config, h),
    {
        EventFormatter::format_batch(&Formatter::Cef(*self), events, config)
    }

    fn content_type(&self) -> (r: &'static str)
        ensures
            r@ == content_type_of(EventFormat::Cef),
    {
        Formatter::Cef(*self).content_type()
    }
}

impl EventFormatter for LeefFormatter {
    open spec fn accepts(&self, event: SiemEvent) -> bool {
        true
    }

    /// Format an event, with this machine's host name where the format has one.
    fn format(&self, event: &SiemEvent, config: &SiemConfig) -> (r: Result<String, SiemError>)
        ensures
            r matches Ok(s) && exists|h: Option<Seq<char>>|
                s@ == formatter_record(Formatter::Leef(*self), *event, *config, h),
    {
        EventFormatter::format(&Formatter::Leef(*self), event, config)
    }

    /// Format several events, with this machine's host name where the format has one.
    fn format_batch(&self, events: &[SiemEvent], config: &SiemConfig) -> (r: Result<String, SiemError>)
        ensures
            r matches Ok(s) && exists|h: Option<Seq<char>>|
                s@ == formatter_batch(Formatter::Leef(*self), events@, *config, h),
    {
        EventFormatter::format_batch(&Formatter::Leef(*self), events, config)
    }

    fn content_type(&self) -> (r: &'static str)
        ensures
            r@ == content_type_of(EventFormat::Leef),
    {
        Formatter::Leef(*self).content_type()
    }
}

impl EventFormatter for SyslogFormatter {
    open spec fn accepts(&self, event: SiemEvent) -> bool {
        true
    }

    /// Format an event, with this machine's host name where the format has one.
    fn format(&self, event: &SiemEvent, config: &SiemConfig) -> (r: Result<String, SiemError>)
        ensures
            r matches Ok(s) && exists|h: Option<Seq<char>>|
                s@ == formatter_record(Formatter::Syslog(*self), *event, *config, h),
    {
        EventFormatter::format(&Formatter::Syslog(*self), event, config)
    }

    /// Format several events, with this machine's host name where the format has one.
    fn format_batch(&self, events: &[SiemEvent], config: &SiemConfig) -> (r: Result<String, SiemError>)
        ensures
            r matches Ok(s) && exists|h: Option<Seq<char>>|
                s@ == formatter_batch(Formatter::Syslog(*self), events@, *config, h),
    {
        EventFormatter::format_batch(&Formatter::Syslog(*self), events, config)
    }

    fn content_type(&self) -> (r: &'static str)
        ensures
            r@ == content_type_of(EventFormat::Syslog),
    {
        Formatter::Syslog(*self).content_type()
    }
}

impl EventFormatter for EcsFormatter {
    open spec fn accepts(&self, event: SiemEvent) -> bool {
        ecs_duration_fits(event)
    }

    /// Format an event, with this machine's host name where the format has one.
    fn format(&self, event: &SiemEvent, config: &SiemConfig) -> (r: Result<String, SiemError>)
        ensures
            r matches Ok(s) && exists|h: Option<Seq<char>>|
                s@ == formatter_record(Formatter::Ecs(*self), *event, *config, h),
    {
        EventFormatter::format(&Formatter::Ecs(*self), event, config)
    }

    /// Format several events, with this machine's host name where the format has one.
    fn format_batch(&self, events: &[SiemEvent], config: &SiemConfig) -> (r: Result<String, SiemError>)
        ensures
            r matches Ok(s) && exists|h: Option<Seq<char>>|
                s@ == formatter_batch(Formatter::Ecs(*self), events@, *config, h),
    {
        EventFormatter::format_batch(&Formatter::Ecs(*self), events, config)
    }

    fn content_type(&self) -> (r: &'static str)
        ensures
            r@ == content_type_of(EventFormat::Ecs),
    {
        Formatter::Ecs(*self).content_type()
    }
}

} // verus!
