//! Syslog RFC 5424 formatter.

use vstd::prelude::*;
use crate::config::{facility_code, SiemConfig, SyslogFacility};
use crate::error::SiemError;
use crate::event::{category_text, opt_view, outcome_lower, spec_syslog_severity, SiemEvent};
use crate::format::parts::{opt_dec, opt_escaped, push_opt_dec, push_opt_escaped, push_str, widen, widen_u16};
use crate::metadata::{MetaEntry, Metadata};
use crate::text::{
    contains_text, dec, escape, escaped, lemma_contains_concat, lemma_contains_self, lemma_contains_trans, push_escaped, push_u64,
    Escaping,
};
use crate::time::spec_rfc3339;

verus! {

/// Calls `hostname::get` and converts the name with `to_string_lossy`;
/// `None` when the operating system reports an error. The name depends on
/// the machine, so nothing is claimed about it.
#[verifier::external_body]
pub(crate) fn system_hostname() -> (r: Option<String>) {
    match hostname::get() {
        Ok(h) => Some(h.to_string_lossy().to_string()),
        Err(_) => None,
    }
}

/// The host name to print: the machine's, or the fallback when it is unknown.
pub open spec fn host_or(h: Option<Seq<char>>, fallback: Seq<char>) -> Seq<char> {
    match h {
        Some(s) => s,
        None => fallback,
    }
}

/// Syslog RFC 5424 formatter. The process id printed in the PROCID field is
/// held by the formatter.
#[derive(Debug, Clone, Copy)]
pub struct SyslogFormatter {
    pub proc_id: u32,
}

/// The PRI value: facility times eight plus severity.
pub open spec fn spec_pri(facility: SyslogFacility, severity: u8) -> int {
    facility_code(facility) * 8 + severity
}

/// The PRI value packs facility and severity so that a receiver can take
/// them apart again: `pri / 8` is the facility code and `pri % 8` the
/// severity, for every severity below 8.
pub proof fn lemma_pri_decomposes(facility: SyslogFacility, severity: u8)
    requires
        severity < 8,
    ensures
        spec_pri(facility, severity) / 8 == facility_code(facility) as int,
        spec_pri(facility, severity) % 8 == severity as int,
        0 <= spec_pri(facility, severity) <= 191,
{
}

/// The `armature@32473` element's fixed parameters: id, type, category, outcome.
pub open spec fn sd_identity_params(e: SiemEvent) -> Seq<char> {
    "eventId=\""@ + escaped(Escaping::SyslogParam, e.id@) + "\" eventType=\""@ + escaped(
        Escaping::SyslogParam,
        e.event_type@,
    ) + "\" category=\""@ + category_text(e.category) + "\" outcome=\""@ + outcome_lower(e.outcome)
        + "\""@
}

/// A quoted, escaped optional parameter.
pub open spec fn sd_opt(key: Seq<char>, v: Option<Seq<char>>) -> Seq<char> {
    match v {
        Some(s) => key + escaped(Escaping::SyslogParam, s) + "\""@,
        None => Seq::empty(),
    }
}

/// A quoted optional number parameter.
pub open spec fn sd_opt_num(key: Seq<char>, v: Option<u64>) -> Seq<char> {
    match v {
        Some(n) => key + dec(n as nat) + "\""@,
        None => Seq::empty(),
    }
}

/// The `armature@32473` element's optional parameters.
pub open spec fn sd_optional_params(e: SiemEvent) -> Seq<char> {
    sd_opt(" srcIp=\""@, opt_view(e.src_ip)) + sd_opt(" srcUser=\""@, opt_view(e.src_user)) + sd_opt(
        " dstIp=\""@,
        opt_view(e.dst_ip),
    ) + sd_opt(" httpMethod=\""@, opt_view(e.http_method)) + sd_opt(" url=\""@, opt_view(e.url))
        + sd_opt_num(" httpStatus=\""@, widen(e.http_status)) + sd_opt(
        " application=\""@,
        opt_view(e.application),
    ) + sd_opt_num(" durationMs=\""@, e.duration_ms)
}

/// `key="value"` metadata parameters separated by spaces (keys verbatim).
pub open spec fn sd_meta_params(entries: Seq<MetaEntry>) -> Seq<char>
    decreases entries.len(),
{
    if entries.len() == 0 {
        Seq::empty()
    } else if entries.len() == 1 {
        entries[0].0 + "=\""@ + escaped(Escaping::SyslogParam, entries[0].1.text) + "\""@
    } else {
        sd_meta_params(entries.drop_last()) + " "@ + entries.last().0 + "=\""@ + escaped(
            Escaping::SyslogParam,
            entries.last().1.text,
        ) + "\""@
    }
}

/// The STRUCTURED-DATA field: the `armature@32473` element, then a
/// `meta@32473` element when the event has metadata.
pub open spec fn structured_data(e: SiemEvent) -> Seq<char> {
    "[armature@32473 "@ + sd_identity_params(e) + sd_optional_params(e) + "]"@ + if e.metadata@.len()
        > 0 {
        "[meta@32473 "@ + sd_meta_params(e.metadata@) + "]"@
    } else {
        Seq::empty()
    }
}

/// A complete RFC 5424 message:
/// `<PRI>1 TIMESTAMP HOSTNAME APP-NAME PROCID MSGID STRUCTURED-DATA[ MSG]`.
pub open spec fn syslog_record(e: SiemEvent, c: SiemConfig, host: Seq<char>, proc_id: u32) -> Seq<
    char,
> {
    "<"@ + dec(spec_pri(c.syslog_facility, spec_syslog_severity(e.severity)) as nat) + ">1 "@
        + spec_rfc3339(e.timestamp@.0, e.timestamp@.1, false) + " "@ + host + " "@ + c.app_name@
        + " "@ + dec(proc_id as nat) + " "@ + e.event_type@ + " "@ + structured_data(e) + match e.message {
        Some(m) => " "@ + m@,
        None => Seq::empty(),
    }
}

/// One metadata entry as a structured-data parameter.
pub open spec fn sd_meta_param(entry: MetaEntry) -> Seq<char> {
    entry.0 + "=\""@ + escaped(Escaping::SyslogParam, entry.1.text) + "\""@
}

proof fn lemma_sd_meta_has_entries(entries: Seq<MetaEntry>)
    ensures
        forall|i: int|
            0 <= i < entries.len() ==> contains_text(sd_meta_params(entries), #[trigger] sd_meta_param(entries[i])),
    decreases entries.len(),
{
    if entries.len() == 1 {
        lemma_contains_self(sd_meta_param(entries[0]));
    } else if entries.len() > 1 {
        let init = entries.drop_last();
        lemma_sd_meta_has_entries(init);
        let last = sd_meta_param(entries.last());
        lemma_contains_self(last);
        assert(sd_meta_params(entries) =~= (sd_meta_params(init) + " "@) + last);
        assert forall|i: int| 0 <= i < entries.len() implies contains_text(
            sd_meta_params(entries),
            #[trigger] sd_meta_param(entries[i]),
        ) by {
            if i < entries.len() - 1 {
                assert(entries[i] == init[i]);
                lemma_contains_concat(sd_meta_params(init), " "@, sd_meta_param(entries[i]));
                lemma_contains_concat(sd_meta_params(init) + " "@, last, sd_meta_param(entries[i]));
            } else {
                lemma_contains_concat(sd_meta_params(init) + " "@, last, last);
            }
        }
    }
}

/// Every optional event field that is set reaches the `armature@32473`
/// element as `key="value"` with the value escaped for structured data
/// (which a reader decodes back, by `lemma_unescape_escaped`), and the
/// event id and type are always there.
pub proof fn lemma_structured_data_keeps_fields(e: SiemEvent)
    ensures
        contains_text(structured_data(e), "eventId=\""@ + escaped(Escaping::SyslogParam, e.id@) + "\""@),
        contains_text(
            structured_data(e),
            " eventType=\""@ + escaped(Escaping::SyslogParam, e.event_type@) + "\""@,
        ),
        opt_view(e.src_ip) matches Some(v) ==> contains_text(
            structured_data(e),
            " srcIp=\""@ + escaped(Escaping::SyslogParam, v) + "\""@,
        ),
        opt_view(e.src_user) matches Some(v) ==> contains_text(
            structured_data(e),
            " srcUser=\""@ + escaped(Escaping::SyslogParam, v) + "\""@,
        ),
        opt_view(e.dst_ip) matches Some(v) ==> contains_text(
            structured_data(e),
            " dstIp=\""@ + escaped(Escaping::SyslogParam, v) + "\""@,
        ),
        opt_view(e.http_method) matches Some(v) ==> contains_text(
            structured_data(e),
            " httpMethod=\""@ + escaped(Escaping::SyslogParam, v) + "\""@,
        ),
        opt_view(e.url) matches Some(v) ==> contains_text(
            structured_data(e),
            " url=\""@ + escaped(Escaping::SyslogParam, v) + "\""@,
        ),
        opt_view(e.application) matches Some(v) ==> contains_text(
            structured_data(e),
            " application=\""@ + escaped(Escaping::SyslogParam, v) + "\""@,
        ),
        widen(e.http_status) matches Some(n) ==> contains_text(structured_data(e), " httpStatus=\""@ + dec(n as nat) + "\""@),
        e.duration_ms matches Some(n) ==> contains_text(structured_data(e), " durationMs=\""@ + dec(n as nat) + "\""@),
{
    broadcast use lemma_contains_concat;

    let id_param = "eventId=\""@ + escaped(Escaping::SyslogParam, e.id@) + "\""@;
    let type_param = " eventType=\""@ + escaped(Escaping::SyslogParam, e.event_type@) + "\""@;
    let rest = " category=\""@ + category_text(e.category) + "\" outcome=\""@ + outcome_lower(e.outcome)
        + "\""@;
    reveal_strlit("\" eventType=\"");
    reveal_strlit(" eventType=\"");
    reveal_strlit("\" category=\"");
    reveal_strlit(" category=\"");
    reveal_strlit("\"");
    assert(sd_identity_params(e) =~= (id_param + type_param) + rest);
    lemma_contains_self(id_param);
    lemma_contains_self(type_param);
    lemma_contains_self(sd_opt(" srcIp=\""@, opt_view(e.src_ip)));
    lemma_contains_self(sd_opt(" srcUser=\""@, opt_view(e.src_user)));
    lemma_contains_self(sd_opt(" dstIp=\""@, opt_view(e.dst_ip)));
    lemma_contains_self(sd_opt(" httpMethod=\""@, opt_view(e.http_method)));
    lemma_contains_self(sd_opt(" url=\""@, opt_view(e.url)));
    lemma_contains_self(sd_opt(" application=\""@, opt_view(e.application)));
    lemma_contains_self(sd_opt_num(" httpStatus=\""@, widen(e.http_status)));
    lemma_contains_self(sd_opt_num(" durationMs=\""@, e.duration_ms));
}

proof fn lemma_syslog_record_has_structured_data(e: SiemEvent, c: SiemConfig, host: Seq<char>, proc_id: u32)
    ensures
        contains_text(syslog_record(e, c, host, proc_id), structured_data(e)),
{
    broadcast use lemma_contains_concat;

    lemma_contains_self(structured_data(e));
}

proof fn lemma_structured_data_has_meta(e: SiemEvent)
    ensures
        forall|i: int|
            0 <= i < e.metadata@.len() ==> contains_text(structured_data(e), #[trigger] sd_meta_param(e.metadata@[i])),
{
    broadcast use lemma_contains_concat;

    if e.metadata@.len() > 0 {
        lemma_sd_meta_has_entries(e.metadata@);
        lemma_contains_self(sd_meta_params(e.metadata@));
        assert forall|i: int| 0 <= i < e.metadata@.len() implies contains_text(
            structured_data(e),
            #[trigger] sd_meta_param(e.metadata@[i]),
        ) by {
            lemma_contains_trans(structured_data(e), sd_meta_params(e.metadata@), sd_meta_param(e.metadata@[i]));
        }
    }
}

/// Every optional event field that is set reaches the `armature@32473`
/// element of the syslog message as `key="value"`, the value escaped for
/// structured data; every metadata entry reaches the `meta@32473` element
/// as `key="value"`.
pub proof fn lemma_syslog_record_keeps_fields(e: SiemEvent, c: SiemConfig, host: Seq<char>, proc_id: u32)
    ensures
        forall|i: int|
            0 <= i < e.metadata@.len() ==> contains_text(
                syslog_record(e, c, host, proc_id),
                #[trigger] sd_meta_param(e.metadata@[i]),
            ),
        opt_view(e.src_ip) matches Some(v) ==> contains_text(syslog_record(e, c, host, proc_id), " srcIp=\""@ + escaped(Escaping::SyslogParam, v) + "\""@),
        opt_view(e.src_user) matches Some(v) ==> contains_text(syslog_record(e, c, host, proc_id), " srcUser=\""@ + escaped(Escaping::SyslogParam, v) + "\""@),
        opt_view(e.dst_ip) matches Some(v) ==> contains_text(syslog_record(e, c, host, proc_id), " dstIp=\""@ + escaped(Escaping::SyslogParam, v) + "\""@),
        opt_view(e.http_method) matches Some(v) ==> contains_text(syslog_record(e, c, host, proc_id), " httpMethod=\""@ + escaped(Escaping::SyslogParam, v) + "\""@),
        opt_view(e.url) matches Some(v) ==> contains_text(syslog_record(e, c, host, proc_id), " url=\""@ + escaped(Escaping::SyslogParam, v) + "\""@),
        opt_view(e.application) matches Some(v) ==> contains_text(syslog_record(e, c, host, proc_id), " application=\""@ + escaped(Escaping::SyslogParam, v) + "\""@),
        widen(e.http_status) matches Some(n) ==> contains_text(syslog_record(e, c, host, proc_id), " httpStatus=\""@ + dec(n as nat) + "\""@),
        e.duration_ms matches Some(n) ==> contains_text(syslog_record(e, c, host, proc_id), " durationMs=\""@ + dec(n as nat) + "\""@),
{
    let r = syslog_record(e, c, host, proc_id);
    lemma_syslog_record_has_structured_data(e, c, host, proc_id);
    lemma_structured_data_keeps_fields(e);
    lemma_structured_data_has_meta(e);
    assert forall|i: int| 0 <= i < e.metadata@.len() implies contains_text(
        r,
        #[trigger] sd_meta_param(e.metadata@[i]),
    ) by {
        lemma_contains_trans(r, structured_data(e), sd_meta_param(e.metadata@[i]));
    }
    if let Some(v) = opt_view(e.src_ip) {
        lemma_contains_trans(r, structured_data(e), " srcIp=\""@ + escaped(Escaping::SyslogParam, v) + "\""@);
    }
    if let Some(v) = opt_view(e.src_user) {
        lemma_contains_trans(r, structured_data(e), " srcUser=\""@ + escaped(Escaping::SyslogParam, v) + "\""@);
    }
    if let Some(v) = opt_view(e.dst_ip) {
        lemma_contains_trans(r, structured_data(e), " dstIp=\""@ + escaped(Escaping::SyslogParam, v) + "\""@);
    }
    if let Some(v) = opt_view(e.http_method) {
        lemma_contains_trans(r, structured_data(e), " httpMethod=\""@ + escaped(Escaping::SyslogParam, v) + "\""@);
    }
    if let Some(v) = opt_view(e.url) {
        lemma_contains_trans(r, structured_data(e), " url=\""@ + escaped(Escaping::SyslogParam, v) + "\""@);
    }
    if let Some(v) = opt_view(e.application) {
        lemma_contains_trans(r, structured_data(e), " application=\""@ + escaped(Escaping::SyslogParam, v) + "\""@);
    }
    if let Some(n) = widen(e.http_status) {
        lemma_contains_trans(r, structured_data(e), " httpStatus=\""@ + dec(n as nat) + "\""@);
    }
    if let Some(n) = e.duration_ms {
        lemma_contains_trans(r, structured_data(e), " durationMs=\""@ + dec(n as nat) + "\""@);
    }
}

impl SyslogFormatter {
    /// A formatter that prints `proc_id` as the PROCID field.
    pub fn new(proc_id: u32) -> (r: SyslogFormatter)
        ensures
            r.proc_id == proc_id,
    {
        SyslogFormatter { proc_id }
    }

    /// Calculate the PRI value (facility * 8 + severity)
    pub fn calculate_pri(facility: SyslogFacility, severity: u8) -> (r: u8)
        requires
            spec_pri(facility, severity) <= 255,
        ensures
            r == spec_pri(facility, severity),
    {
        facility.code() * 8 + severity
    }

    /// Escape structured data parameter value
    pub fn escape_sd_value(s: &str) -> (r: String)
        ensures
            r@ == escaped(Escaping::SyslogParam, s@),
    {
        escape(Escaping::SyslogParam, s)
    }

    fn push_sd_opt(out: &mut String, key: &str, v: &Option<String>)
        ensures
            final(out)@ == old(out)@ + sd_opt(key@, opt_view(*v)),
    {
        let ghost before = out@;
        match v {
            Some(s) => {
                push_str(out, key);
                push_escaped(out, Escaping::SyslogParam, s.as_str());
                push_str(out, "\"");
            },
            None => {},
        }
        assert(out@ =~= before + sd_opt(key@, opt_view(*v)));
    }

    fn push_sd_opt_num(out: &mut String, key: &str, v: Option<u64>)
        ensures
            final(out)@ == old(out)@ + sd_opt_num(key@, v),
    {
        let ghost before = out@;
        match v {
            Some(n) => {
                push_str(out, key);
                push_u64(out, n);
                push_str(out, "\"");
            },
            None => {},
        }
        assert(out@ =~= before + sd_opt_num(key@, v));
    }

    fn push_meta_params(out: &mut String, m: &Metadata)
        ensures
            final(out)@ == old(out)@ + sd_meta_params(m@),
    {
        let ghost before = out@;
        let n = m.len();
        let mut i: usize = 0;
        assert(m@.take(0) =~= Seq::<MetaEntry>::empty());
        while i < n
            invariant
                n == m@.len(),
                i <= n,
                out@ == before + sd_meta_params(m@.take(i as int)),
            decreases n - i,
        {
            let (k, v) = m.entry(i);
            assert(m@.take(i + 1).drop_last() =~= m@.take(i as int));
            assert(m@.take(i + 1).last() == m@[i as int]);
            if i > 0 {
                push_str(out, " ");
            }
            push_str(out, k.as_str());
            push_str(out, "=\"");
            push_escaped(out, Escaping::SyslogParam, v.text.as_str());
            push_str(out, "\"");
            assert(out@ =~= before + sd_meta_params(m@.take(i + 1)));
            i = i + 1;
        }
        assert(m@.take(n as int) =~= m@);
    }

    fn push_identity_params(out: &mut String, event: &SiemEvent)
        ensures
            final(out)@ == old(out)@ + sd_identity_params(*event),
    {
        let ghost before = out@;
        push_str(out, "eventId=\"");
        push_escaped(out, Escaping::SyslogParam, event.id.as_str());
        push_str(out, "\" eventType=\"");
        push_escaped(out, Escaping::SyslogParam, event.event_type.as_str());
        push_str(out, "\" category=\"");
        push_str(out, event.category.as_str());
        push_str(out, "\" outcome=\"");
        push_str(out, event.outcome.as_lower_str());
        push_str(out, "\"");
        assert(out@ =~= before + sd_identity_params(*event));
    }

    fn push_optional_params(out: &mut String, event: &SiemEvent)
        ensures
            final(out)@ == old(out)@ + sd_optional_params(*event),
    {
        let ghost before = out@;
        Self::push_sd_opt(out, " srcIp=\"", &event.src_ip);
        Self::push_sd_opt(out, " srcUser=\"", &event.src_user);
        Self::push_sd_opt(out, " dstIp=\"", &event.dst_ip);
        Self::push_sd_opt(out, " httpMethod=\"", &event.http_method);
        Self::push_sd_opt(out, " url=\"", &event.url);
        Self::push_sd_opt_num(out, " httpStatus=\"", widen_u16(event.http_status));
        Self::push_sd_opt(out, " application=\"", &event.application);
        Self::push_sd_opt_num(out, " durationMs=\"", event.duration_ms);
        assert(out@ =~= before + sd_optional_params(*event));
    }

    /// Build structured data section
    pub fn build_structured_data(event: &SiemEvent, _config: &SiemConfig) -> (r: String)
        ensures
            r@ == structured_data(*event),
    {
        let mut out = String::new();
        push_str(&mut out, "[armature@32473 ");
        Self::push_identity_params(&mut out, event);
        Self::push_optional_params(&mut out, event);
        push_str(&mut out, "]");
        let ghost head = out@;
        if !event.metadata.is_empty() {
            push_str(&mut out, "[meta@32473 ");
            Self::push_meta_params(&mut out, &event.metadata);
            push_str(&mut out, "]");
        }
        assert(out@ =~= structured_data(*event));
        out
    }

    /// Format an event given the host name as the machine reports it
    /// (`None` when it could not be read; `-` is printed then).
    pub fn format_with_host(&self, event: &SiemEvent, config: &SiemConfig, host: &Option<String>) -> (r:
        Result<String, SiemError>)
        ensures
            r matches Ok(s) && s@ == syslog_record(
                *event,
                *config,
                host_or(opt_view(*host), "-"@),
                self.proc_id,
            ),
    {
        let sev = event.severity.as_syslog_severity();
        let pri = Self::calculate_pri(config.syslog_facility, sev);
        let mut out = String::new();
        push_str(&mut out, "<");
        push_u64(&mut out, pri as u64);
        push_str(&mut out, ">1 ");
        let t = event.timestamp.to_rfc3339();
        out.append(t.as_str());
        push_str(&mut out, " ");
        match host {
            Some(h) => out.append(h.as_str()),
            None => push_str(&mut out, "-"),
        }
        push_str(&mut out, " ");
        out.append(config.app_name.as_str());
        push_str(&mut out, " ");
        push_u64(&mut out, self.proc_id as u64);
        push_str(&mut out, " ");
        out.append(event.event_type.as_str());
        push_str(&mut out, " ");
        let sd = Self::build_structured_data(event, config);
        out.append(sd.as_str());
        match &event.message {
            Some(m) => {
                push_str(&mut out, " ");
                out.append(m.as_str());
            },
            None => {},
        }
        assert(out@ =~= syslog_record(*event, *config, host_or(opt_view(*host), "-"@), self.proc_id));
        Ok(out)
    }

    /// Format an event as one RFC 5424 message, with this machine's host name.
    pub fn format(&self, event: &SiemEvent, config: &SiemConfig) -> (r: Result<String, SiemError>)
        ensures
            r matches Ok(s) && exists|h: Option<Seq<char>>|
                s@ == syslog_record(*event, *config, host_or(h, "-"@), self.proc_id),
    {
        let host = system_hostname();
        self.format_with_host(event, config, &host)
    }

    /// Content type for HTTP transport.
    pub fn content_type(&self) -> (r: &'static str)
        ensures
            r@ == "text/plain"@,
    {
        "text/plain"
    }
}

} // verus!
