//! JSON formatter for SIEM events.
//!
//! Simple JSON serialization for events, compatible with most SIEM systems.
//! Events sent to Splunk are wrapped in the HTTP Event Collector envelope.

use vstd::prelude::*;
use crate::config::{SiemConfig, SiemProvider};
use crate::error::SiemError;
use crate::event::{category_text, opt_view, outcome_lower, EventCategory, SiemEvent, SiemSeverity};
use crate::format::parts::{
    join_lines, json_member, json_object, json_opt_num, json_opt_str, lemma_json_object_has_entries,
    push_json_object, push_json_opt_num,
    push_json_opt_str, push_json_str, push_str, widen, widen_u16,
};
use crate::format::syslog::{host_or, system_hostname};
use crate::text::{
    contains_text, dec, dec_int, lemma_contains_concat, lemma_contains_self, lemma_contains_trans, push_i64,
    spec_json_string,
};
use crate::time::spec_rfc3339;

verus! {

/// JSON formatter.
#[derive(Debug, Clone, Copy)]
pub struct JsonFormatter;

/// JSON rendering of a category: its snake_case name, or `{"custom":...}`.
pub open spec fn category_json(c: EventCategory) -> Seq<char> {
    match c {
        EventCategory::Custom(s) => "{\"custom\":"@ + spec_json_string(s@) + "}"@,
        _ => "\""@ + category_text(c) + "\""@,
    }
}

/// JSON rendering of a severity: its variant name.
pub open spec fn severity_json(s: SiemSeverity) -> Seq<char> {
    match s {
        SiemSeverity::Unknown => "\"Unknown\""@,
        SiemSeverity::Low => "\"Low\""@,
        SiemSeverity::Medium => "\"Medium\""@,
        SiemSeverity::High => "\"High\""@,
        SiemSeverity::Critical => "\"Critical\""@,
    }
}

/// Event JSON members: id, timestamp, type, category, severity, outcome, action.
pub open spec fn event_json_identity(e: SiemEvent) -> Seq<char> {
    "{\"id\":"@ + spec_json_string(e.id@) + ",\"timestamp\":"@ + spec_json_string(
        spec_rfc3339(e.timestamp@.0, e.timestamp@.1, true),
    ) + ",\"event_type\":"@ + spec_json_string(e.event_type@) + ",\"category\":"@ + category_json(
        e.category,
    ) + ",\"severity\":"@ + severity_json(e.severity) + ",\"outcome\":\""@ + outcome_lower(
        e.outcome,
    ) + "\",\"action\":"@ + spec_json_string(e.action@)
}

/// Event JSON members: message, src_ip, src_port, src_host, src_user, src_process.
pub open spec fn event_json_origin(e: SiemEvent) -> Seq<char> {
    ",\"message\":"@ + json_opt_str(opt_view(e.message))
        + ",\"src_ip\":"@ + json_opt_str(opt_view(e.src_ip))
        + ",\"src_port\":"@ + json_opt_num(widen(e.src_port))
        + ",\"src_host\":"@ + json_opt_str(opt_view(e.src_host))
        + ",\"src_user\":"@ + json_opt_str(opt_view(e.src_user))
        + ",\"src_process\":"@ + json_opt_str(opt_view(e.src_process))
}

/// Event JSON members: dst_ip, dst_port, dst_host, dst_user.
pub open spec fn event_json_target(e: SiemEvent) -> Seq<char> {
    ",\"dst_ip\":"@ + json_opt_str(opt_view(e.dst_ip))
        + ",\"dst_port\":"@ + json_opt_num(widen(e.dst_port))
        + ",\"dst_host\":"@ + json_opt_str(opt_view(e.dst_host))
        + ",\"dst_user\":"@ + json_opt_str(opt_view(e.dst_user))
}

/// Event JSON members: http_method, url, user_agent, http_status, bytes.
pub open spec fn event_json_request(e: SiemEvent) -> Seq<char> {
    ",\"http_method\":"@ + json_opt_str(opt_view(e.http_method))
        + ",\"url\":"@ + json_opt_str(opt_view(e.url))
        + ",\"user_agent\":"@ + json_opt_str(opt_view(e.user_agent))
        + ",\"http_status\":"@ + json_opt_num(widen(e.http_status))
        + ",\"bytes\":"@ + json_opt_num(e.bytes)
}

/// Event JSON members: resource_type, resource_id, resource_name, application, service, environment.
pub open spec fn event_json_resource(e: SiemEvent) -> Seq<char> {
    ",\"resource_type\":"@ + json_opt_str(opt_view(e.resource_type))
        + ",\"resource_id\":"@ + json_opt_str(opt_view(e.resource_id))
        + ",\"resource_name\":"@ + json_opt_str(opt_view(e.resource_name))
        + ",\"application\":"@ + json_opt_str(opt_view(e.application))
        + ",\"service\":"@ + json_opt_str(opt_view(e.service))
        + ",\"environment\":"@ + json_opt_str(opt_view(e.environment))
}

/// Event JSON members: error_code, error_message, duration_ms, protocol, device_id, device_type.
pub open spec fn event_json_context(e: SiemEvent) -> Seq<char> {
    ",\"error_code\":"@ + json_opt_str(opt_view(e.error_code))
        + ",\"error_message\":"@ + json_opt_str(opt_view(e.error_message))
        + ",\"duration_ms\":"@ + json_opt_num(e.duration_ms)
        + ",\"protocol\":"@ + json_opt_str(opt_view(e.protocol))
        + ",\"device_id\":"@ + json_opt_str(opt_view(e.device_id))
        + ",\"device_type\":"@ + json_opt_str(opt_view(e.device_type))
}

/// Event JSON members: threat_indicator_type, threat_indicator, file_path, file_hash, file_size.
pub open spec fn event_json_evidence(e: SiemEvent) -> Seq<char> {
    ",\"threat_indicator_type\":"@ + json_opt_str(opt_view(e.threat_indicator_type))
        + ",\"threat_indicator\":"@ + json_opt_str(opt_view(e.threat_indicator))
        + ",\"file_path\":"@ + json_opt_str(opt_view(e.file_path))
        + ",\"file_hash\":"@ + json_opt_str(opt_view(e.file_hash))
        + ",\"file_size\":"@ + json_opt_num(e.file_size)
}

/// Event JSON members: metadata and raw data, and the closing brace.
pub open spec fn event_json_tail(e: SiemEvent) -> Seq<char> {
    ",\"metadata\":"@ + json_object(e.metadata@) + ",\"raw\":"@ + json_opt_str(opt_view(e.raw)) + "}"@
}

/// The event as a JSON object, every field in declaration order.
pub open spec fn event_json(e: SiemEvent) -> Seq<char> {
    event_json_identity(e) + event_json_origin(e) + event_json_target(e) + event_json_request(e)
        + event_json_resource(e) + event_json_context(e) + event_json_evidence(e) + event_json_tail(e)
}

/// The Splunk HTTP Event Collector envelope around the event.
pub open spec fn hec_json(e: SiemEvent, c: SiemConfig, host: Seq<char>) -> Seq<char> {
    "{\"time\":"@ + dec_int(e.timestamp@.0 as int) + ",\"host\":"@ + spec_json_string(host)
        + hec_routing(c) + ",\"event\":"@ + event_json(e) + "}"@
}

/// The envelope's optional source, sourcetype and index members.
pub open spec fn hec_routing(c: SiemConfig) -> Seq<char> {
    (match opt_view(c.source) {
        Some(s) => ",\"source\":"@ + spec_json_string(s),
        None => Seq::empty(),
    }) + (match opt_view(c.source_type) {
        Some(s) => ",\"sourcetype\":"@ + spec_json_string(s),
        None => Seq::empty(),
    }) + (match opt_view(c.index) {
        Some(s) => ",\"index\":"@ + spec_json_string(s),
        None => Seq::empty(),
    })
}

/// One JSON document for the event: the HEC envelope for Splunk, the bare
/// event otherwise.
pub open spec fn json_record(e: SiemEvent, c: SiemConfig, host: Seq<char>) -> Seq<char> {
    if c.provider == SiemProvider::Splunk {
        hec_json(e, c, host)
    } else {
        event_json(e)
    }
}

/// Events as comma-separated JSON objects.
pub open spec fn event_json_list(es: Seq<SiemEvent>) -> Seq<char>
    decreases es.len(),
{
    if es.len() == 0 {
        Seq::empty()
    } else if es.len() == 1 {
        event_json(es[0])
    } else {
        event_json_list(es.drop_last()) + ","@ + event_json(es.last())
    }
}

/// A batch: newline-delimited envelopes for Splunk, one JSON array otherwise.
pub open spec fn json_batch(es: Seq<SiemEvent>, c: SiemConfig, host: Seq<char>) -> Seq<char> {
    if c.provider == SiemProvider::Splunk {
        join_lines(Seq::new(es.len(), |i: int| hec_json(es[i], c, host)))
    } else {
        "["@ + event_json_list(es) + "]"@
    }
}

/// For Splunk the record is the HEC envelope: it names the host, carries
/// each of `source`, `sourcetype` and `index` that the configuration sets
/// (so Splunk files the event where configured), and holds the event
/// itself under `event`.
pub proof fn lemma_hec_envelope_members(e: SiemEvent, c: SiemConfig, host: Seq<char>)
    requires
        c.provider == SiemProvider::Splunk,
    ensures
        contains_text(json_record(e, c, host), ",\"host\":"@ + spec_json_string(host)),
        contains_text(json_record(e, c, host), ",\"event\":"@ + event_json(e)),
        opt_view(c.source) matches Some(v) ==> contains_text(
            json_record(e, c, host),
            ",\"source\":"@ + spec_json_string(v),
        ),
        opt_view(c.source_type) matches Some(v) ==> contains_text(
            json_record(e, c, host),
            ",\"sourcetype\":"@ + spec_json_string(v),
        ),
        opt_view(c.index) matches Some(v) ==> contains_text(
            json_record(e, c, host),
            ",\"index\":"@ + spec_json_string(v),
        ),
{
    broadcast use lemma_contains_concat;

    let head = "{\"time\":"@ + dec_int(e.timestamp@.0 as int);
    let host_member = ",\"host\":"@ + spec_json_string(host);
    let event_member = ",\"event\":"@ + event_json(e);
    assert(hec_json(e, c, host) =~= (head + host_member) + hec_routing(c) + event_member + "}"@);
    lemma_contains_self(host_member);
    lemma_contains_self(event_member);
    if let Some(v) = opt_view(c.source) {
        lemma_contains_self(",\"source\":"@ + spec_json_string(v));
    }
    if let Some(v) = opt_view(c.source_type) {
        lemma_contains_self(",\"sourcetype\":"@ + spec_json_string(v));
    }
    if let Some(v) = opt_view(c.index) {
        lemma_contains_self(",\"index\":"@ + spec_json_string(v));
    }
}

proof fn lemma_event_json_origin_fields(e: SiemEvent)
    ensures
        opt_view(e.message) matches Some(v) ==> contains_text(event_json_origin(e), ",\"message\":"@ + spec_json_string(v)),
        opt_view(e.src_ip) matches Some(v) ==> contains_text(event_json_origin(e), ",\"src_ip\":"@ + spec_json_string(v)),
        widen(e.src_port) matches Some(n) ==> contains_text(event_json_origin(e), ",\"src_port\":"@ + dec(n as nat)),
        opt_view(e.src_host) matches Some(v) ==> contains_text(event_json_origin(e), ",\"src_host\":"@ + spec_json_string(v)),
        opt_view(e.src_user) matches Some(v) ==> contains_text(event_json_origin(e), ",\"src_user\":"@ + spec_json_string(v)),
        opt_view(e.src_process) matches Some(v) ==> contains_text(event_json_origin(e), ",\"src_process\":"@ + spec_json_string(v)),
{
    broadcast use lemma_contains_concat;

    assert(event_json_origin(e) =~= (",\"message\":"@ + json_opt_str(opt_view(e.message))) + (",\"src_ip\":"@ + json_opt_str(opt_view(e.src_ip))) + (",\"src_port\":"@ + json_opt_num(widen(e.src_port))) + (",\"src_host\":"@ + json_opt_str(opt_view(e.src_host))) + (",\"src_user\":"@ + json_opt_str(opt_view(e.src_user))) + (",\"src_process\":"@ + json_opt_str(opt_view(e.src_process))));
    lemma_contains_self(",\"message\":"@ + json_opt_str(opt_view(e.message)));
    lemma_contains_self(",\"src_ip\":"@ + json_opt_str(opt_view(e.src_ip)));
    lemma_contains_self(",\"src_port\":"@ + json_opt_num(widen(e.src_port)));
    lemma_contains_self(",\"src_host\":"@ + json_opt_str(opt_view(e.src_host)));
    lemma_contains_self(",\"src_user\":"@ + json_opt_str(opt_view(e.src_user)));
    lemma_contains_self(",\"src_process\":"@ + json_opt_str(opt_view(e.src_process)));
}

proof fn lemma_event_json_target_fields(e: SiemEvent)
    ensures
        opt_view(e.dst_ip) matches Some(v) ==> contains_text(event_json_target(e), ",\"dst_ip\":"@ + spec_json_string(v)),
        widen(e.dst_port) matches Some(n) ==> contains_text(event_json_target(e), ",\"dst_port\":"@ + dec(n as nat)),
        opt_view(e.dst_host) matches Some(v) ==> contains_text(event_json_target(e), ",\"dst_host\":"@ + spec_json_string(v)),
        opt_view(e.dst_user) matches Some(v) ==> contains_text(event_json_target(e), ",\"dst_user\":"@ + spec_json_string(v)),
{
    broadcast use lemma_contains_concat;

    assert(event_json_target(e) =~= (",\"dst_ip\":"@ + json_opt_str(opt_view(e.dst_ip))) + (",\"dst_port\":"@ + json_opt_num(widen(e.dst_port))) + (",\"dst_host\":"@ + json_opt_str(opt_view(e.dst_host))) + (",\"dst_user\":"@ + json_opt_str(opt_view(e.dst_user))));
    lemma_contains_self(",\"dst_ip\":"@ + json_opt_str(opt_view(e.dst_ip)));
    lemma_contains_self(",\"dst_port\":"@ + json_opt_num(widen(e.dst_port)));
    lemma_contains_self(",\"dst_host\":"@ + json_opt_str(opt_view(e.dst_host)));
    lemma_contains_self(",\"dst_user\":"@ + json_opt_str(opt_view(e.dst_user)));
}

proof fn lemma_event_json_request_fields(e: SiemEvent)
    ensures
        opt_view(e.http_method) matches Some(v) ==> contains_text(event_json_request(e), ",\"http_method\":"@ + spec_json_string(v)),
        opt_view(e.url) matches Some(v) ==> contains_text(event_json_request(e), ",\"url\":"@ + spec_json_string(v)),
        opt_view(e.user_agent) matches Some(v) ==> contains_text(event_json_request(e), ",\"user_agent\":"@ + spec_json_string(v)),
        widen(e.http_status) matches Some(n) ==> contains_text(event_json_request(e), ",\"http_status\":"@ + dec(n as nat)),
        e.bytes matches Some(n) ==> contains_text(event_json_request(e), ",\"bytes\":"@ + dec(n as nat)),
{
    broadcast use lemma_contains_concat;

    assert(event_json_request(e) =~= (",\"http_method\":"@ + json_opt_str(opt_view(e.http_method))) + (",\"url\":"@ + json_opt_str(opt_view(e.url))) + (",\"user_agent\":"@ + json_opt_str(opt_view(e.user_agent))) + (",\"http_status\":"@ + json_opt_num(widen(e.http_status))) + (",\"bytes\":"@ + json_opt_num(e.bytes)));
    lemma_contains_self(",\"http_method\":"@ + json_opt_str(opt_view(e.http_method)));
    lemma_contains_self(",\"url\":"@ + json_opt_str(opt_view(e.url)));
    lemma_contains_self(",\"user_agent\":"@ + json_opt_str(opt_view(e.user_agent)));
    lemma_contains_self(",\"http_status\":"@ + json_opt_num(widen(e.http_status)));
    lemma_contains_self(",\"bytes\":"@ + json_opt_num(e.bytes));
}

proof fn lemma_event_json_resource_fields(e: SiemEvent)
    ensures
        opt_view(e.resource_type) matches Some(v) ==> contains_text(event_json_resource(e), ",\"resource_type\":"@ + spec_json_string(v)),
        opt_view(e.resource_id) matches Some(v) ==> contains_text(event_json_resource(e), ",\"resource_id\":"@ + spec_json_string(v)),
        opt_view(e.resource_name) matches Some(v) ==> contains_text(event_json_resource(e), ",\"resource_name\":"@ + spec_json_string(v)),
        opt_view(e.application) matches Some(v) ==> contains_text(event_json_resource(e), ",\"application\":"@ + spec_json_string(v)),
        opt_view(e.service) matches Some(v) ==> contains_text(event_json_resource(e), ",\"service\":"@ + spec_json_string(v)),
        opt_view(e.environment) matches Some(v) ==> contains_text(event_json_resource(e), ",\"environment\":"@ + spec_json_string(v)),
{
    broadcast use lemma_contains_concat;

    assert(event_json_resource(e) =~= (",\"resource_type\":"@ + json_opt_str(opt_view(e.resource_type))) + (",\"resource_id\":"@ + json_opt_str(opt_view(e.resource_id))) + (",\"resource_name\":"@ + json_opt_str(opt_view(e.resource_name))) + (",\"application\":"@ + json_opt_str(opt_view(e.application))) + (",\"service\":"@ + json_opt_str(opt_view(e.service))) + (",\"environment\":"@ + json_opt_str(opt_view(e.environment))));
    lemma_contains_self(",\"resource_type\":"@ + json_opt_str(opt_view(e.resource_type)));
    lemma_contains_self(",\"resource_id\":"@ + json_opt_str(opt_view(e.resource_id)));
    lemma_contains_self(",\"resource_name\":"@ + json_opt_str(opt_view(e.resource_name)));
    lemma_contains_self(",\"application\":"@ + json_opt_str(opt_view(e.application)));
    lemma_contains_self(",\"service\":"@ + json_opt_str(opt_view(e.service)));
    lemma_contains_self(",\"environment\":"@ + json_opt_str(opt_view(e.environment)));
}

proof fn lemma_event_json_context_fields(e: SiemEvent)
    ensures
        opt_view(e.error_code) matches Some(v) ==> contains_text(event_json_context(e), ",\"error_code\":"@ + spec_json_string(v)),
        opt_view(e.error_message) matches Some(v) ==> contains_text(event_json_context(e), ",\"error_message\":"@ + spec_json_string(v)),
        e.duration_ms matches Some(n) ==> contains_text(event_json_context(e), ",\"duration_ms\":"@ + dec(n as nat)),
        opt_view(e.protocol) matches Some(v) ==> contains_text(event_json_context(e), ",\"protocol\":"@ + spec_json_string(v)),
        opt_view(e.device_id) matches Some(v) ==> contains_text(event_json_context(e), ",\"device_id\":"@ + spec_json_string(v)),
        opt_view(e.device_type) matches Some(v) ==> contains_text(event_json_context(e), ",\"device_type\":"@ + spec_json_string(v)),
{
    broadcast use lemma_contains_concat;

    assert(event_json_context(e) =~= (",\"error_code\":"@ + json_opt_str(opt_view(e.error_code))) + (",\"error_message\":"@ + json_opt_str(opt_view(e.error_message))) + (",\"duration_ms\":"@ + json_opt_num(e.duration_ms)) + (",\"protocol\":"@ + json_opt_str(opt_view(e.protocol))) + (",\"device_id\":"@ + json_opt_str(opt_view(e.device_id))) + (",\"device_type\":"@ + json_opt_str(opt_view(e.device_type))));
    lemma_contains_self(",\"error_code\":"@ + json_opt_str(opt_view(e.error_code)));
    lemma_contains_self(",\"error_message\":"@ + json_opt_str(opt_view(e.error_message)));
    lemma_contains_self(",\"duration_ms\":"@ + json_opt_num(e.duration_ms));
    lemma_contains_self(",\"protocol\":"@ + json_opt_str(opt_view(e.protocol)));
    lemma_contains_self(",\"device_id\":"@ + json_opt_str(opt_view(e.device_id)));
    lemma_contains_self(",\"device_type\":"@ + json_opt_str(opt_view(e.device_type)));
}

proof fn lemma_event_json_evidence_fields(e: SiemEvent)
    ensures
        opt_view(e.threat_indicator_type) matches Some(v) ==> contains_text(event_json_evidence(e), ",\"threat_indicator_type\":"@ + spec_json_string(v)),
        opt_view(e.threat_indicator) matches Some(v) ==> contains_text(event_json_evidence(e), ",\"threat_indicator\":"@ + spec_json_string(v)),
        opt_view(e.file_path) matches Some(v) ==> contains_text(event_json_evidence(e), ",\"file_path\":"@ + spec_json_string(v)),
        opt_view(e.file_hash) matches Some(v) ==> contains_text(event_json_evidence(e), ",\"file_hash\":"@ + spec_json_string(v)),
        e.file_size matches Some(n) ==> contains_text(event_json_evidence(e), ",\"file_size\":"@ + dec(n as nat)),
{
    broadcast use lemma_contains_concat;

    assert(event_json_evidence(e) =~= (",\"threat_indicator_type\":"@ + json_opt_str(opt_view(e.threat_indicator_type))) + (",\"threat_indicator\":"@ + json_opt_str(opt_view(e.threat_indicator))) + (",\"file_path\":"@ + json_opt_str(opt_view(e.file_path))) + (",\"file_hash\":"@ + json_opt_str(opt_view(e.file_hash))) + (",\"file_size\":"@ + json_opt_num(e.file_size)));
    lemma_contains_self(",\"threat_indicator_type\":"@ + json_opt_str(opt_view(e.threat_indicator_type)));
    lemma_contains_self(",\"threat_indicator\":"@ + json_opt_str(opt_view(e.threat_indicator)));
    lemma_contains_self(",\"file_path\":"@ + json_opt_str(opt_view(e.file_path)));
    lemma_contains_self(",\"file_hash\":"@ + json_opt_str(opt_view(e.file_hash)));
    lemma_contains_self(",\"file_size\":"@ + json_opt_num(e.file_size));
}

proof fn lemma_event_json_identity_fields(e: SiemEvent)
    ensures
        contains_text(event_json_identity(e), "{\"id\":"@ + spec_json_string(e.id@)),
        contains_text(event_json_identity(e), ",\"event_type\":"@ + spec_json_string(e.event_type@)),
        contains_text(event_json_identity(e), ",\"severity\":"@ + severity_json(e.severity)),
        contains_text(event_json_identity(e), ",\"action\":"@ + spec_json_string(e.action@)),
{
    broadcast use lemma_contains_concat;

    let id = "{\"id\":"@ + spec_json_string(e.id@);
    let ts = ",\"timestamp\":"@ + spec_json_string(spec_rfc3339(e.timestamp@.0, e.timestamp@.1, true));
    let et = ",\"event_type\":"@ + spec_json_string(e.event_type@);
    let cat = ",\"category\":"@ + category_json(e.category);
    let sev = ",\"severity\":"@ + severity_json(e.severity);
    let oc = ",\"outcome\":\""@ + outcome_lower(e.outcome) + "\""@;
    let act = ",\"action\":"@ + spec_json_string(e.action@);
    reveal_strlit("\",\"action\":");
    reveal_strlit("\"");
    reveal_strlit(",\"action\":");
    assert(event_json_identity(e) =~= id + ts + et + cat + sev + oc + act);
    lemma_contains_self(id);
    lemma_contains_self(et);
    lemma_contains_self(sev);
    lemma_contains_self(act);
}

proof fn lemma_event_json_tail_fields(e: SiemEvent)
    ensures
        forall|i: int|
            0 <= i < e.metadata@.len() ==> contains_text(event_json_tail(e), #[trigger] json_member(e.metadata@[i])),
        opt_view(e.raw) matches Some(v) ==> contains_text(event_json_tail(e), ",\"raw\":"@ + spec_json_string(v)),
{
    broadcast use lemma_contains_concat;

    let obj = json_object(e.metadata@);
    let raw = ",\"raw\":"@ + json_opt_str(opt_view(e.raw));
    assert(event_json_tail(e) =~= ",\"metadata\":"@ + obj + raw + "}"@);
    lemma_contains_self(obj);
    lemma_contains_self(raw);
    lemma_json_object_has_entries(e.metadata@);
    assert forall|i: int| 0 <= i < e.metadata@.len() implies contains_text(
        event_json_tail(e),
        #[trigger] json_member(e.metadata@[i]),
    ) by {
        lemma_contains_trans(event_json_tail(e), obj, json_member(e.metadata@[i]));
    }
}

proof fn lemma_event_json_parts(e: SiemEvent)
    ensures
        contains_text(event_json(e), event_json_identity(e)),
        contains_text(event_json(e), event_json_origin(e)),
        contains_text(event_json(e), event_json_target(e)),
        contains_text(event_json(e), event_json_request(e)),
        contains_text(event_json(e), event_json_resource(e)),
        contains_text(event_json(e), event_json_context(e)),
        contains_text(event_json(e), event_json_evidence(e)),
        contains_text(event_json(e), event_json_tail(e)),
{
    broadcast use lemma_contains_concat;

    lemma_contains_self(event_json_identity(e));
    lemma_contains_self(event_json_origin(e));
    lemma_contains_self(event_json_target(e));
    lemma_contains_self(event_json_request(e));
    lemma_contains_self(event_json_resource(e));
    lemma_contains_self(event_json_context(e));
    lemma_contains_self(event_json_evidence(e));
    lemma_contains_self(event_json_tail(e));
}

/// The event's JSON holds its id, type, severity and action, every
/// metadata entry as a `"key":value` member, and the raw data when set;
/// string values are JSON strings, which read back to the value (by
/// `lemma_json_string_round_trip`).
pub proof fn lemma_event_json_keeps_identity(e: SiemEvent)
    ensures
        contains_text(event_json(e), "{\"id\":"@ + spec_json_string(e.id@)),
        contains_text(event_json(e), ",\"event_type\":"@ + spec_json_string(e.event_type@)),
        contains_text(event_json(e), ",\"severity\":"@ + severity_json(e.severity)),
        contains_text(event_json(e), ",\"action\":"@ + spec_json_string(e.action@)),
        forall|i: int|
            0 <= i < e.metadata@.len() ==> contains_text(event_json(e), #[trigger] json_member(e.metadata@[i])),
        opt_view(e.raw) matches Some(v) ==> contains_text(event_json(e), ",\"raw\":"@ + spec_json_string(v)),
{
    let r = event_json(e);
    lemma_event_json_parts(e);
    let r = event_json(e);
    lemma_event_json_parts(e);
    lemma_event_json_identity_fields(e);
    lemma_contains_trans(r, event_json_identity(e), "{\"id\":"@ + spec_json_string(e.id@));
    lemma_contains_trans(r, event_json_identity(e), ",\"event_type\":"@ + spec_json_string(e.event_type@));
    lemma_contains_trans(r, event_json_identity(e), ",\"severity\":"@ + severity_json(e.severity));
    lemma_contains_trans(r, event_json_identity(e), ",\"action\":"@ + spec_json_string(e.action@));
    lemma_event_json_tail_fields(e);
    assert forall|i: int| 0 <= i < e.metadata@.len() implies contains_text(
        r,
        #[trigger] json_member(e.metadata@[i]),
    ) by {
        lemma_contains_trans(r, event_json_tail(e), json_member(e.metadata@[i]));
    }
    if let Some(v) = opt_view(e.raw) {
        lemma_contains_trans(r, event_json_tail(e), ",\"raw\":"@ + spec_json_string(v));
    }
}

/// Every source and destination field of the event that is set reaches the event's
/// JSON: its member name followed by the value as a JSON string or number.
pub proof fn lemma_event_json_keeps_source_fields(e: SiemEvent)
    ensures
        opt_view(e.message) matches Some(v) ==> contains_text(event_json(e), ",\"message\":"@ + spec_json_string(v)),
        opt_view(e.src_ip) matches Some(v) ==> contains_text(event_json(e), ",\"src_ip\":"@ + spec_json_string(v)),
        widen(e.src_port) matches Some(n) ==> contains_text(event_json(e), ",\"src_port\":"@ + dec(n as nat)),
        opt_view(e.src_host) matches Some(v) ==> contains_text(event_json(e), ",\"src_host\":"@ + spec_json_string(v)),
        opt_view(e.src_user) matches Some(v) ==> contains_text(event_json(e), ",\"src_user\":"@ + spec_json_string(v)),
        opt_view(e.src_process) matches Some(v) ==> contains_text(event_json(e), ",\"src_process\":"@ + spec_json_string(v)),
        opt_view(e.dst_ip) matches Some(v) ==> contains_text(event_json(e), ",\"dst_ip\":"@ + spec_json_string(v)),
        widen(e.dst_port) matches Some(n) ==> contains_text(event_json(e), ",\"dst_port\":"@ + dec(n as nat)),
        opt_view(e.dst_host) matches Some(v) ==> contains_text(event_json(e), ",\"dst_host\":"@ + spec_json_string(v)),
        opt_view(e.dst_user) matches Some(v) ==> contains_text(event_json(e), ",\"dst_user\":"@ + spec_json_string(v)),
{
    let r = event_json(e);
    lemma_event_json_parts(e);
    lemma_event_json_origin_fields(e);
    if let Some(v) = opt_view(e.message) {
        lemma_contains_trans(r, event_json_origin(e), ",\"message\":"@ + spec_json_string(v));
    }
    if let Some(v) = opt_view(e.src_ip) {
        lemma_contains_trans(r, event_json_origin(e), ",\"src_ip\":"@ + spec_json_string(v));
    }
    if let Some(n) = widen(e.src_port) {
        lemma_contains_trans(r, event_json_origin(e), ",\"src_port\":"@ + dec(n as nat));
    }
    if let Some(v) = opt_view(e.src_host) {
        lemma_contains_trans(r, event_json_origin(e), ",\"src_host\":"@ + spec_json_string(v));
    }
    if let Some(v) = opt_view(e.src_user) {
        lemma_contains_trans(r, event_json_origin(e), ",\"src_user\":"@ + spec_json_string(v));
    }
    if let Some(v) = opt_view(e.src_process) {
        lemma_contains_trans(r, event_json_origin(e), ",\"src_process\":"@ + spec_json_string(v));
    }
    lemma_event_json_target_fields(e);
    if let Some(v) = opt_view(e.dst_ip) {
        lemma_contains_trans(r, event_json_target(e), ",\"dst_ip\":"@ + spec_json_string(v));
    }
    if let Some(n) = widen(e.dst_port) {
        lemma_contains_trans(r, event_json_target(e), ",\"dst_port\":"@ + dec(n as nat));
    }
    if let Some(v) = opt_view(e.dst_host) {
        lemma_contains_trans(r, event_json_target(e), ",\"dst_host\":"@ + spec_json_string(v));
    }
    if let Some(v) = opt_view(e.dst_user) {
        lemma_contains_trans(r, event_json_target(e), ",\"dst_user\":"@ + spec_json_string(v));
    }
}

/// Every request and resource field of the event that is set reaches the event's
/// JSON: its member name followed by the value as a JSON string or number.
pub proof fn lemma_event_json_keeps_request_fields(e: SiemEvent)
    ensures
        opt_view(e.http_method) matches Some(v) ==> contains_text(event_json(e), ",\"http_method\":"@ + spec_json_string(v)),
        opt_view(e.url) matches Some(v) ==> contains_text(event_json(e), ",\"url\":"@ + spec_json_string(v)),
        opt_view(e.user_agent) matches Some(v) ==> contains_text(event_json(e), ",\"user_agent\":"@ + spec_json_string(v)),
        widen(e.http_status) matches Some(n) ==> contains_text(event_json(e), ",\"http_status\":"@ + dec(n as nat)),
        e.bytes matches Some(n) ==> contains_text(event_json(e), ",\"bytes\":"@ + dec(n as nat)),
        opt_view(e.resource_type) matches Some(v) ==> contains_text(event_json(e), ",\"resource_type\":"@ + spec_json_string(v)),
        opt_view(e.resource_id) matches Some(v) ==> contains_text(event_json(e), ",\"resource_id\":"@ + spec_json_string(v)),
        opt_view(e.resource_name) matches Some(v) ==> contains_text(event_json(e), ",\"resource_name\":"@ + spec_json_string(v)),
        opt_view(e.application) matches Some(v) ==> contains_text(event_json(e), ",\"application\":"@ + spec_json_string(v)),
        opt_view(e.service) matches Some(v) ==> contains_text(event_json(e), ",\"service\":"@ + spec_json_string(v)),
        opt_view(e.environment) matches Some(v) ==> contains_text(event_json(e), ",\"environment\":"@ + spec_json_string(v)),
{
    let r = event_json(e);
    lemma_event_json_parts(e);
    lemma_event_json_request_fields(e);
    if let Some(v) = opt_view(e.http_method) {
        lemma_contains_trans(r, event_json_request(e), ",\"http_method\":"@ + spec_json_string(v));
    }
    if let Some(v) = opt_view(e.url) {
        lemma_contains_trans(r, event_json_request(e), ",\"url\":"@ + spec_json_string(v));
    }
    if let Some(v) = opt_view(e.user_agent) {
        lemma_contains_trans(r, event_json_request(e), ",\"user_agent\":"@ + spec_json_string(v));
    }
    if let Some(n) = widen(e.http_status) {
        lemma_contains_trans(r, event_json_request(e), ",\"http_status\":"@ + dec(n as nat));
    }
    if let Some(n) = e.bytes {
        lemma_contains_trans(r, event_json_request(e), ",\"bytes\":"@ + dec(n as nat));
    }
    lemma_event_json_resource_fields(e);
    if let Some(v) = opt_view(e.resource_type) {
        lemma_contains_trans(r, event_json_resource(e), ",\"resource_type\":"@ + spec_json_string(v));
    }
    if let Some(v) = opt_view(e.resource_id) {
        lemma_contains_trans(r, event_json_resource(e), ",\"resource_id\":"@ + spec_json_string(v));
    }
    if let Some(v) = opt_view(e.resource_name) {
        lemma_contains_trans(r, event_json_resource(e), ",\"resource_name\":"@ + spec_json_string(v));
    }
    if let Some(v) = opt_view(e.application) {
        lemma_contains_trans(r, event_json_resource(e), ",\"application\":"@ + spec_json_string(v));
    }
    if let Some(v) = opt_view(e.service) {
        lemma_contains_trans(r, event_json_resource(e), ",\"service\":"@ + spec_json_string(v));
    }
    if let Some(v) = opt_view(e.environment) {
        lemma_contains_trans(r, event_json_resource(e), ",\"environment\":"@ + spec_json_string(v));
    }
}

/// Every context and evidence field of the event that is set reaches the event's
/// JSON: its member name followed by the value as a JSON string or number.
pub proof fn lemma_event_json_keeps_detail_fields(e: SiemEvent)
    ensures
        opt_view(e.error_code) matches Some(v) ==> contains_text(event_json(e), ",\"error_code\":"@ + spec_json_string(v)),
        opt_view(e.error_message) matches Some(v) ==> contains_text(event_json(e), ",\"error_message\":"@ + spec_json_string(v)),
        e.duration_ms matches Some(n) ==> contains_text(event_json(e), ",\"duration_ms\":"@ + dec(n as nat)),
        opt_view(e.protocol) matches Some(v) ==> contains_text(event_json(e), ",\"protocol\":"@ + spec_json_string(v)),
        opt_view(e.device_id) matches Some(v) ==> contains_text(event_json(e), ",\"device_id\":"@ + spec_json_string(v)),
        opt_view(e.device_type) matches Some(v) ==> contains_text(event_json(e), ",\"device_type\":"@ + spec_json_string(v)),
        opt_view(e.threat_indicator_type) matches Some(v) ==> contains_text(event_json(e), ",\"threat_indicator_type\":"@ + spec_json_string(v)),
        opt_view(e.threat_indicator) matches Some(v) ==> contains_text(event_json(e), ",\"threat_indicator\":"@ + spec_json_string(v)),
        opt_view(e.file_path) matches Some(v) ==> contains_text(event_json(e), ",\"file_path\":"@ + spec_json_string(v)),
        opt_view(e.file_hash) matches Some(v) ==> contains_text(event_json(e), ",\"file_hash\":"@ + spec_json_string(v)),
        e.file_size matches Some(n) ==> contains_text(event_json(e), ",\"file_size\":"@ + dec(n as nat)),
{
    let r = event_json(e);
    lemma_event_json_parts(e);
    lemma_event_json_context_fields(e);
    if let Some(v) = opt_view(e.error_code) {
        lemma_contains_trans(r, event_json_context(e), ",\"error_code\":"@ + spec_json_string(v));
    }
    if let Some(v) = opt_view(e.error_message) {
        lemma_contains_trans(r, event_json_context(e), ",\"error_message\":"@ + spec_json_string(v));
    }
    if let Some(n) = e.duration_ms {
        lemma_contains_trans(r, event_json_context(e), ",\"duration_ms\":"@ + dec(n as nat));
    }
    if let Some(v) = opt_view(e.protocol) {
        lemma_contains_trans(r, event_json_context(e), ",\"protocol\":"@ + spec_json_string(v));
    }
    if let Some(v) = opt_view(e.device_id) {
        lemma_contains_trans(r, event_json_context(e), ",\"device_id\":"@ + spec_json_string(v));
    }
    if let Some(v) = opt_view(e.device_type) {
        lemma_contains_trans(r, event_json_context(e), ",\"device_type\":"@ + spec_json_string(v));
    }
    lemma_event_json_evidence_fields(e);
    if let Some(v) = opt_view(e.threat_indicator_type) {
        lemma_contains_trans(r, event_json_evidence(e), ",\"threat_indicator_type\":"@ + spec_json_string(v));
    }
    if let Some(v) = opt_view(e.threat_indicator) {
        lemma_contains_trans(r, event_json_evidence(e), ",\"threat_indicator\":"@ + spec_json_string(v));
    }
    if let Some(v) = opt_view(e.file_path) {
        lemma_contains_trans(r, event_json_evidence(e), ",\"file_path\":"@ + spec_json_string(v));
    }
    if let Some(v) = opt_view(e.file_hash) {
        lemma_contains_trans(r, event_json_evidence(e), ",\"file_hash\":"@ + spec_json_string(v));
    }
    if let Some(n) = e.file_size {
        lemma_contains_trans(r, event_json_evidence(e), ",\"file_size\":"@ + dec(n as nat));
    }
}

/// Every JSON record, bare or in the Splunk envelope, holds the event's JSON.
pub proof fn lemma_json_record_holds_event(e: SiemEvent, c: SiemConfig, host: Seq<char>)
    ensures
        contains_text(json_record(e, c, host), event_json(e)),
{
    broadcast use lemma_contains_concat;

    lemma_contains_self(event_json(e));
    if c.provider == SiemProvider::Splunk {
        lemma_hec_envelope_members(e, c, host);
        lemma_contains_trans(json_record(e, c, host), ",\"event\":"@ + event_json(e), event_json(e));
    }
}

impl JsonFormatter {
    fn push_category(out: &mut String, c: &EventCategory)
        ensures
            final(out)@ == old(out)@ + category_json(*c),
    {
        let ghost before = out@;
        match c {
            EventCategory::Custom(s) => {
                push_str(out, "{\"custom\":");
                push_json_str(out, s.as_str());
                push_str(out, "}");
            },
            _ => {
                push_str(out, "\"");
                push_str(out, c.as_str());
                push_str(out, "\"");
            },
        }
        assert(out@ =~= before + category_json(*c));
    }

    fn severity_text(s: SiemSeverity) -> (r: &'static str)
        ensures
            r@ == severity_json(s),
    {
        match s {
            SiemSeverity::Unknown => "\"Unknown\"",
            SiemSeverity::Low => "\"Low\"",
            SiemSeverity::Medium => "\"Medium\"",
            SiemSeverity::High => "\"High\"",
            SiemSeverity::Critical => "\"Critical\"",
        }
    }

    fn push_identity(out: &mut String, e: &SiemEvent)
        ensures
            final(out)@ == old(out)@ + event_json_identity(*e),
    {
        let ghost before = out@;
        push_str(out, "{\"id\":");
        push_json_str(out, e.id.as_str());
        push_str(out, ",\"timestamp\":");
        let t = e.timestamp.to_rfc3339_z();
        push_json_str(out, t.as_str());
        push_str(out, ",\"event_type\":");
        push_json_str(out, e.event_type.as_str());
        push_str(out, ",\"category\":");
        Self::push_category(out, &e.category);
        push_str(out, ",\"severity\":");
        push_str(out, Self::severity_text(e.severity));
        push_str(out, ",\"outcome\":\"");
        push_str(out, e.outcome.as_lower_str());
        push_str(out, "\",\"action\":");
        push_json_str(out, e.action.as_str());
        assert(out@ =~= before + event_json_identity(*e));
    }

    fn push_origin(out: &mut String, e: &SiemEvent)
        ensures
            final(out)@ == old(out)@ + event_json_origin(*e),
    {
        let ghost before = out@;
        push_str(out, ",\"message\":");
        push_json_opt_str(out, &e.message);
        push_str(out, ",\"src_ip\":");
        push_json_opt_str(out, &e.src_ip);
        push_str(out, ",\"src_port\":");
        push_json_opt_num(out, widen_u16(e.src_port));
        push_str(out, ",\"src_host\":");
        push_json_opt_str(out, &e.src_host);
        push_str(out, ",\"src_user\":");
        push_json_opt_str(out, &e.src_user);
        push_str(out, ",\"src_process\":");
        push_json_opt_str(out, &e.src_process);
        assert(out@ =~= before + event_json_origin(*e));
    }

    fn push_target(out: &mut String, e: &SiemEvent)
        ensures
            final(out)@ == old(out)@ + event_json_target(*e),
    {
        let ghost before = out@;
        push_str(out, ",\"dst_ip\":");
        push_json_opt_str(out, &e.dst_ip);
        push_str(out, ",\"dst_port\":");
        push_json_opt_num(out, widen_u16(e.dst_port));
        push_str(out, ",\"dst_host\":");
        push_json_opt_str(out, &e.dst_host);
        push_str(out, ",\"dst_user\":");
        push_json_opt_str(out, &e.dst_user);
        assert(out@ =~= before + event_json_target(*e));
    }

    fn push_request(out: &mut String, e: &SiemEvent)
        ensures
            final(out)@ == old(out)@ + event_json_request(*e),
    {
        let ghost before = out@;
        push_str(out, ",\"http_method\":");
        push_json_opt_str(out, &e.http_method);
        push_str(out, ",\"url\":");
        push_json_opt_str(out, &e.url);
        push_str(out, ",\"user_agent\":");
        push_json_opt_str(out, &e.user_agent);
        push_str(out, ",\"http_status\":");
        push_json_opt_num(out, widen_u16(e.http_status));
        push_str(out, ",\"bytes\":");
        push_json_opt_num(out, e.bytes);
        assert(out@ =~= before + event_json_request(*e));
    }

    fn push_resource(out: &mut String, e: &SiemEvent)
        ensures
            final(out)@ == old(out)@ + event_json_resource(*e),
    {
        let ghost before = out@;
        push_str(out, ",\"resource_type\":");
        push_json_opt_str(out, &e.resource_type);
        push_str(out, ",\"resource_id\":");
        push_json_opt_str(out, &e.resource_id);
        push_str(out, ",\"resource_name\":");
        push_json_opt_str(out, &e.resource_name);
        push_str(out, ",\"application\":");
        push_json_opt_str(out, &e.application);
        push_str(out, ",\"service\":");
        push_json_opt_str(out, &e.service);
        push_str(out, ",\"environment\":");
        push_json_opt_str(out, &e.environment);
        assert(out@ =~= before + event_json_resource(*e));
    }

    fn push_context(out: &mut String, e: &SiemEvent)
        ensures
            final(out)@ == old(out)@ + event_json_context(*e),
    {
        let ghost before = out@;
        push_str(out, ",\"error_code\":");
        push_json_opt_str(out, &e.error_code);
        push_str(out, ",\"error_message\":");
        push_json_opt_str(out, &e.error_message);
        push_str(out, ",\"duration_ms\":");
        push_json_opt_num(out, e.duration_ms);
        push_str(out, ",\"protocol\":");
        push_json_opt_str(out, &e.protocol);
        push_str(out, ",\"device_id\":");
        push_json_opt_str(out, &e.device_id);
        push_str(out, ",\"device_type\":");
        push_json_opt_str(out, &e.device_type);
        assert(out@ =~= before + event_json_context(*e));
    }

    fn push_evidence(out: &mut String, e: &SiemEvent)
        ensures
            final(out)@ == old(out)@ + event_json_evidence(*e),
    {
        let ghost before = out@;
        push_str(out, ",\"threat_indicator_type\":");
        push_json_opt_str(out, &e.threat_indicator_type);
        push_str(out, ",\"threat_indicator\":");
        push_json_opt_str(out, &e.threat_indicator);
        push_str(out, ",\"file_path\":");
        push_json_opt_str(out, &e.file_path);
        push_str(out, ",\"file_hash\":");
        push_json_opt_str(out, &e.file_hash);
        push_str(out, ",\"file_size\":");
        push_json_opt_num(out, e.file_size);
        assert(out@ =~= before + event_json_evidence(*e));
    }

    fn push_tail(out: &mut String, e: &SiemEvent)
        ensures
            final(out)@ == old(out)@ + event_json_tail(*e),
    {
        let ghost before = out@;
        push_str(out, ",\"metadata\":");
        push_json_object(out, &e.metadata);
        push_str(out, ",\"raw\":");
        push_json_opt_str(out, &e.raw);
        push_str(out, "}");
        assert(out@ =~= before + event_json_tail(*e));
    }

    /// Append the event as a JSON object.
    pub fn push_event_json(out: &mut String, e: &SiemEvent)
        ensures
            final(out)@ == old(out)@ + event_json(*e),
    {
        let ghost before = out@;
        Self::push_identity(out, e);
        Self::push_origin(out, e);
        Self::push_target(out, e);
        Self::push_request(out, e);
        Self::push_resource(out, e);
        Self::push_context(out, e);
        Self::push_evidence(out, e);
        Self::push_tail(out, e);
        assert(out@ =~= before + event_json(*e));
    }

    /// Append the Splunk HEC envelope for the event.
    fn push_hec(out: &mut String, e: &SiemEvent, c: &SiemConfig, host: &str)
        ensures
            final(out)@ == old(out)@ + hec_json(*e, *c, host@),
    {
        let ghost before = out@;
        push_str(out, "{\"time\":");
        push_i64(out, e.timestamp.timestamp());
        push_str(out, ",\"host\":");
        push_json_str(out, host);
        Self::push_routing(out, c);
        push_str(out, ",\"event\":");
        Self::push_event_json(out, e);
        push_str(out, "}");
        assert(out@ =~= before + hec_json(*e, *c, host@));
    }

    fn push_routing(out: &mut String, c: &SiemConfig)
        ensures
            final(out)@ == old(out)@ + hec_routing(*c),
    {
        let ghost before = out@;
        match &c.source {
            Some(s) => {
                push_str(out, ",\"source\":");
                push_json_str(out, s.as_str());
            },
            None => {},
        }
        match &c.source_type {
            Some(s) => {
                push_str(out, ",\"sourcetype\":");
                push_json_str(out, s.as_str());
            },
            None => {},
        }
        match &c.index {
            Some(s) => {
                push_str(out, ",\"index\":");
                push_json_str(out, s.as_str());
            },
            None => {},
        }
        assert(out@ =~= before + hec_routing(*c));
    }

    /// Format an event given the host name as the machine reports it
    /// (`None` when it could not be read; `unknown` is used then).
    pub fn format_with_host(&self, event: &SiemEvent, config: &SiemConfig, host: &Option<String>) -> (r:
        Result<String, SiemError>)
        ensures
            r matches Ok(s) && s@ == json_record(*event, *config, host_or(opt_view(*host), "unknown"@)),
    {
        let mut out = String::new();
        match config.provider {
            SiemProvider::Splunk => {
                match host {
                    Some(h) => Self::push_hec(&mut out, event, config, h.as_str()),
                    None => Self::push_hec(&mut out, event, config, "unknown"),
                }
            },
            _ => Self::push_event_json(&mut out, event),
        }
        assert(out@ =~= json_record(*event, *config, host_or(opt_view(*host), "unknown"@)));
        Ok(out)
    }

    /// Format an event, with this machine's host name in the Splunk envelope.
    pub fn format(&self, event: &SiemEvent, config: &SiemConfig) -> (r: Result<String, SiemError>)
        ensures
            r matches Ok(s) && exists|h: Option<Seq<char>>|
                s@ == json_record(*event, *config, host_or(h, "unknown"@)),
    {
        let host = system_hostname();
        self.format_with_host(event, config, &host)
    }

    /// Format several events given the host name (see `format_with_host`).
    pub fn format_batch_with_host(&self, events: &[SiemEvent], config: &SiemConfig, host: &Option<String>) -> (r:
        Result<String, SiemError>)
        ensures
            r matches Ok(s) && s@ == json_batch(events@, *config, host_or(opt_view(*host), "unknown"@)),
    {
        let ghost h = host_or(opt_view(*host), "unknown"@);
        let hs: &str = match host {
            Some(x) => x.as_str(),
            None => "unknown",
        };
        assert(hs@ == h);
        let n = events.len();
        let mut out = String::new();
        let mut i: usize = 0;
        match config.provider {
            SiemProvider::Splunk => {
                assert(Seq::new(0, |k: int| hec_json(events@[k], *config, h)) =~= Seq::<Seq<char>>::empty());
                while i < n
                    invariant
                        n == events@.len(),
                        i <= n,
                        hs@ == h,
                        config.provider == SiemProvider::Splunk,
                        out@ == join_lines(Seq::new(i as nat, |k: int| hec_json(events@[k], *config, h))),
                    decreases n - i,
                {
                    if i > 0 {
                        push_str(&mut out, "\n");
                    }
                    Self::push_hec(&mut out, &events[i], config, hs);
                    proof {
                        let s1 = Seq::new((i + 1) as nat, |k: int| hec_json(events@[k], *config, h));
                        let s0 = Seq::new(i as nat, |k: int| hec_json(events@[k], *config, h));
                        assert(s1.drop_last() =~= s0);
                        reveal_strlit("\n");
                        assert(out@ =~= join_lines(s1));
                    }
                    i = i + 1;
                }
                assert(out@ =~= json_batch(events@, *config, h));
            },
            _ => {
                push_str(&mut out, "[");
                assert(events@.take(0) =~= Seq::<SiemEvent>::empty());
                while i < n
                    invariant
                        n == events@.len(),
                        i <= n,
                        out@ == "["@ + event_json_list(events@.take(i as int)),
                    decreases n - i,
                {
                    if i > 0 {
                        push_str(&mut out, ",");
                    }
                    Self::push_event_json(&mut out, &events[i]);
                    proof {
                        let t = events@.take(i + 1);
                        assert(t.drop_last() =~= events@.take(i as int));
                        assert(out@ =~= "["@ + event_json_list(t));
                    }
                    i = i + 1;
                }
                push_str(&mut out, "]");
                assert(events@.take(n as int) =~= events@);
                assert(out@ =~= json_batch(events@, *config, h));
            },
        }
        Ok(out)
    }

    /// Format several events for one request, with this machine's host name.
    pub fn format_batch(&self, events: &[SiemEvent], config: &SiemConfig) -> (r: Result<String, SiemError>)
        ensures
            r matches Ok(s) && exists|h: Option<Seq<char>>|
                s@ == json_batch(events@, *config, host_or(h, "unknown"@)),
    {
        let host = system_hostname();
        self.format_batch_with_host(events, config, &host)
    }

    /// Content type for HTTP transport.
    pub fn content_type(&self) -> (r: &'static str)
        ensures
            r@ == "application/json"@,
    {
        "application/json"
    }
}

} // verus!
