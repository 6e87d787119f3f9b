//! Elastic Common Schema (ECS) formatter.
//!
//! Formats events according to Elastic Common Schema for use with
//! Elasticsearch, Elastic Security, and Elastic SIEM.

use vstd::prelude::*;
use crate::config::SiemConfig;
use crate::error::SiemError;
use crate::event::{
    category_text, opt_view, outcome_lower, spec_cef_severity, EventOutcome, SiemEvent, SiemSeverity,
};
use crate::format::parts::{
    any_present, json_member, json_object, lemma_json_object_has_entries, lemma_object_of_has,
    num_member, object_of, push_json_object, push_json_str, push_str,
    str_member, widen, widen_u16, ObjectWriter,
};
use crate::format::syslog::{host_or, system_hostname};
use crate::text::{
    contains_text, dec, lemma_contains_concat, lemma_contains_self, lemma_contains_trans, push_u64,
    spec_json_string,
};
use crate::time::spec_rfc3339;

verus! {

/// ECS (Elastic Common Schema) formatter.
#[derive(Debug, Clone, Copy)]
pub struct EcsFormatter;

/// `key` and the object of the present members, or nothing when none is present.
pub open spec fn opt_object(key: Seq<char>, ms: Seq<Option<Seq<char>>>) -> Seq<char> {
    if any_present(ms) {
        key + object_of(ms)
    } else {
        Seq::empty()
    }
}

/// `key` and a nested object as one member, when any of its members is present.
pub open spec fn nested(key: Seq<char>, ms: Seq<Option<Seq<char>>>) -> Option<Seq<char>> {
    if any_present(ms) {
        Some(key + object_of(ms))
    } else {
        None
    }
}

/// Event duration in nanoseconds, from milliseconds.
pub open spec fn duration_nanos(d: Option<u64>) -> Option<u64> {
    match d {
        Some(ms) => Some((ms * 1_000_000) as u64),
        None => None,
    }
}

/// The `event` object.
pub open spec fn ecs_event_object(e: SiemEvent) -> Seq<char> {
    "{\"id\":"@ + spec_json_string(e.id@) + ",\"kind\":\"event\",\"category\":["@ + spec_json_string(
        category_text(e.category),
    ) + "],\"type\":["@ + spec_json_string(e.event_type@) + "],\"action\":"@ + spec_json_string(
        e.action@,
    ) + ",\"outcome\":\""@ + outcome_lower(e.outcome) + "\",\"severity\":"@ + dec(
        spec_cef_severity(e.severity) as nat,
    ) + match duration_nanos(e.duration_ms) {
        Some(ns) => ",\"duration\":"@ + dec(ns as nat),
        None => Seq::empty(),
    } + ",\"original\":"@ + spec_json_string(e.event_type@) + "}"@
}

pub open spec fn source_members(e: SiemEvent) -> Seq<Option<Seq<char>>> {
    seq![
        str_member("\"ip\":"@, opt_view(e.src_ip)),
        num_member("\"port\":"@, widen(e.src_port)),
        str_member("\"domain\":"@, opt_view(e.src_host)),
    ]
}

pub open spec fn destination_members(e: SiemEvent) -> Seq<Option<Seq<char>>> {
    seq![
        str_member("\"ip\":"@, opt_view(e.dst_ip)),
        num_member("\"port\":"@, widen(e.dst_port)),
        str_member("\"domain\":"@, opt_view(e.dst_host)),
    ]
}

pub open spec fn user_members(e: SiemEvent) -> Seq<Option<Seq<char>>> {
    seq![str_member("\"name\":"@, opt_view(e.src_user)), None]
}

pub open spec fn request_members(e: SiemEvent) -> Seq<Option<Seq<char>>> {
    seq![str_member("\"method\":"@, opt_view(e.http_method)), num_member("\"bytes\":"@, e.bytes)]
}

pub open spec fn response_members(e: SiemEvent) -> Seq<Option<Seq<char>>> {
    seq![num_member("\"status_code\":"@, widen(e.http_status))]
}

pub open spec fn http_members(e: SiemEvent) -> Seq<Option<Seq<char>>> {
    seq![nested("\"request\":"@, request_members(e)), nested("\"response\":"@, response_members(e))]
}

pub open spec fn url_members(e: SiemEvent) -> Seq<Option<Seq<char>>> {
    seq![str_member("\"original\":"@, opt_view(e.url)), str_member("\"path\":"@, opt_view(e.url))]
}

pub open spec fn user_agent_members(e: SiemEvent) -> Seq<Option<Seq<char>>> {
    seq![str_member("\"original\":"@, opt_view(e.user_agent))]
}

pub open spec fn hash_members(e: SiemEvent) -> Seq<Option<Seq<char>>> {
    seq![str_member("\"sha256\":"@, opt_view(e.file_hash))]
}

pub open spec fn file_members(e: SiemEvent) -> Seq<Option<Seq<char>>> {
    seq![
        str_member("\"path\":"@, opt_view(e.file_path)),
        nested("\"hash\":"@, hash_members(e)),
        num_member("\"size\":"@, e.file_size),
    ]
}

pub open spec fn error_members(e: SiemEvent) -> Seq<Option<Seq<char>>> {
    seq![str_member("\"code\":"@, opt_view(e.error_code)), str_member("\"message\":"@, opt_view(e.error_message))]
}

pub open spec fn process_members(e: SiemEvent) -> Seq<Option<Seq<char>>> {
    seq![str_member("\"name\":"@, opt_view(e.src_process))]
}

pub open spec fn service_members(e: SiemEvent) -> Seq<Option<Seq<char>>> {
    seq![str_member("\"name\":"@, opt_view(e.service)), str_member("\"environment\":"@, opt_view(e.environment))]
}

pub open spec fn network_members(e: SiemEvent) -> Seq<Option<Seq<char>>> {
    seq![str_member("\"protocol\":"@, opt_view(e.protocol)), num_member("\"bytes\":"@, e.bytes)]
}

/// Timestamp, message and the `event` object.
pub open spec fn ecs_head(e: SiemEvent) -> Seq<char> {
    "{\"@timestamp\":"@ + spec_json_string(spec_rfc3339(e.timestamp@.0, e.timestamp@.1, false)) + match opt_view(
        e.message,
    ) {
        Some(m) => ",\"message\":"@ + spec_json_string(m),
        None => Seq::empty(),
    } + ",\"event\":"@ + ecs_event_object(e)
}

/// Source, destination, user and HTTP objects (HTTP only with a method or a status).
pub open spec fn ecs_network_objects(e: SiemEvent) -> Seq<char> {
    opt_object(",\"source\":"@, source_members(e)) + opt_object(",\"destination\":"@, destination_members(e))
        + opt_object(",\"user\":"@, user_members(e)) + if e.http_method is Some || e.http_status is Some {
        ",\"http\":"@ + object_of(http_members(e))
    } else {
        Seq::empty()
    }
}

/// URL and user agent objects.
pub open spec fn ecs_request_objects(e: SiemEvent) -> Seq<char> {
    opt_object(",\"url\":"@, url_members(e)) + opt_object(",\"user_agent\":"@, user_agent_members(e))
}

/// Error and process objects.
pub open spec fn ecs_fault_objects(e: SiemEvent) -> Seq<char> {
    opt_object(",\"error\":"@, error_members(e)) + opt_object(",\"process\":"@, process_members(e))
}

/// URL, user agent, file, error and process objects.
pub open spec fn ecs_detail_objects(e: SiemEvent) -> Seq<char> {
    ecs_request_objects(e) + opt_object(",\"file\":"@, file_members(e)) + ecs_fault_objects(e)
}

/// Host, service, network, labels and version objects, and the closing brace.
pub open spec fn ecs_tail(e: SiemEvent, host: Seq<char>) -> Seq<char> {
    ",\"host\":{\"name\":"@ + spec_json_string(host) + "}"@ + opt_object(",\"service\":"@, service_members(e))
        + opt_object(",\"network\":"@, network_members(e)) + if e.metadata@.len() > 0 {
        ",\"labels\":"@ + json_object(e.metadata@)
    } else {
        Seq::empty()
    } + ",\"ecs\":{\"version\":\"8.11\"}}"@
}

/// A complete ECS document for the event.
pub open spec fn ecs_record(e: SiemEvent, host: Seq<char>) -> Seq<char> {
    ecs_head(e) + ecs_network_objects(e) + ecs_detail_objects(e) + ecs_tail(e, host)
}

/// Durations that fit in nanoseconds.
pub open spec fn ecs_duration_fits(e: SiemEvent) -> bool {
    e.duration_ms matches Some(d) ==> d * 1_000_000 <= u64::MAX
}

proof fn lemma_ecs_objects_present(e: SiemEvent, host: Seq<char>)
    ensures
        any_present(source_members(e)) ==> contains_text(ecs_record(e, host), ",\"source\":"@ + object_of(source_members(e))),
        any_present(destination_members(e)) ==> contains_text(ecs_record(e, host), ",\"destination\":"@ + object_of(destination_members(e))),
        any_present(user_members(e)) ==> contains_text(ecs_record(e, host), ",\"user\":"@ + object_of(user_members(e))),
        any_present(url_members(e)) ==> contains_text(ecs_record(e, host), ",\"url\":"@ + object_of(url_members(e))),
        any_present(user_agent_members(e)) ==> contains_text(ecs_record(e, host), ",\"user_agent\":"@ + object_of(user_agent_members(e))),
        any_present(file_members(e)) ==> contains_text(ecs_record(e, host), ",\"file\":"@ + object_of(file_members(e))),
        any_present(error_members(e)) ==> contains_text(ecs_record(e, host), ",\"error\":"@ + object_of(error_members(e))),
        any_present(process_members(e)) ==> contains_text(ecs_record(e, host), ",\"process\":"@ + object_of(process_members(e))),
        any_present(service_members(e)) ==> contains_text(ecs_record(e, host), ",\"service\":"@ + object_of(service_members(e))),
        any_present(network_members(e)) ==> contains_text(ecs_record(e, host), ",\"network\":"@ + object_of(network_members(e))),
{
    broadcast use lemma_contains_concat;

    lemma_contains_self(opt_object(",\"source\":"@, source_members(e)));
    lemma_contains_self(opt_object(",\"destination\":"@, destination_members(e)));
    lemma_contains_self(opt_object(",\"user\":"@, user_members(e)));
    lemma_contains_self(opt_object(",\"url\":"@, url_members(e)));
    lemma_contains_self(opt_object(",\"user_agent\":"@, user_agent_members(e)));
    lemma_contains_self(opt_object(",\"file\":"@, file_members(e)));
    lemma_contains_self(opt_object(",\"error\":"@, error_members(e)));
    lemma_contains_self(opt_object(",\"process\":"@, process_members(e)));
    lemma_contains_self(opt_object(",\"service\":"@, service_members(e)));
    lemma_contains_self(opt_object(",\"network\":"@, network_members(e)));
}

/// Every event field that is set reaches the ECS document in its ECS
/// object (`source`, `destination`, `user`, `url`, `user_agent`, `file`,
/// `error`, `process`, `service`, `network`) as the member that ECS names
/// it by, with the value as a JSON string or number.
pub proof fn lemma_ecs_record_keeps_fields(e: SiemEvent, host: Seq<char>)
    ensures
        opt_view(e.src_ip) matches Some(v) ==> contains_text(ecs_record(e, host), ",\"source\":"@ + object_of(source_members(e)))
            && contains_text(object_of(source_members(e)), "\"ip\":"@ + spec_json_string(v)),
        widen(e.src_port) matches Some(n) ==> contains_text(ecs_record(e, host), ",\"source\":"@ + object_of(source_members(e)))
            && contains_text(object_of(source_members(e)), "\"port\":"@ + dec(n as nat)),
        opt_view(e.src_host) matches Some(v) ==> contains_text(ecs_record(e, host), ",\"source\":"@ + object_of(source_members(e)))
            && contains_text(object_of(source_members(e)), "\"domain\":"@ + spec_json_string(v)),
        opt_view(e.dst_ip) matches Some(v) ==> contains_text(ecs_record(e, host), ",\"destination\":"@ + object_of(destination_members(e)))
            && contains_text(object_of(destination_members(e)), "\"ip\":"@ + spec_json_string(v)),
        widen(e.dst_port) matches Some(n) ==> contains_text(ecs_record(e, host), ",\"destination\":"@ + object_of(destination_members(e)))
            && contains_text(object_of(destination_members(e)), "\"port\":"@ + dec(n as nat)),
        opt_view(e.dst_host) matches Some(v) ==> contains_text(ecs_record(e, host), ",\"destination\":"@ + object_of(destination_members(e)))
            && contains_text(object_of(destination_members(e)), "\"domain\":"@ + spec_json_string(v)),
        opt_view(e.src_user) matches Some(v) ==> contains_text(ecs_record(e, host), ",\"user\":"@ + object_of(user_members(e)))
            && contains_text(object_of(user_members(e)), "\"name\":"@ + spec_json_string(v)),
        opt_view(e.url) matches Some(v) ==> contains_text(ecs_record(e, host), ",\"url\":"@ + object_of(url_members(e)))
            && contains_text(object_of(url_members(e)), "\"original\":"@ + spec_json_string(v)),
        opt_view(e.user_agent) matches Some(v) ==> contains_text(ecs_record(e, host), ",\"user_agent\":"@ + object_of(user_agent_members(e)))
            && contains_text(object_of(user_agent_members(e)), "\"original\":"@ + spec_json_string(v)),
        opt_view(e.file_path) matches Some(v) ==> contains_text(ecs_record(e, host), ",\"file\":"@ + object_of(file_members(e)))
            && contains_text(object_of(file_members(e)), "\"path\":"@ + spec_json_string(v)),
        e.file_size matches Some(n) ==> contains_text(ecs_record(e, host), ",\"file\":"@ + object_of(file_members(e)))
            && contains_text(object_of(file_members(e)), "\"size\":"@ + dec(n as nat)),
        opt_view(e.error_code) matches Some(v) ==> contains_text(ecs_record(e, host), ",\"error\":"@ + object_of(error_members(e)))
            && contains_text(object_of(error_members(e)), "\"code\":"@ + spec_json_string(v)),
        opt_view(e.error_message) matches Some(v) ==> contains_text(ecs_record(e, host), ",\"error\":"@ + object_of(error_members(e)))
            && contains_text(object_of(error_members(e)), "\"message\":"@ + spec_json_string(v)),
        opt_view(e.src_process) matches Some(v) ==> contains_text(ecs_record(e, host), ",\"process\":"@ + object_of(process_members(e)))
            && contains_text(object_of(process_members(e)), "\"name\":"@ + spec_json_string(v)),
        opt_view(e.service) matches Some(v) ==> contains_text(ecs_record(e, host), ",\"service\":"@ + object_of(service_members(e)))
            && contains_text(object_of(service_members(e)), "\"name\":"@ + spec_json_string(v)),
        opt_view(e.environment) matches Some(v) ==> contains_text(ecs_record(e, host), ",\"service\":"@ + object_of(service_members(e)))
            && contains_text(object_of(service_members(e)), "\"environment\":"@ + spec_json_string(v)),
        opt_view(e.protocol) matches Some(v) ==> contains_text(ecs_record(e, host), ",\"network\":"@ + object_of(network_members(e)))
            && contains_text(object_of(network_members(e)), "\"protocol\":"@ + spec_json_string(v)),
        e.bytes matches Some(n) ==> contains_text(ecs_record(e, host), ",\"network\":"@ + object_of(network_members(e)))
            && contains_text(object_of(network_members(e)), "\"bytes\":"@ + dec(n as nat)),
{
    lemma_ecs_objects_present(e, host);
    if let Some(v) = opt_view(e.src_ip) {
        lemma_object_of_has(source_members(e));
        assert(source_members(e)[0] is Some);
    }
    if let Some(n) = widen(e.src_port) {
        lemma_object_of_has(source_members(e));
        assert(source_members(e)[1] is Some);
    }
    if let Some(v) = opt_view(e.src_host) {
        lemma_object_of_has(source_members(e));
        assert(source_members(e)[2] is Some);
    }
    if let Some(v) = opt_view(e.dst_ip) {
        lemma_object_of_has(destination_members(e));
        assert(destination_members(e)[0] is Some);
    }
    if let Some(n) = widen(e.dst_port) {
        lemma_object_of_has(destination_members(e));
        assert(destination_members(e)[1] is Some);
    }
    if let Some(v) = opt_view(e.dst_host) {
        lemma_object_of_has(destination_members(e));
        assert(destination_members(e)[2] is Some);
    }
    if let Some(v) = opt_view(e.src_user) {
        lemma_object_of_has(user_members(e));
        assert(user_members(e)[0] is Some);
    }
    if let Some(v) = opt_view(e.url) {
        lemma_object_of_has(url_members(e));
        assert(url_members(e)[0] is Some);
    }
    if let Some(v) = opt_view(e.user_agent) {
        lemma_object_of_has(user_agent_members(e));
        assert(user_agent_members(e)[0] is Some);
    }
    if let Some(v) = opt_view(e.file_path) {
        lemma_object_of_has(file_members(e));
        assert(file_members(e)[0] is Some);
    }
    if let Some(n) = e.file_size {
        lemma_object_of_has(file_members(e));
        assert(file_members(e)[2] is Some);
    }
    if let Some(v) = opt_view(e.error_code) {
        lemma_object_of_has(error_members(e));
        assert(error_members(e)[0] is Some);
    }
    if let Some(v) = opt_view(e.error_message) {
        lemma_object_of_has(error_members(e));
        assert(error_members(e)[1] is Some);
    }
    if let Some(v) = opt_view(e.src_process) {
        lemma_object_of_has(process_members(e));
        assert(process_members(e)[0] is Some);
    }
    if let Some(v) = opt_view(e.service) {
        lemma_object_of_has(service_members(e));
        assert(service_members(e)[0] is Some);
    }
    if let Some(v) = opt_view(e.environment) {
        lemma_object_of_has(service_members(e));
        assert(service_members(e)[1] is Some);
    }
    if let Some(v) = opt_view(e.protocol) {
        lemma_object_of_has(network_members(e));
        assert(network_members(e)[0] is Some);
    }
    if let Some(n) = e.bytes {
        lemma_object_of_has(network_members(e));
        assert(network_members(e)[1] is Some);
    }
}

/// The ECS document carries the message, the host name, the event's
/// action, outcome and 0-10 severity (unknown 0, low 3, medium 5, high 8,
/// critical 10), and every metadata entry as a label.
pub proof fn lemma_ecs_record_keeps_event(e: SiemEvent, host: Seq<char>)
    ensures
        opt_view(e.message) matches Some(m) ==> contains_text(
            ecs_record(e, host),
            ",\"message\":"@ + spec_json_string(m),
        ),
        contains_text(ecs_record(e, host), ",\"host\":{\"name\":"@ + spec_json_string(host)),
        contains_text(ecs_record(e, host), "\"action\":"@ + spec_json_string(e.action@)),
        contains_text(ecs_record(e, host), "\"outcome\":\""@ + outcome_lower(e.outcome)),
        contains_text(
            ecs_record(e, host),
            "\"severity\":"@ + dec(
                match e.severity {
                    SiemSeverity::Unknown => 0nat,
                    SiemSeverity::Low => 3nat,
                    SiemSeverity::Medium => 5nat,
                    SiemSeverity::High => 8nat,
                    SiemSeverity::Critical => 10nat,
                },
            ),
        ),
        forall|i: int|
            0 <= i < e.metadata@.len() ==> contains_text(ecs_record(e, host), #[trigger] json_member(e.metadata@[i])),
{
    broadcast use lemma_contains_concat;

    let ev = ecs_event_object(e);
    let act = "\"action\":"@ + spec_json_string(e.action@);
    let oc = "\"outcome\":\""@ + outcome_lower(e.outcome);
    let sev = "\"severity\":"@ + dec(spec_cef_severity(e.severity) as nat);
    let pre = "{\"id\":"@ + spec_json_string(e.id@) + ",\"kind\":\"event\",\"category\":["@ + spec_json_string(
        category_text(e.category),
    ) + "],\"type\":["@ + spec_json_string(e.event_type@) + "],"@;
    let post = match duration_nanos(e.duration_ms) {
        Some(ns) => ",\"duration\":"@ + dec(ns as nat),
        None => Seq::empty(),
    } + ",\"original\":"@ + spec_json_string(e.event_type@) + "}"@;
    reveal_strlit("],\"action\":");
    reveal_strlit("],");
    reveal_strlit("\"action\":");
    reveal_strlit(",\"outcome\":\"");
    reveal_strlit("\"outcome\":\"");
    reveal_strlit(",");
    reveal_strlit("\",\"severity\":");
    reveal_strlit("\",");
    reveal_strlit("\"severity\":");
    assert(ev =~= pre + act + (","@ + oc) + ("\","@ + sev) + post);
    lemma_contains_self(act);
    lemma_contains_self(oc);
    lemma_contains_self(sev);
    lemma_contains_self(ev);
    lemma_contains_trans(ecs_record(e, host), ev, act);
    lemma_contains_trans(ecs_record(e, host), ev, oc);
    lemma_contains_trans(ecs_record(e, host), ev, sev);
    lemma_contains_self(",\"host\":{\"name\":"@ + spec_json_string(host));
    if let Some(m) = opt_view(e.message) {
        lemma_contains_self(",\"message\":"@ + spec_json_string(m));
    }
    if e.metadata@.len() > 0 {
        let labels = json_object(e.metadata@);
        lemma_contains_self(labels);
        lemma_json_object_has_entries(e.metadata@);
        assert forall|i: int| 0 <= i < e.metadata@.len() implies contains_text(
            ecs_record(e, host),
            #[trigger] json_member(e.metadata@[i]),
        ) by {
            lemma_contains_trans(ecs_record(e, host), labels, json_member(e.metadata@[i]));
        }
    }
}

impl EcsFormatter {
    /// Lower-case outcome name used by ECS.
    pub fn map_outcome(outcome: EventOutcome) -> (r: &'static str)
        ensures
            r@ == outcome_lower(outcome),
    {
        match outcome {
            EventOutcome::Success => "success",
            EventOutcome::Failure => "failure",
            EventOutcome::Unknown => "unknown",
        }
    }

    /// Append `key` and the object when any member is present.
    fn push_opt_object(out: &mut String, key: &str, w: ObjectWriter)
        requires
            w.text@ == crate::format::parts::joined_members(w.members@).0,
            w.any == crate::format::parts::joined_members(w.members@).1,
        ensures
            final(out)@ == old(out)@ + opt_object(key@, w.members@),
    {
        let ghost before = out@;
        let ghost ms = w.members@;
        if w.any {
            push_str(out, key);
            let t = w.finish();
            out.append(t.as_str());
        }
        assert(out@ =~= before + opt_object(key@, ms));
    }

    /// A nested object member, when any of its members is present.
    fn nested_member(w: ObjectWriter, key: &str) -> (r: Option<String>)
        requires
            w.text@ == crate::format::parts::joined_members(w.members@).0,
            w.any == crate::format::parts::joined_members(w.members@).1,
        ensures
            opt_view(r) == nested(key@, w.members@),
    {
        let ghost ms = w.members@;
        if w.any {
            let mut s = String::new();
            push_str(&mut s, key);
            let t = w.finish();
            s.append(t.as_str());
            Some(s)
        } else {
            None
        }
    }

    fn push_event_object(out: &mut String, e: &SiemEvent)
        requires
            ecs_duration_fits(*e),
        ensures
            final(out)@ == old(out)@ + ecs_event_object(*e),
    {
        let ghost before = out@;
        push_str(out, "{\"id\":");
        push_json_str(out, e.id.as_str());
        push_str(out, ",\"kind\":\"event\",\"category\":[");
        push_json_str(out, e.category.as_str());
        push_str(out, "],\"type\":[");
        push_json_str(out, e.event_type.as_str());
        push_str(out, "],\"action\":");
        push_json_str(out, e.action.as_str());
        push_str(out, ",\"outcome\":\"");
        push_str(out, Self::map_outcome(e.outcome));
        push_str(out, "\",\"severity\":");
        push_u64(out, e.severity.as_cef_severity() as u64);
        let ghost mid = out@;
        match e.duration_ms {
            Some(d) => {
                push_str(out, ",\"duration\":");
                push_u64(out, d * 1_000_000);
            },
            None => {},
        }
        push_str(out, ",\"original\":");
        push_json_str(out, e.event_type.as_str());
        push_str(out, "}");
        assert(out@ =~= before + ecs_event_object(*e));
    }

    fn push_head(out: &mut String, e: &SiemEvent)
        requires
            ecs_duration_fits(*e),
        ensures
            final(out)@ == old(out)@ + ecs_head(*e),
    {
        let ghost before = out@;
        push_str(out, "{\"@timestamp\":");
        let t = e.timestamp.to_rfc3339();
        push_json_str(out, t.as_str());
        match &e.message {
            Some(m) => {
                push_str(out, ",\"message\":");
                push_json_str(out, m.as_str());
            },
            None => {},
        }
        push_str(out, ",\"event\":");
        Self::push_event_object(out, e);
        assert(out@ =~= before + ecs_head(*e));
    }

    fn push_http(out: &mut String, e: &SiemEvent)
        ensures
            final(out)@ == old(out)@ + (if e.http_method is Some || e.http_status is Some {
                ",\"http\":"@ + object_of(http_members(*e))
            } else {
                Seq::empty()
            }),
    {
        let ghost before = out@;
        if e.http_method.is_some() || e.http_status.is_some() {
            let mut req = ObjectWriter::new();
            req.add_str("\"method\":", &e.http_method);
            req.add_num("\"bytes\":", e.bytes);
            assert(req.members@ =~= request_members(*e));
            let req_m = Self::nested_member(req, "\"request\":");
            let mut resp = ObjectWriter::new();
            resp.add_num("\"status_code\":", widen_u16(e.http_status));
            assert(resp.members@ =~= response_members(*e));
            let resp_m = Self::nested_member(resp, "\"response\":");
            let mut http = ObjectWriter::new();
            match req_m {
                Some(m) => http.add(m.as_str(), ""),
                None => http.skip(),
            }
            match resp_m {
                Some(m) => http.add(m.as_str(), ""),
                None => http.skip(),
            }
            proof {
                reveal_strlit("");
            }
            assert(http.members@ =~= http_members(*e));
            push_str(out, ",\"http\":");
            let t = http.finish();
            out.append(t.as_str());
        }
        assert(out@ =~= before + (if e.http_method is Some || e.http_status is Some {
            ",\"http\":"@ + object_of(http_members(*e))
        } else {
            Seq::empty()
        }));
    }

    fn push_network_objects(out: &mut String, e: &SiemEvent)
        ensures
            final(out)@ == old(out)@ + ecs_network_objects(*e),
    {
        let ghost before = out@;
        let mut src = ObjectWriter::new();
        src.add_str("\"ip\":", &e.src_ip);
        src.add_num("\"port\":", widen_u16(e.src_port));
        src.add_str("\"domain\":", &e.src_host);
        assert(src.members@ =~= source_members(*e));
        Self::push_opt_object(out, ",\"source\":", src);
        let mut dst = ObjectWriter::new();
        dst.add_str("\"ip\":", &e.dst_ip);
        dst.add_num("\"port\":", widen_u16(e.dst_port));
        dst.add_str("\"domain\":", &e.dst_host);
        assert(dst.members@ =~= destination_members(*e));
        Self::push_opt_object(out, ",\"destination\":", dst);
        let mut user = ObjectWriter::new();
        user.add_str("\"name\":", &e.src_user);
        user.skip();
        assert(user.members@ =~= user_members(*e));
        Self::push_opt_object(out, ",\"user\":", user);
        Self::push_http(out, e);
        assert(out@ =~= before + ecs_network_objects(*e));
    }

    fn push_request_objects(out: &mut String, e: &SiemEvent)
        ensures
            final(out)@ == old(out)@ + ecs_request_objects(*e),
    {
        let ghost before = out@;
        let mut url = ObjectWriter::new();
        url.add_str("\"original\":", &e.url);
        url.add_str("\"path\":", &e.url);
        assert(url.members@ =~= url_members(*e));
        Self::push_opt_object(out, ",\"url\":", url);
        let mut ua = ObjectWriter::new();
        ua.add_str("\"original\":", &e.user_agent);
        assert(ua.members@ =~= user_agent_members(*e));
        Self::push_opt_object(out, ",\"user_agent\":", ua);
        assert(out@ =~= before + ecs_request_objects(*e));
    }

    fn push_file_object(out: &mut String, e: &SiemEvent)
        ensures
            final(out)@ == old(out)@ + opt_object(",\"file\":"@, file_members(*e)),
    {
        let mut hash = ObjectWriter::new();
        hash.add_str("\"sha256\":", &e.file_hash);
        assert(hash.members@ =~= hash_members(*e));
        let hash_m = Self::nested_member(hash, "\"hash\":");
        let mut file = ObjectWriter::new();
        file.add_str("\"path\":", &e.file_path);
        match hash_m {
            Some(m) => file.add(m.as_str(), ""),
            None => file.skip(),
        }
        file.add_num("\"size\":", e.file_size);
        proof {
            reveal_strlit("");
        }
        assert(file.members@ =~= file_members(*e));
        Self::push_opt_object(out, ",\"file\":", file);
    }

    fn push_fault_objects(out: &mut String, e: &SiemEvent)
        ensures
            final(out)@ == old(out)@ + ecs_fault_objects(*e),
    {
        let ghost before = out@;
        let mut err = ObjectWriter::new();
        err.add_str("\"code\":", &e.error_code);
        err.add_str("\"message\":", &e.error_message);
        assert(err.members@ =~= error_members(*e));
        Self::push_opt_object(out, ",\"error\":", err);
        let mut process = ObjectWriter::new();
        process.add_str("\"name\":", &e.src_process);
        assert(process.members@ =~= process_members(*e));
        Self::push_opt_object(out, ",\"process\":", process);
        assert(out@ =~= before + ecs_fault_objects(*e));
    }

    fn push_detail_objects(out: &mut String, e: &SiemEvent)
        ensures
            final(out)@ == old(out)@ + ecs_detail_objects(*e),
    {
        let ghost before = out@;
        Self::push_request_objects(out, e);
        Self::push_file_object(out, e);
        Self::push_fault_objects(out, e);
        assert(out@ =~= before + ecs_detail_objects(*e));
    }

    fn push_tail(out: &mut String, e: &SiemEvent, host: &str)
        ensures
            final(out)@ == old(out)@ + ecs_tail(*e, host@),
    {
        let ghost before = out@;
        push_str(out, ",\"host\":{\"name\":");
        push_json_str(out, host);
        push_str(out, "}");
        let mut service = ObjectWriter::new();
        service.add_str("\"name\":", &e.service);
        service.add_str("\"environment\":", &e.environment);
        assert(service.members@ =~= service_members(*e));
        Self::push_opt_object(out, ",\"service\":", service);
        let mut network = ObjectWriter::new();
        network.add_str("\"protocol\":", &e.protocol);
        network.add_num("\"bytes\":", e.bytes);
        assert(network.members@ =~= network_members(*e));
        Self::push_opt_object(out, ",\"network\":", network);
        let ghost mid = out@;
        if !e.metadata.is_empty() {
            push_str(out, ",\"labels\":");
            push_json_object(out, &e.metadata);
        }
        push_str(out, ",\"ecs\":{\"version\":\"8.11\"}}");
        assert(out@ =~= before + ecs_tail(*e, host@));
    }

    /// Format an event given the host name as the machine reports it
    /// (`None` when it could not be read; `unknown` is used then).
    pub fn format_with_host(&self, event: &SiemEvent, _config: &SiemConfig, host: &Option<String>) -> (r:
        Result<String, SiemError>)
        requires
            ecs_duration_fits(*event),
        ensures
            r matches Ok(s) && s@ == ecs_record(*event, host_or(opt_view(*host), "unknown"@)),
    {
        let mut out = String::new();
        Self::push_head(&mut out, event);
        Self::push_network_objects(&mut out, event);
        Self::push_detail_objects(&mut out, event);
        match host {
            Some(h) => Self::push_tail(&mut out, event, h.as_str()),
            None => Self::push_tail(&mut out, event, "unknown"),
        }
        assert(out@ =~= ecs_record(*event, host_or(opt_view(*host), "unknown"@)));
        Ok(out)
    }

    /// Format an event as one ECS document, with this machine's host name.
    pub fn format(&self, event: &SiemEvent, config: &SiemConfig) -> (r: Result<String, SiemError>)
        requires
            ecs_duration_fits(*event),
        ensures
            r matches Ok(s) && exists|h: Option<Seq<char>>| s@ == ecs_record(*event, host_or(h, "unknown"@)),
    {
        let host = system_hostname();
        self.format_with_host(event, config, &host)
    }

    /// Content type for HTTP transport.
    pub fn content_type(&self) -> (r: &'static str)
        ensures
            r@ == "application/json"@,
    {
        "application/json"
    }
}

} // verus!
