//! Log Event Extended Format (LEEF) formatter.
//!
//! LEEF is used by IBM QRadar and other IBM security products.
//!
//! Format: `LEEF:Version|Vendor|Product|Version|EventID|<tab-delimited attributes>`

use vstd::prelude::*;
use crate::config::SiemConfig;
use crate::error::SiemError;
use crate::event::{category_text, opt_view, outcome_lower, spec_cef_severity, SiemEvent, SiemSeverity};
use crate::format::parts::{opt_dec, opt_escaped, push_opt_dec, push_opt_escaped, push_str, widen, widen_u16};
use crate::metadata::{MetaEntry, Metadata};
use crate::text::{
    contains_text, dec, escape, escaped, lemma_contains_concat, lemma_contains_self, lemma_contains_trans, push_escaped, push_u64,
    Escaping,
};
use crate::time::spec_rfc3339;

verus! {

/// LEEF (Log Event Extended Format) formatter.
///
/// Formats events according to the LEEF 2.0 specification:
/// `LEEF:2.0|Vendor|Product|Version|EventID|<attributes>`
#[derive(Debug, Clone, Copy)]
pub struct LeefFormatter;

/// Time, severity, category and source attributes.
pub open spec fn leef_source_part(e: SiemEvent) -> Seq<char> {
    "devTime="@ + spec_rfc3339(e.timestamp@.0, e.timestamp@.1, false) + "\tsev="@ + dec(
        spec_cef_severity(e.severity) as nat,
    ) + "\tcat="@ + category_text(e.category)
        + opt_escaped("\tsrc="@, Escaping::LeefValue, opt_view(e.src_ip))
        + opt_dec("\tsrcPort="@, widen(e.src_port))
        + opt_escaped("\tsrcHostName="@, Escaping::LeefValue, opt_view(e.src_host))
        + opt_escaped("\tusrName="@, Escaping::LeefValue, opt_view(e.src_user))
}

/// Destination, HTTP, protocol and byte-count attributes.
pub open spec fn leef_network_part(e: SiemEvent) -> Seq<char> {
    opt_escaped("\tdst="@, Escaping::LeefValue, opt_view(e.dst_ip))
        + opt_dec("\tdstPort="@, widen(e.dst_port))
        + opt_escaped("\tdstHostName="@, Escaping::LeefValue, opt_view(e.dst_host))
        + opt_escaped("\thttpMethod="@, Escaping::LeefValue, opt_view(e.http_method))
        + opt_escaped("\turl="@, Escaping::LeefValue, opt_view(e.url))
        + opt_escaped("\tuserAgent="@, Escaping::LeefValue, opt_view(e.user_agent))
        + opt_dec("\thttpStatusCode="@, widen(e.http_status))
        + opt_escaped("\tproto="@, Escaping::LeefValue, opt_view(e.protocol))
        + opt_dec("\tbytesOut="@, e.bytes)
}

/// Action, outcome, message, resource and application attributes.
pub open spec fn leef_activity_part(e: SiemEvent) -> Seq<char> {
    "\taction="@ + escaped(Escaping::LeefValue, e.action@) + "\toutcome="@ + outcome_lower(e.outcome)
        + opt_escaped("\tmsg="@, Escaping::LeefValue, opt_view(e.message))
        + opt_escaped("\tresourceType="@, Escaping::LeefValue, opt_view(e.resource_type))
        + opt_escaped("\tresourceId="@, Escaping::LeefValue, opt_view(e.resource_id))
        + opt_escaped("\tapplication="@, Escaping::LeefValue, opt_view(e.application))
        + opt_escaped("\tservice="@, Escaping::LeefValue, opt_view(e.service))
}

/// File, error, duration and id attributes.
pub open spec fn leef_detail_part(e: SiemEvent) -> Seq<char> {
    opt_escaped("\tfileName="@, Escaping::LeefValue, opt_view(e.file_path))
        + opt_escaped("\tfileHash="@, Escaping::LeefValue, opt_view(e.file_hash))
        + opt_dec("\tfileSize="@, e.file_size)
        + opt_escaped("\terrorMsg="@, Escaping::LeefValue, opt_view(e.error_message))
        + opt_escaped("\terrorCode="@, Escaping::LeefValue, opt_view(e.error_code))
        + opt_dec("\tduration="@, e.duration_ms)
        + "\texternalId="@ + e.id@
}

/// One tab-prefixed `key=value` attribute per metadata entry, in key order.
pub open spec fn leef_metadata_part(entries: Seq<MetaEntry>) -> Seq<char>
    decreases entries.len(),
{
    if entries.len() == 0 {
        Seq::empty()
    } else {
        leef_metadata_part(entries.drop_last()) + "\t"@ + escaped(Escaping::LeefValue, entries.last().0)
            + "="@ + escaped(Escaping::LeefValue, entries.last().1.text)
    }
}

/// One metadata entry as a LEEF attribute.
pub open spec fn leef_meta_attribute(entry: MetaEntry) -> Seq<char> {
    "\t"@ + escaped(Escaping::LeefValue, entry.0) + "="@ + escaped(Escaping::LeefValue, entry.1.text)
}

proof fn lemma_leef_metadata_has_entries(entries: Seq<MetaEntry>)
    ensures
        forall|i: int|
            0 <= i < entries.len() ==> contains_text(
                leef_metadata_part(entries),
                #[trigger] leef_meta_attribute(entries[i]),
            ),
    decreases entries.len(),
{
    if entries.len() > 0 {
        let init = entries.drop_last();
        lemma_leef_metadata_has_entries(init);
        let last = leef_meta_attribute(entries.last());
        lemma_contains_self(last);
        assert(leef_metadata_part(entries) =~= leef_metadata_part(init) + last);
        assert forall|i: int| 0 <= i < entries.len() implies contains_text(
            leef_metadata_part(entries),
            #[trigger] leef_meta_attribute(entries[i]),
        ) by {
            if i < entries.len() - 1 {
                assert(entries[i] == init[i]);
                lemma_contains_concat(leef_metadata_part(init), last, leef_meta_attribute(entries[i]));
            } else {
                lemma_contains_concat(leef_metadata_part(init), last, last);
            }
        }
    }
}

/// The tab-delimited attribute list.
pub open spec fn leef_attributes(e: SiemEvent) -> Seq<char> {
    leef_source_part(e) + leef_network_part(e) + leef_activity_part(e) + leef_detail_part(e)
        + leef_metadata_part(e.metadata@)
}

/// A complete LEEF record for the event.
pub open spec fn leef_record(e: SiemEvent, c: SiemConfig) -> Seq<char> {
    "LEEF:2.0|"@ + escaped(Escaping::LeefHeader, c.cef_vendor@) + "|"@ + escaped(
        Escaping::LeefHeader,
        c.cef_product@,
    ) + "|"@ + escaped(Escaping::LeefHeader, c.cef_version@) + "|"@ + escaped(
        Escaping::LeefHeader,
        e.event_type@,
    ) + "|"@ + leef_attributes(e)
}

proof fn lemma_leef_parts(e: SiemEvent, c: SiemConfig)
    ensures
        contains_text(leef_record(e, c), leef_source_part(e)),
        contains_text(leef_record(e, c), leef_network_part(e)),
        contains_text(leef_record(e, c), leef_activity_part(e)),
        contains_text(leef_record(e, c), leef_detail_part(e)),
        contains_text(leef_record(e, c), leef_metadata_part(e.metadata@)),
{
    broadcast use lemma_contains_concat;

    lemma_contains_self(leef_source_part(e));
    lemma_contains_self(leef_network_part(e));
    lemma_contains_self(leef_activity_part(e));
    lemma_contains_self(leef_detail_part(e));
    lemma_contains_self(leef_metadata_part(e.metadata@));
}

proof fn lemma_leef_source_fields(e: SiemEvent)
    ensures
        contains_text(leef_source_part(e), "\tsev="@ + dec(spec_cef_severity(e.severity) as nat)),
        opt_view(e.src_ip) matches Some(v) ==> contains_text(
            leef_source_part(e),
            "\tsrc="@ + escaped(Escaping::LeefValue, v),
        ),
        opt_view(e.src_host) matches Some(v) ==> contains_text(
            leef_source_part(e),
            "\tsrcHostName="@ + escaped(Escaping::LeefValue, v),
        ),
        opt_view(e.src_user) matches Some(v) ==> contains_text(
            leef_source_part(e),
            "\tusrName="@ + escaped(Escaping::LeefValue, v),
        ),
        widen(e.src_port) matches Some(n) ==> contains_text(leef_source_part(e), "\tsrcPort="@ + dec(n as nat)),
{
    broadcast use lemma_contains_concat;

    let sev = "\tsev="@ + dec(spec_cef_severity(e.severity) as nat);
    let cat_and_source = "\tcat="@ + category_text(e.category) + opt_escaped(
        "\tsrc="@,
        Escaping::LeefValue,
        opt_view(e.src_ip),
    ) + opt_dec("\tsrcPort="@, widen(e.src_port)) + opt_escaped(
        "\tsrcHostName="@,
        Escaping::LeefValue,
        opt_view(e.src_host),
    ) + opt_escaped("\tusrName="@, Escaping::LeefValue, opt_view(e.src_user));
    assert(leef_source_part(e) =~= ("devTime="@ + spec_rfc3339(e.timestamp@.0, e.timestamp@.1, false))
        + sev + cat_and_source);
    lemma_contains_self(sev);
    lemma_contains_self(opt_escaped("\tsrc="@, Escaping::LeefValue, opt_view(e.src_ip)));
    lemma_contains_self(opt_escaped("\tsrcHostName="@, Escaping::LeefValue, opt_view(e.src_host)));
    lemma_contains_self(opt_escaped("\tusrName="@, Escaping::LeefValue, opt_view(e.src_user)));
    lemma_contains_self(opt_dec("\tsrcPort="@, widen(e.src_port)));
}

proof fn lemma_leef_network_fields(e: SiemEvent)
    ensures
        opt_view(e.dst_ip) matches Some(v) ==> contains_text(
            leef_network_part(e),
            "\tdst="@ + escaped(Escaping::LeefValue, v),
        ),
        opt_view(e.dst_host) matches Some(v) ==> contains_text(
            leef_network_part(e),
            "\tdstHostName="@ + escaped(Escaping::LeefValue, v),
        ),
        opt_view(e.http_method) matches Some(v) ==> contains_text(
            leef_network_part(e),
            "\thttpMethod="@ + escaped(Escaping::LeefValue, v),
        ),
        opt_view(e.url) matches Some(v) ==> contains_text(
            leef_network_part(e),
            "\turl="@ + escaped(Escaping::LeefValue, v),
        ),
        opt_view(e.user_agent) matches Some(v) ==> contains_text(
            leef_network_part(e),
            "\tuserAgent="@ + escaped(Escaping::LeefValue, v),
        ),
        opt_view(e.protocol) matches Some(v) ==> contains_text(
            leef_network_part(e),
            "\tproto="@ + escaped(Escaping::LeefValue, v),
        ),
        widen(e.dst_port) matches Some(n) ==> contains_text(leef_network_part(e), "\tdstPort="@ + dec(n as nat)),
        widen(e.http_status) matches Some(n) ==> contains_text(leef_network_part(e), "\thttpStatusCode="@ + dec(n as nat)),
        e.bytes matches Some(n) ==> contains_text(leef_network_part(e), "\tbytesOut="@ + dec(n as nat)),
{
    broadcast use lemma_contains_concat;

    lemma_contains_self(opt_escaped("\tdst="@, Escaping::LeefValue, opt_view(e.dst_ip)));
    lemma_contains_self(opt_escaped("\tdstHostName="@, Escaping::LeefValue, opt_view(e.dst_host)));
    lemma_contains_self(opt_escaped("\thttpMethod="@, Escaping::LeefValue, opt_view(e.http_method)));
    lemma_contains_self(opt_escaped("\turl="@, Escaping::LeefValue, opt_view(e.url)));
    lemma_contains_self(opt_escaped("\tuserAgent="@, Escaping::LeefValue, opt_view(e.user_agent)));
    lemma_contains_self(opt_escaped("\tproto="@, Escaping::LeefValue, opt_view(e.protocol)));
    lemma_contains_self(opt_dec("\tdstPort="@, widen(e.dst_port)));
    lemma_contains_self(opt_dec("\thttpStatusCode="@, widen(e.http_status)));
    lemma_contains_self(opt_dec("\tbytesOut="@, e.bytes));
}

proof fn lemma_leef_activity_fields(e: SiemEvent)
    ensures
        contains_text(
            leef_activity_part(e),
            "\taction="@ + escaped(Escaping::LeefValue, e.action@) + "\toutcome="@ + outcome_lower(e.outcome),
        ),
        opt_view(e.message) matches Some(v) ==> contains_text(
            leef_activity_part(e),
            "\tmsg="@ + escaped(Escaping::LeefValue, v),
        ),
        opt_view(e.resource_type) matches Some(v) ==> contains_text(
            leef_activity_part(e),
            "\tresourceType="@ + escaped(Escaping::LeefValue, v),
        ),
        opt_view(e.resource_id) matches Some(v) ==> contains_text(
            leef_activity_part(e),
            "\tresourceId="@ + escaped(Escaping::LeefValue, v),
        ),
        opt_view(e.application) matches Some(v) ==> contains_text(
            leef_activity_part(e),
            "\tapplication="@ + escaped(Escaping::LeefValue, v),
        ),
        opt_view(e.service) matches Some(v) ==> contains_text(
            leef_activity_part(e),
            "\tservice="@ + escaped(Escaping::LeefValue, v),
        ),
{
    broadcast use lemma_contains_concat;

    lemma_contains_self(
        "\taction="@ + escaped(Escaping::LeefValue, e.action@) + "\toutcome="@ + outcome_lower(e.outcome),
    );
    lemma_contains_self(opt_escaped("\tmsg="@, Escaping::LeefValue, opt_view(e.message)));
    lemma_contains_self(opt_escaped("\tresourceType="@, Escaping::LeefValue, opt_view(e.resource_type)));
    lemma_contains_self(opt_escaped("\tresourceId="@, Escaping::LeefValue, opt_view(e.resource_id)));
    lemma_contains_self(opt_escaped("\tapplication="@, Escaping::LeefValue, opt_view(e.application)));
    lemma_contains_self(opt_escaped("\tservice="@, Escaping::LeefValue, opt_view(e.service)));
}

proof fn lemma_leef_detail_fields(e: SiemEvent)
    ensures
        contains_text(leef_detail_part(e), "\texternalId="@ + e.id@),
        opt_view(e.file_path) matches Some(v) ==> contains_text(
            leef_detail_part(e),
            "\tfileName="@ + escaped(Escaping::LeefValue, v),
        ),
        opt_view(e.file_hash) matches Some(v) ==> contains_text(
            leef_detail_part(e),
            "\tfileHash="@ + escaped(Escaping::LeefValue, v),
        ),
        opt_view(e.error_message) matches Some(v) ==> contains_text(
            leef_detail_part(e),
            "\terrorMsg="@ + escaped(Escaping::LeefValue, v),
        ),
        opt_view(e.error_code) matches Some(v) ==> contains_text(
            leef_detail_part(e),
            "\terrorCode="@ + escaped(Escaping::LeefValue, v),
        ),
        e.file_size matches Some(n) ==> contains_text(leef_detail_part(e), "\tfileSize="@ + dec(n as nat)),
        e.duration_ms matches Some(n) ==> contains_text(leef_detail_part(e), "\tduration="@ + dec(n as nat)),
{
    broadcast use lemma_contains_concat;

    let ext_id = "\texternalId="@ + e.id@;
    let files = opt_escaped("\tfileName="@, Escaping::LeefValue, opt_view(e.file_path)) + opt_escaped(
        "\tfileHash="@,
        Escaping::LeefValue,
        opt_view(e.file_hash),
    ) + opt_dec("\tfileSize="@, e.file_size) + opt_escaped(
        "\terrorMsg="@,
        Escaping::LeefValue,
        opt_view(e.error_message),
    ) + opt_escaped("\terrorCode="@, Escaping::LeefValue, opt_view(e.error_code)) + opt_dec(
        "\tduration="@,
        e.duration_ms,
    );
    assert(leef_detail_part(e) =~= files + ext_id);
    lemma_contains_self(ext_id);
    lemma_contains_self(opt_escaped("\tfileName="@, Escaping::LeefValue, opt_view(e.file_path)));
    lemma_contains_self(opt_escaped("\tfileHash="@, Escaping::LeefValue, opt_view(e.file_hash)));
    lemma_contains_self(opt_escaped("\terrorMsg="@, Escaping::LeefValue, opt_view(e.error_message)));
    lemma_contains_self(opt_escaped("\terrorCode="@, Escaping::LeefValue, opt_view(e.error_code)));
    lemma_contains_self(opt_dec("\tfileSize="@, e.file_size));
    lemma_contains_self(opt_dec("\tduration="@, e.duration_ms));
}

/// The LEEF `sev` attribute is the 0-10 CEF severity (unknown 0, low 3,
/// medium 5, high 8, critical 10), so it grows with the severity; and
/// every event field that is set reaches the record as its attribute key
/// followed by the LEEF-escaped value, and so does every metadata entry.
#[verifier::spinoff_prover]
#[verifier::rlimit(60)]
pub proof fn lemma_leef_record_keeps_fields(e: SiemEvent, c: SiemConfig)
    ensures
        contains_text(
            leef_record(e, c),
            "\tsev="@ + dec(
                match e.severity {
                    SiemSeverity::Unknown => 0nat,
                    SiemSeverity::Low => 3nat,
                    SiemSeverity::Medium => 5nat,
                    SiemSeverity::High => 8nat,
                    SiemSeverity::Critical => 10nat,
                },
            ),
        ),
        contains_text(
            leef_record(e, c),
            "\taction="@ + escaped(Escaping::LeefValue, e.action@) + "\toutcome="@ + outcome_lower(e.outcome),
        ),
        contains_text(leef_record(e, c), "\texternalId="@ + e.id@),
        opt_view(e.src_ip) matches Some(v) ==> contains_text(
            leef_record(e, c),
            "\tsrc="@ + escaped(Escaping::LeefValue, v),
        ),
        opt_view(e.src_host) matches Some(v) ==> contains_text(
            leef_record(e, c),
            "\tsrcHostName="@ + escaped(Escaping::LeefValue, v),
        ),
        opt_view(e.src_user) matches Some(v) ==> contains_text(
            leef_record(e, c),
            "\tusrName="@ + escaped(Escaping::LeefValue, v),
        ),
        widen(e.src_port) matches Some(n) ==> contains_text(leef_record(e, c), "\tsrcPort="@ + dec(n as nat)),
        opt_view(e.dst_ip) matches Some(v) ==> contains_text(
            leef_record(e, c),
            "\tdst="@ + escaped(Escaping::LeefValue, v),
        ),
        opt_view(e.dst_host) matches Some(v) ==> contains_text(
            leef_record(e, c),
            "\tdstHostName="@ + escaped(Escaping::LeefValue, v),
        ),
        opt_view(e.http_method) matches Some(v) ==> contains_text(
            leef_record(e, c),
            "\thttpMethod="@ + escaped(Escaping::LeefValue, v),
        ),
        opt_view(e.url) matches Some(v) ==> contains_text(
            leef_record(e, c),
            "\turl="@ + escaped(Escaping::LeefValue, v),
        ),
        opt_view(e.user_agent) matches Some(v) ==> contains_text(
            leef_record(e, c),
            "\tuserAgent="@ + escaped(Escaping::LeefValue, v),
        ),
        opt_view(e.protocol) matches Some(v) ==> contains_text(
            leef_record(e, c),
            "\tproto="@ + escaped(Escaping::LeefValue, v),
        ),
        widen(e.dst_port) matches Some(n) ==> contains_text(leef_record(e, c), "\tdstPort="@ + dec(n as nat)),
        widen(e.http_status) matches Some(n) ==> contains_text(leef_record(e, c), "\thttpStatusCode="@ + dec(n as nat)),
        e.bytes matches Some(n) ==> contains_text(leef_record(e, c), "\tbytesOut="@ + dec(n as nat)),
        opt_view(e.message) matches Some(v) ==> contains_text(
            leef_record(e, c),
            "\tmsg="@ + escaped(Escaping::LeefValue, v),
        ),
        opt_view(e.resource_type) matches Some(v) ==> contains_text(
            leef_record(e, c),
            "\tresourceType="@ + escaped(Escaping::LeefValue, v),
        ),
        opt_view(e.resource_id) matches Some(v) ==> contains_text(
            leef_record(e, c),
            "\tresourceId="@ + escaped(Escaping::LeefValue, v),
        ),
        opt_view(e.application) matches Some(v) ==> contains_text(
            leef_record(e, c),
            "\tapplication="@ + escaped(Escaping::LeefValue, v),
        ),
        opt_view(e.service) matches Some(v) ==> contains_text(
            leef_record(e, c),
            "\tservice="@ + escaped(Escaping::LeefValue, v),
        ),
        opt_view(e.file_path) matches Some(v) ==> contains_text(
            leef_record(e, c),
            "\tfileName="@ + escaped(Escaping::LeefValue, v),
        ),
        opt_view(e.file_hash) matches Some(v) ==> contains_text(
            leef_record(e, c),
            "\tfileHash="@ + escaped(Escaping::LeefValue, v),
        ),
        opt_view(e.error_message) matches Some(v) ==> contains_text(
            leef_record(e, c),
            "\terrorMsg="@ + escaped(Escaping::LeefValue, v),
        ),
        opt_view(e.error_code) matches Some(v) ==> contains_text(
            leef_record(e, c),
            "\terrorCode="@ + escaped(Escaping::LeefValue, v),
        ),
        e.file_size matches Some(n) ==> contains_text(leef_record(e, c), "\tfileSize="@ + dec(n as nat)),
        e.duration_ms matches Some(n) ==> contains_text(leef_record(e, c), "\tduration="@ + dec(n as nat)),
{
    let r = leef_record(e, c);
    lemma_leef_parts(e, c);
    lemma_leef_source_fields(e);
    lemma_leef_network_fields(e);
    lemma_leef_activity_fields(e);
    lemma_leef_detail_fields(e);
    lemma_contains_trans(r, leef_source_part(e), "\tsev="@ + dec(spec_cef_severity(e.severity) as nat));
    lemma_contains_trans(
        r,
        leef_activity_part(e),
        "\taction="@ + escaped(Escaping::LeefValue, e.action@) + "\toutcome="@ + outcome_lower(e.outcome),
    );
    lemma_contains_trans(r, leef_detail_part(e), "\texternalId="@ + e.id@);
    lemma_leef_metadata_has_entries(e.metadata@);
    assert forall|i: int| 0 <= i < e.metadata@.len() implies contains_text(
        r,
        #[trigger] leef_meta_attribute(e.metadata@[i]),
    ) by {
        lemma_contains_trans(r, leef_metadata_part(e.metadata@), leef_meta_attribute(e.metadata@[i]));
    }
    if let Some(v) = opt_view(e.src_ip) {
        lemma_contains_trans(r, leef_source_part(e), "\tsrc="@ + escaped(Escaping::LeefValue, v));
    }
    if let Some(v) = opt_view(e.src_host) {
        lemma_contains_trans(r, leef_source_part(e), "\tsrcHostName="@ + escaped(Escaping::LeefValue, v));
    }
    if let Some(v) = opt_view(e.src_user) {
        lemma_contains_trans(r, leef_source_part(e), "\tusrName="@ + escaped(Escaping::LeefValue, v));
    }
    if let Some(n) = widen(e.src_port) {
        lemma_contains_trans(r, leef_source_part(e), "\tsrcPort="@ + dec(n as nat));
    }
    if let Some(v) = opt_view(e.dst_ip) {
        lemma_contains_trans(r, leef_network_part(e), "\tdst="@ + escaped(Escaping::LeefValue, v));
    }
    if let Some(v) = opt_view(e.dst_host) {
        lemma_contains_trans(r, leef_network_part(e), "\tdstHostName="@ + escaped(Escaping::LeefValue, v));
    }
    if let Some(v) = opt_view(e.http_method) {
        lemma_contains_trans(r, leef_network_part(e), "\thttpMethod="@ + escaped(Escaping::LeefValue, v));
    }
    if let Some(v) = opt_view(e.url) {
        lemma_contains_trans(r, leef_network_part(e), "\turl="@ + escaped(Escaping::LeefValue, v));
    }
    if let Some(v) = opt_view(e.user_agent) {
        lemma_contains_trans(r, leef_network_part(e), "\tuserAgent="@ + escaped(Escaping::LeefValue, v));
    }
    if let Some(v) = opt_view(e.protocol) {
        lemma_contains_trans(r, leef_network_part(e), "\tproto="@ + escaped(Escaping::LeefValue, v));
    }
    if let Some(n) = widen(e.dst_port) {
        lemma_contains_trans(r, leef_network_part(e), "\tdstPort="@ + dec(n as nat));
    }
    if let Some(n) = widen(e.http_status) {
        lemma_contains_trans(r, leef_network_part(e), "\thttpStatusCode="@ + dec(n as nat));
    }
    if let Some(n) = e.bytes {
        lemma_contains_trans(r, leef_network_part(e), "\tbytesOut="@ + dec(n as nat));
    }
    if let Some(v) = opt_view(e.message) {
        lemma_contains_trans(r, leef_activity_part(e), "\tmsg="@ + escaped(Escaping::LeefValue, v));
    }
    if let Some(v) = opt_view(e.resource_type) {
        lemma_contains_trans(r, leef_activity_part(e), "\tresourceType="@ + escaped(Escaping::LeefValue, v));
    }
    if let Some(v) = opt_view(e.resource_id) {
        lemma_contains_trans(r, leef_activity_part(e), "\tresourceId="@ + escaped(Escaping::LeefValue, v));
    }
    if let Some(v) = opt_view(e.application) {
        lemma_contains_trans(r, leef_activity_part(e), "\tapplication="@ + escaped(Escaping::LeefValue, v));
    }
    if let Some(v) = opt_view(e.service) {
        lemma_contains_trans(r, leef_activity_part(e), "\tservice="@ + escaped(Escaping::LeefValue, v));
    }
    if let Some(v) = opt_view(e.file_path) {
        lemma_contains_trans(r, leef_detail_part(e), "\tfileName="@ + escaped(Escaping::LeefValue, v));
    }
    if let Some(v) = opt_view(e.file_hash) {
        lemma_contains_trans(r, leef_detail_part(e), "\tfileHash="@ + escaped(Escaping::LeefValue, v));
    }
    if let Some(v) = opt_view(e.error_message) {
        lemma_contains_trans(r, leef_detail_part(e), "\terrorMsg="@ + escaped(Escaping::LeefValue, v));
    }
    if let Some(v) = opt_view(e.error_code) {
        lemma_contains_trans(r, leef_detail_part(e), "\terrorCode="@ + escaped(Escaping::LeefValue, v));
    }
    if let Some(n) = e.file_size {
        lemma_contains_trans(r, leef_detail_part(e), "\tfileSize="@ + dec(n as nat));
    }
    if let Some(n) = e.duration_ms {
        lemma_contains_trans(r, leef_detail_part(e), "\tduration="@ + dec(n as nat));
    }
}

impl LeefFormatter {
    /// Escape special characters in LEEF header fields
    pub fn escape_header(s: &str) -> (r: String)
        ensures
            r@ == escaped(Escaping::LeefHeader, s@),
    {
        escape(Escaping::LeefHeader, s)
    }

    /// Escape special characters in LEEF attribute values
    pub fn escape_value(s: &str) -> (r: String)
        ensures
            r@ == escaped(Escaping::LeefValue, s@),
    {
        escape(Escaping::LeefValue, s)
    }

    fn push_source_part(out: &mut String, e: &SiemEvent)
        ensures
            final(out)@ == old(out)@ + leef_source_part(*e),
    {
        let ghost before = out@;
        push_str(out, "devTime=");
        let t = e.timestamp.to_rfc3339();
        out.append(t.as_str());
        push_str(out, "\tsev=");
        push_u64(out, e.severity.as_cef_severity() as u64);
        push_str(out, "\tcat=");
        push_str(out, e.category.as_str());
        push_opt_escaped(out, "\tsrc=", Escaping::LeefValue, &e.src_ip);
        push_opt_dec(out, "\tsrcPort=", widen_u16(e.src_port));
        push_opt_escaped(out, "\tsrcHostName=", Escaping::LeefValue, &e.src_host);
        push_opt_escaped(out, "\tusrName=", Escaping::LeefValue, &e.src_user);
        assert(out@ =~= before + leef_source_part(*e));
    }

    fn push_network_part(out: &mut String, e: &SiemEvent)
        ensures
            final(out)@ == old(out)@ + leef_network_part(*e),
    {
        let ghost before = out@;
        push_opt_escaped(out, "\tdst=", Escaping::LeefValue, &e.dst_ip);
        push_opt_dec(out, "\tdstPort=", widen_u16(e.dst_port));
        push_opt_escaped(out, "\tdstHostName=", Escaping::LeefValue, &e.dst_host);
        push_opt_escaped(out, "\thttpMethod=", Escaping::LeefValue, &e.http_method);
        push_opt_escaped(out, "\turl=", Escaping::LeefValue, &e.url);
        push_opt_escaped(out, "\tuserAgent=", Escaping::LeefValue, &e.user_agent);
        push_opt_dec(out, "\thttpStatusCode=", widen_u16(e.http_status));
        push_opt_escaped(out, "\tproto=", Escaping::LeefValue, &e.protocol);
        push_opt_dec(out, "\tbytesOut=", e.bytes);
        assert(out@ =~= before + leef_network_part(*e));
    }

    fn push_activity_part(out: &mut String, e: &SiemEvent)
        ensures
            final(out)@ == old(out)@ + leef_activity_part(*e),
    {
        let ghost before = out@;
        push_str(out, "\taction=");
        push_escaped(out, Escaping::LeefValue, e.action.as_str());
        push_str(out, "\toutcome=");
        push_str(out, e.outcome.as_lower_str());
        push_opt_escaped(out, "\tmsg=", Escaping::LeefValue, &e.message);
        push_opt_escaped(out, "\tresourceType=", Escaping::LeefValue, &e.resource_type);
        push_opt_escaped(out, "\tresourceId=", Escaping::LeefValue, &e.resource_id);
        push_opt_escaped(out, "\tapplication=", Escaping::LeefValue, &e.application);
        push_opt_escaped(out, "\tservice=", Escaping::LeefValue, &e.service);
        assert(out@ =~= before + leef_activity_part(*e));
    }

    fn push_detail_part(out: &mut String, e: &SiemEvent)
        ensures
            final(out)@ == old(out)@ + leef_detail_part(*e),
    {
        let ghost before = out@;
        push_opt_escaped(out, "\tfileName=", Escaping::LeefValue, &e.file_path);
        push_opt_escaped(out, "\tfileHash=", Escaping::LeefValue, &e.file_hash);
        push_opt_dec(out, "\tfileSize=", e.file_size);
        push_opt_escaped(out, "\terrorMsg=", Escaping::LeefValue, &e.error_message);
        push_opt_escaped(out, "\terrorCode=", Escaping::LeefValue, &e.error_code);
        push_opt_dec(out, "\tduration=", e.duration_ms);
        push_str(out, "\texternalId=");
        push_str(out, e.id.as_str());
        assert(out@ =~= before + leef_detail_part(*e));
    }

    fn push_metadata_part(out: &mut String, m: &Metadata)
        ensures
            final(out)@ == old(out)@ + leef_metadata_part(m@),
    {
        let ghost before = out@;
        let n = m.len();
        let mut i: usize = 0;
        assert(m@.take(0) =~= Seq::<MetaEntry>::empty());
        while i < n
            invariant
                n == m@.len(),
                i <= n,
                out@ == before + leef_metadata_part(m@.take(i as int)),
            decreases n - i,
        {
            let (k, v) = m.entry(i);
            assert(m@.take(i + 1).drop_last() =~= m@.take(i as int));
            assert(m@.take(i + 1).last() == m@[i as int]);
            push_str(out, "\t");
            push_escaped(out, Escaping::LeefValue, k.as_str());
            push_str(out, "=");
            push_escaped(out, Escaping::LeefValue, v.text.as_str());
            assert(out@ =~= before + leef_metadata_part(m@.take(i + 1)));
            i = i + 1;
        }
        assert(m@.take(n as int) =~= m@);
    }

    /// Build the LEEF attributes string (tab-delimited key=value pairs)
    fn build_attributes(event: &SiemEvent) -> (r: String)
        ensures
            r@ == leef_attributes(*event),
    {
        let mut out = String::new();
        Self::push_source_part(&mut out, event);
        Self::push_network_part(&mut out, event);
        Self::push_activity_part(&mut out, event);
        Self::push_detail_part(&mut out, event);
        Self::push_metadata_part(&mut out, &event.metadata);
        assert(out@ =~= leef_attributes(*event));
        out
    }

    /// Format an event as one LEEF record.
    pub fn format(&self, event: &SiemEvent, config: &SiemConfig) -> (r: Result<String, SiemError>)
        ensures
            r matches Ok(s) && s@ == leef_record(*event, *config),
    {
        let mut out = String::new();
        push_str(&mut out, "LEEF:2.0|");
        push_escaped(&mut out, Escaping::LeefHeader, config.cef_vendor.as_str());
        push_str(&mut out, "|");
        push_escaped(&mut out, Escaping::LeefHeader, config.cef_product.as_str());
        push_str(&mut out, "|");
        push_escaped(&mut out, Escaping::LeefHeader, config.cef_version.as_str());
        push_str(&mut out, "|");
        push_escaped(&mut out, Escaping::LeefHeader, event.event_type.as_str());
        push_str(&mut out, "|");
        let attrs = Self::build_attributes(event);
        out.append(attrs.as_str());
        assert(out@ =~= leef_record(*event, *config));
        Ok(out)
    }

    /// Content type for HTTP transport.
    pub fn content_type(&self) -> (r: &'static str)
        ensures
            r@ == "text/plain"@,
    {
        "text/plain"
    }
}

} // verus!
