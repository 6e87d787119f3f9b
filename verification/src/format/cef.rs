//! Common Event Format (CEF) formatter.
//!
//! CEF is used by ArcSight, Splunk, and other enterprise SIEMs.
//!
//! Format: `CEF:Version|Device Vendor|Device Product|Device Version|Signature ID|Name|Severity|Extension`

use vstd::prelude::*;
use crate::config::SiemConfig;
use crate::error::SiemError;
use crate::event::{category_text, opt_view, spec_cef_severity, EventOutcome, SiemEvent, SiemSeverity};
use crate::format::parts::{json_member, json_object, json_object_of, lemma_json_object_has_entries, opt_dec, opt_escaped, push_opt_dec, push_opt_escaped, push_str, widen, widen_u16};
use crate::metadata::{MetaEntry, MetaKind, MetaValueView, Metadata};
use crate::text::{contains_text, dec, dec_int, escape, escaped, lemma_contains_concat, lemma_contains_self, lemma_contains_trans, lemma_escaped_contains, push_escaped, push_i64, push_u64, spec_json_string, json_string, Escaping};

verus! {

/// CEF (Common Event Format) formatter.
///
/// Formats events according to the CEF specification:
/// `CEF:0|Vendor|Product|Version|SignatureID|Name|Severity|Extension`
#[derive(Debug, Clone, Copy)]
pub struct CefFormatter;

/// Highest `csN` custom string slot.
pub const CEF_MAX_CS: usize = 6;

/// Highest `cnN` custom number slot.
pub const CEF_MAX_CN: usize = 3;

/// Title-case outcome name used by CEF.
pub open spec fn outcome_title(o: EventOutcome) -> Seq<char> {
    match o {
        EventOutcome::Success => "Success"@,
        EventOutcome::Failure => "Failure"@,
        EventOutcome::Unknown => "Unknown"@,
    }
}

// ---------------------------------------------------------------------
// Metadata slots
// ---------------------------------------------------------------------

/// Where the metadata walk stands: the text emitted so far, the entries
/// that did not get a slot, and the next free `cs` and `cn` slot numbers.
pub struct CefSlots {
    pub text: Seq<char>,
    pub overflow: Seq<MetaEntry>,
    pub next_cs: nat,
    pub next_cn: nat,
}

/// Place one metadata entry: a number takes the next `cn` slot, anything
/// else the next `cs` slot; when the slots of its kind are used up, it goes
/// to the overflow.
pub open spec fn cef_slot_step(acc: CefSlots, entry: MetaEntry) -> CefSlots {
    let key = entry.0;
    let v = entry.1;
    if v.kind == MetaKind::Number && acc.next_cn <= 3 {
        CefSlots {
            text: acc.text + " cn"@ + dec(acc.next_cn) + "="@ + v.text + " cn"@ + dec(acc.next_cn)
                + "Label="@ + escaped(Escaping::CefExtension, key),
            next_cn: acc.next_cn + 1,
            ..acc
        }
    } else if v.kind != MetaKind::Number && acc.next_cs <= 6 {
        CefSlots {
            text: acc.text + " cs"@ + dec(acc.next_cs) + "="@ + escaped(Escaping::CefExtension, v.text)
                + " cs"@ + dec(acc.next_cs) + "Label="@ + escaped(Escaping::CefExtension, key),
            next_cs: acc.next_cs + 1,
            ..acc
        }
    } else {
        CefSlots { overflow: acc.overflow.push(entry), ..acc }
    }
}

/// The slot walk over entries in order, starting with `cs1` and `cn{cn_start}`.
pub open spec fn cef_slots(entries: Seq<MetaEntry>, cn_start: nat) -> CefSlots
    decreases entries.len(),
{
    if entries.len() == 0 {
        CefSlots { text: Seq::empty(), overflow: Seq::empty(), next_cs: 1, next_cn: cn_start }
    } else {
        cef_slot_step(cef_slots(entries.drop_last(), cn_start), entries.last())
    }
}

/// No metadata entry is lost or doubled: every entry either takes its own
/// slot (`cs1`..`cs6` for non-numbers, `cn{start}`..`cn3` for numbers) or
/// goes, once, to the overflow; an entry overflows only when every slot of
/// its kind is taken; and the overflow lists entries in their order.
pub proof fn lemma_cef_slots_account(entries: Seq<MetaEntry>, start: nat)
    requires
        start == 1 || start == 2,
    ensures
        ({
            let r = cef_slots(entries, start);
            &&& 1 <= r.next_cs <= 7
            &&& start <= r.next_cn <= 4
            &&& (r.next_cs - 1) + (r.next_cn - start) + r.overflow.len() == entries.len()
            &&& forall|i: int|
                0 <= i < r.overflow.len() ==> (if (#[trigger] r.overflow[i]).1.kind == MetaKind::Number {
                    r.next_cn == 4
                } else {
                    r.next_cs == 7
                })
            &&& r.overflow.len() <= entries.len()
            &&& forall|i: int| 0 <= i < r.overflow.len() ==> entries.contains(#[trigger] r.overflow[i])
        }),
    decreases entries.len(),
{
    if entries.len() > 0 {
        let init = entries.drop_last();
        lemma_cef_slots_account(init, start);
        let acc = cef_slots(init, start);
        let r = cef_slots(entries, start);
        assert forall|i: int| 0 <= i < r.overflow.len() implies entries.contains(
            #[trigger] r.overflow[i],
        ) by {
            if i < acc.overflow.len() {
                assert(r.overflow[i] == acc.overflow[i]);
                let j = choose|j: int| 0 <= j < init.len() && init[j] == acc.overflow[i];
                assert(entries[j] == init[j]);
            } else {
                assert(r.overflow[i] == entries.last());
                assert(entries[entries.len() - 1] == entries.last());
            }
        }
    }
}

/// Every event field that is set reaches the CEF record: its extension key
/// followed by the value as CEF-extension escaping writes it (which a
/// reader decodes back, by `lemma_unescape_escaped`).
pub proof fn lemma_cef_record_keeps_fields(e: SiemEvent, c: SiemConfig)
    ensures
        opt_view(e.message) matches Some(m) ==> contains_text(
            cef_record(e, c),
            " msg="@ + escaped(Escaping::CefExtension, m),
        ),
        opt_view(e.src_ip) matches Some(v) ==> contains_text(
            cef_record(e, c),
            " src="@ + escaped(Escaping::CefExtension, v),
        ),
        opt_view(e.src_host) matches Some(v) ==> contains_text(
            cef_record(e, c),
            " shost="@ + escaped(Escaping::CefExtension, v),
        ),
        opt_view(e.src_user) matches Some(v) ==> contains_text(
            cef_record(e, c),
            " suser="@ + escaped(Escaping::CefExtension, v),
        ),
        opt_view(e.src_process) matches Some(v) ==> contains_text(
            cef_record(e, c),
            " sproc="@ + escaped(Escaping::CefExtension, v),
        ),
        opt_view(e.dst_ip) matches Some(v) ==> contains_text(
            cef_record(e, c),
            " dst="@ + escaped(Escaping::CefExtension, v),
        ),
        opt_view(e.dst_host) matches Some(v) ==> contains_text(
            cef_record(e, c),
            " dhost="@ + escaped(Escaping::CefExtension, v),
        ),
        opt_view(e.dst_user) matches Some(v) ==> contains_text(
            cef_record(e, c),
            " duser="@ + escaped(Escaping::CefExtension, v),
        ),
        opt_view(e.http_method) matches Some(v) ==> contains_text(
            cef_record(e, c),
            " requestMethod="@ + escaped(Escaping::CefExtension, v),
        ),
        opt_view(e.url) matches Some(v) ==> contains_text(
            cef_record(e, c),
            " request="@ + escaped(Escaping::CefExtension, v),
        ),
        opt_view(e.user_agent) matches Some(v) ==> contains_text(
            cef_record(e, c),
            " requestClientApplication="@ + escaped(Escaping::CefExtension, v),
        ),
        opt_view(e.protocol) matches Some(v) ==> contains_text(
            cef_record(e, c),
            " proto="@ + escaped(Escaping::CefExtension, v),
        ),
        opt_view(e.file_path) matches Some(v) ==> contains_text(
            cef_record(e, c),
            " filePath="@ + escaped(Escaping::CefExtension, v),
        ),
        opt_view(e.file_hash) matches Some(v) ==> contains_text(
            cef_record(e, c),
            " fileHash="@ + escaped(Escaping::CefExtension, v),
        ),
        opt_view(e.application) matches Some(v) ==> contains_text(
            cef_record(e, c),
            " app="@ + escaped(Escaping::CefExtension, v),
        ),
        opt_view(e.error_message) matches Some(v) ==> contains_text(
            cef_record(e, c),
            " reason="@ + escaped(Escaping::CefExtension, v),
        ),
        e.src_port matches Some(p) ==> contains_text(cef_record(e, c), " spt="@ + dec(p as nat)),
        e.dst_port matches Some(p) ==> contains_text(cef_record(e, c), " dpt="@ + dec(p as nat)),
        e.http_status matches Some(s) ==> contains_text(
            cef_record(e, c),
            " cn1="@ + dec(s as nat) + " cn1Label=httpStatusCode"@,
        ),
        e.bytes matches Some(n) ==> contains_text(cef_record(e, c), " out="@ + dec(n as nat)),
        e.file_size matches Some(n) ==> contains_text(cef_record(e, c), " fsize="@ + dec(n as nat)),
        contains_text(cef_record(e, c), " externalId="@ + e.id@),
{
    broadcast use lemma_contains_concat;

    lemma_contains_self(opt_escaped(" msg="@, Escaping::CefExtension, opt_view(e.message)));
    lemma_contains_self(opt_escaped(" src="@, Escaping::CefExtension, opt_view(e.src_ip)));
    lemma_contains_self(opt_escaped(" shost="@, Escaping::CefExtension, opt_view(e.src_host)));
    lemma_contains_self(opt_escaped(" suser="@, Escaping::CefExtension, opt_view(e.src_user)));
    lemma_contains_self(opt_escaped(" sproc="@, Escaping::CefExtension, opt_view(e.src_process)));
    lemma_contains_self(opt_escaped(" dst="@, Escaping::CefExtension, opt_view(e.dst_ip)));
    lemma_contains_self(opt_escaped(" dhost="@, Escaping::CefExtension, opt_view(e.dst_host)));
    lemma_contains_self(opt_escaped(" duser="@, Escaping::CefExtension, opt_view(e.dst_user)));
    lemma_contains_self(opt_escaped(" requestMethod="@, Escaping::CefExtension, opt_view(e.http_method)));
    lemma_contains_self(opt_escaped(" request="@, Escaping::CefExtension, opt_view(e.url)));
    lemma_contains_self(
        opt_escaped(" requestClientApplication="@, Escaping::CefExtension, opt_view(e.user_agent)),
    );
    lemma_contains_self(opt_escaped(" proto="@, Escaping::CefExtension, opt_view(e.protocol)));
    lemma_contains_self(opt_escaped(" filePath="@, Escaping::CefExtension, opt_view(e.file_path)));
    lemma_contains_self(opt_escaped(" fileHash="@, Escaping::CefExtension, opt_view(e.file_hash)));
    lemma_contains_self(opt_escaped(" app="@, Escaping::CefExtension, opt_view(e.application)));
    lemma_contains_self(opt_escaped(" reason="@, Escaping::CefExtension, opt_view(e.error_message)));
    lemma_contains_self(opt_dec(" spt="@, widen(e.src_port)));
    lemma_contains_self(opt_dec(" dpt="@, widen(e.dst_port)));
    lemma_contains_self(opt_dec(" out="@, e.bytes));
    lemma_contains_self(opt_dec(" fsize="@, e.file_size));
    lemma_contains_self(" externalId="@ + e.id@);
    if let Some(s) = e.http_status {
        lemma_contains_self(" cn1="@ + dec(s as nat) + " cn1Label=httpStatusCode"@);
    }
}

/// The CEF header names the device (vendor, product, version) from the
/// configuration, and the event's type and action, each escaped for CEF
/// headers, and carries the severity on the 0-10 scale (unknown 0, low 3,
/// medium 5, high 8, critical 10).
pub proof fn lemma_cef_header_fields(e: SiemEvent, c: SiemConfig)
    ensures
        contains_text(
            cef_record(e, c),
            "CEF:0|"@ + escaped(Escaping::CefHeader, c.cef_vendor@) + "|"@ + escaped(
                Escaping::CefHeader,
                c.cef_product@,
            ) + "|"@ + escaped(Escaping::CefHeader, c.cef_version@) + "|"@ + escaped(
                Escaping::CefHeader,
                e.event_type@,
            ) + "|"@ + escaped(Escaping::CefHeader, e.action@) + "|"@ + dec(
                match e.severity {
                    SiemSeverity::Unknown => 0nat,
                    SiemSeverity::Low => 3nat,
                    SiemSeverity::Medium => 5nat,
                    SiemSeverity::High => 8nat,
                    SiemSeverity::Critical => 10nat,
                },
            ) + "|"@,
        ),
{
    broadcast use lemma_contains_concat;

    lemma_contains_self(cef_header(e, c));
}

/// The text a metadata entry gets in custom slot number `n`: a number goes
/// to `cn{n}` as written, anything else to `cs{n}` escaped; the label is
/// the escaped key.
pub open spec fn cef_slot_entry(entry: MetaEntry, n: nat) -> Seq<char> {
    if entry.1.kind == MetaKind::Number {
        " cn"@ + dec(n) + "="@ + entry.1.text + " cn"@ + dec(n) + "Label="@ + escaped(
            Escaping::CefExtension,
            entry.0,
        )
    } else {
        " cs"@ + dec(n) + "="@ + escaped(Escaping::CefExtension, entry.1.text) + " cs"@ + dec(n)
            + "Label="@ + escaped(Escaping::CefExtension, entry.0)
    }
}

/// `text` holds the entry in a custom slot of its kind: one of `cs1`..`cs6`
/// for a non-number, one of `cn{start}`..`cn3` for a number.
pub open spec fn in_cef_slot(text: Seq<char>, entry: MetaEntry, start: nat) -> bool {
    exists|n: nat|
        (if entry.1.kind == MetaKind::Number {
            start <= n <= 3
        } else {
            1 <= n <= 6
        }) && #[trigger] contains_text(text, cef_slot_entry(entry, n))
}

proof fn lemma_cef_step_keeps(acc: CefSlots, entry: MetaEntry, x: MetaEntry, start: nat)
    requires
        in_cef_slot(acc.text, x, start) || acc.overflow.contains(x),
    ensures
        in_cef_slot(cef_slot_step(acc, entry).text, x, start) || cef_slot_step(acc, entry).overflow.contains(x),
{
    let r = cef_slot_step(acc, entry);
    let suffix = r.text.subrange(acc.text.len() as int, r.text.len() as int);
    assert(r.text =~= acc.text + suffix);
    if in_cef_slot(acc.text, x, start) {
        let m = choose|m: nat|
            (if x.1.kind == MetaKind::Number {
                start <= m <= 3
            } else {
                1 <= m <= 6
            }) && #[trigger] contains_text(acc.text, cef_slot_entry(x, m));
        lemma_contains_concat(acc.text, suffix, cef_slot_entry(x, m));
        assert(contains_text(r.text, cef_slot_entry(x, m)));
    } else {
        let k = choose|k: int| 0 <= k < acc.overflow.len() && acc.overflow[k] == x;
        assert(r.overflow[k] == x);
    }
}

proof fn lemma_cef_step_places(acc: CefSlots, entry: MetaEntry, start: nat)
    requires
        1 <= acc.next_cs,
        start <= acc.next_cn,
    ensures
        in_cef_slot(cef_slot_step(acc, entry).text, entry, start) || cef_slot_step(acc, entry).overflow.contains(
            entry,
        ),
{
    let r = cef_slot_step(acc, entry);
    if entry.1.kind == MetaKind::Number && acc.next_cn <= 3 {
        let n = acc.next_cn;
        assert(r.text =~= acc.text + cef_slot_entry(entry, n));
        lemma_contains_self(cef_slot_entry(entry, n));
        lemma_contains_concat(acc.text, cef_slot_entry(entry, n), cef_slot_entry(entry, n));
        assert(contains_text(r.text, cef_slot_entry(entry, n)));
    } else if entry.1.kind != MetaKind::Number && acc.next_cs <= 6 {
        let n = acc.next_cs;
        assert(r.text =~= acc.text + cef_slot_entry(entry, n));
        lemma_contains_self(cef_slot_entry(entry, n));
        lemma_contains_concat(acc.text, cef_slot_entry(entry, n), cef_slot_entry(entry, n));
        assert(contains_text(r.text, cef_slot_entry(entry, n)));
    } else {
        assert(r.overflow[r.overflow.len() - 1] == entry);
    }
}

/// The slot walk places every entry: in a slot of its kind, or in the overflow.
pub proof fn lemma_cef_slots_place(entries: Seq<MetaEntry>, start: nat)
    requires
        start == 1 || start == 2,
    ensures
        forall|i: int|
            0 <= i < entries.len() ==> in_cef_slot(cef_slots(entries, start).text, #[trigger] entries[i], start)
                || cef_slots(entries, start).overflow.contains(entries[i]),
    decreases entries.len(),
{
    if entries.len() > 0 {
        let init = entries.drop_last();
        let last = entries.last();
        lemma_cef_slots_place(init, start);
        lemma_cef_slots_account(init, start);
        let acc = cef_slots(init, start);
        assert(cef_slots(entries, start) == cef_slot_step(acc, last));
        assert forall|i: int| 0 <= i < entries.len() implies in_cef_slot(
            cef_slots(entries, start).text,
            #[trigger] entries[i],
            start,
        ) || cef_slots(entries, start).overflow.contains(entries[i]) by {
            if i < entries.len() - 1 {
                assert(entries[i] == init[i]);
                lemma_cef_step_keeps(acc, last, entries[i], start);
            } else {
                lemma_cef_step_places(acc, last, start);
            }
        }
    }
}

/// No metadata entry is dropped from a CEF record: each sits in a custom
/// slot of its kind (`cs1`..`cs6` for non-numbers, numbers from `cn2` when
/// `cn1` carries the HTTP status, else from `cn1`, up to `cn3`), or, when
/// the slots of its kind are used up, as a member of the escaped JSON
/// object after `additionalMetadata=`.
pub proof fn lemma_cef_record_keeps_metadata(e: SiemEvent, c: SiemConfig)
    ensures
        forall|i: int|
            0 <= i < e.metadata@.len() ==> in_cef_slot(cef_record(e, c), #[trigger] e.metadata@[i], cn_start(e))
                || contains_text(
                cef_record(e, c),
                escaped(Escaping::CefExtension, json_member(e.metadata@[i])),
            ),
{
    broadcast use lemma_contains_concat;

    let entries = e.metadata@;
    let start = cn_start(e);
    let slots = cef_slots(entries, start);
    let r = cef_record(e, c);
    lemma_cef_slots_place(entries, start);
    lemma_contains_self(slots.text);
    assert(contains_text(r, slots.text));
    let extra = " additionalMetadata="@ + escaped(Escaping::CefExtension, json_object(slots.overflow));
    if slots.overflow.len() > 0 {
        lemma_contains_self(extra);
        assert(contains_text(r, extra));
        lemma_contains_concat(" additionalMetadata="@, escaped(Escaping::CefExtension, json_object(slots.overflow)), escaped(Escaping::CefExtension, json_object(slots.overflow)));
        lemma_contains_self(escaped(Escaping::CefExtension, json_object(slots.overflow)));
        lemma_contains_trans(r, extra, escaped(Escaping::CefExtension, json_object(slots.overflow)));
        lemma_json_object_has_entries(slots.overflow);
    }
    assert forall|i: int| 0 <= i < entries.len() implies in_cef_slot(r, #[trigger] entries[i], start)
        || contains_text(r, escaped(Escaping::CefExtension, json_member(entries[i]))) by {
        if in_cef_slot(slots.text, entries[i], start) {
            let m = choose|m: nat|
                (if entries[i].1.kind == MetaKind::Number {
                    start <= m <= 3
                } else {
                    1 <= m <= 6
                }) && #[trigger] contains_text(slots.text, cef_slot_entry(entries[i], m));
            lemma_contains_trans(r, slots.text, cef_slot_entry(entries[i], m));
        } else {
            let k = choose|k: int| 0 <= k < slots.overflow.len() && slots.overflow[k] == entries[i];
            let obj = json_object(slots.overflow);
            assert(contains_text(obj, json_member(slots.overflow[k])));
            lemma_escaped_contains(Escaping::CefExtension, obj, json_member(entries[i]));
            lemma_contains_trans(
                r,
                escaped(Escaping::CefExtension, obj),
                escaped(Escaping::CefExtension, json_member(entries[i])),
            );
        }
    }
}

/// The first `cn` slot free for metadata: `cn1` carries the HTTP status when there is one.
pub open spec fn cn_start(e: SiemEvent) -> nat {
    if e.http_status is Some {
        2
    } else {
        1
    }
}

/// Metadata part of the extension: the slotted entries, then the
/// overflow object under `additionalMetadata` when anything overflowed.
pub open spec fn cef_metadata_part(e: SiemEvent) -> Seq<char> {
    let slots = cef_slots(e.metadata@, cn_start(e));
    slots.text + if slots.overflow.len() > 0 {
        " additionalMetadata="@ + escaped(Escaping::CefExtension, json_object(slots.overflow))
    } else {
        Seq::empty()
    }
}

// ---------------------------------------------------------------------
// Extension fields
// ---------------------------------------------------------------------

/// Receipt time and source fields.
pub open spec fn cef_source_part(e: SiemEvent) -> Seq<char> {
    "rt="@ + dec_int(e.timestamp@.0 * 1000 + e.timestamp@.1 / 1_000_000)
        + opt_escaped(" src="@, Escaping::CefExtension, opt_view(e.src_ip))
        + opt_dec(" spt="@, widen(e.src_port))
        + opt_escaped(" shost="@, Escaping::CefExtension, opt_view(e.src_host))
        + opt_escaped(" suser="@, Escaping::CefExtension, opt_view(e.src_user))
        + opt_escaped(" sproc="@, Escaping::CefExtension, opt_view(e.src_process))
}

/// Destination fields.
pub open spec fn cef_destination_part(e: SiemEvent) -> Seq<char> {
    opt_escaped(" dst="@, Escaping::CefExtension, opt_view(e.dst_ip))
        + opt_dec(" dpt="@, widen(e.dst_port))
        + opt_escaped(" dhost="@, Escaping::CefExtension, opt_view(e.dst_host))
        + opt_escaped(" duser="@, Escaping::CefExtension, opt_view(e.dst_user))
}

/// HTTP request fields; the status goes to `cn1` with its label.
pub open spec fn cef_http_part(e: SiemEvent) -> Seq<char> {
    opt_escaped(" requestMethod="@, Escaping::CefExtension, opt_view(e.http_method))
        + opt_escaped(" request="@, Escaping::CefExtension, opt_view(e.url))
        + opt_escaped(" requestClientApplication="@, Escaping::CefExtension, opt_view(e.user_agent))
        + match e.http_status {
            Some(s) => " cn1="@ + dec(s as nat) + " cn1Label=httpStatusCode"@,
            None => Seq::empty(),
        }
}

/// Bytes, message, protocol, file, application and error fields.
pub open spec fn cef_detail_part(e: SiemEvent) -> Seq<char> {
    opt_dec(" out="@, e.bytes)
        + opt_escaped(" msg="@, Escaping::CefExtension, opt_view(e.message))
        + opt_escaped(" proto="@, Escaping::CefExtension, opt_view(e.protocol))
        + opt_escaped(" filePath="@, Escaping::CefExtension, opt_view(e.file_path))
        + opt_escaped(" fileHash="@, Escaping::CefExtension, opt_view(e.file_hash))
        + opt_dec(" fsize="@, e.file_size)
        + opt_escaped(" app="@, Escaping::CefExtension, opt_view(e.application))
        + opt_escaped(" reason="@, Escaping::CefExtension, opt_view(e.error_message))
}

/// Event id, outcome and category.
pub open spec fn cef_identity_part(e: SiemEvent) -> Seq<char> {
    " externalId="@ + e.id@ + " outcome="@ + outcome_title(e.outcome) + " cat="@ + category_text(
        e.category,
    )
}

/// The whole extension: space-separated `key=value` pairs.
pub open spec fn cef_extension(e: SiemEvent) -> Seq<char> {
    cef_source_part(e) + cef_destination_part(e) + cef_http_part(e) + cef_detail_part(e)
        + cef_identity_part(e) + cef_metadata_part(e)
}

/// The header up to and including the `|` before the extension.
pub open spec fn cef_header(e: SiemEvent, c: SiemConfig) -> Seq<char> {
    "CEF:0|"@ + escaped(Escaping::CefHeader, c.cef_vendor@) + "|"@ + escaped(
        Escaping::CefHeader,
        c.cef_product@,
    ) + "|"@ + escaped(Escaping::CefHeader, c.cef_version@) + "|"@ + escaped(
        Escaping::CefHeader,
        e.event_type@,
    ) + "|"@ + escaped(Escaping::CefHeader, e.action@) + "|"@ + dec(spec_cef_severity(e.severity) as nat)
        + "|"@
}

/// A complete CEF record for the event.
pub open spec fn cef_record(e: SiemEvent, c: SiemConfig) -> Seq<char> {
    cef_header(e, c) + cef_extension(e)
}

impl CefFormatter {
    /// Escape special characters in CEF header fields
    pub fn escape_header(s: &str) -> (r: String)
        ensures
            r@ == escaped(Escaping::CefHeader, s@),
    {
        escape(Escaping::CefHeader, s)
    }

    /// Escape special characters in CEF extension values
    pub fn escape_extension(s: &str) -> (r: String)
        ensures
            r@ == escaped(Escaping::CefExtension, s@),
    {
        escape(Escaping::CefExtension, s)
    }

    fn push_source_part(out: &mut String, e: &SiemEvent)
        ensures
            final(out)@ == old(out)@ + cef_source_part(*e),
    {
        let ghost before = out@;
        push_str(out, "rt=");
        push_i64(out, e.timestamp.timestamp_millis());
        push_opt_escaped(out, " src=", Escaping::CefExtension, &e.src_ip);
        push_opt_dec(out, " spt=", widen_u16(e.src_port));
        push_opt_escaped(out, " shost=", Escaping::CefExtension, &e.src_host);
        push_opt_escaped(out, " suser=", Escaping::CefExtension, &e.src_user);
        push_opt_escaped(out, " sproc=", Escaping::CefExtension, &e.src_process);
        assert(out@ =~= before + cef_source_part(*e));
    }

    fn push_destination_part(out: &mut String, e: &SiemEvent)
        ensures
            final(out)@ == old(out)@ + cef_destination_part(*e),
    {
        let ghost before = out@;
        push_opt_escaped(out, " dst=", Escaping::CefExtension, &e.dst_ip);
        push_opt_dec(out, " dpt=", widen_u16(e.dst_port));
        push_opt_escaped(out, " dhost=", Escaping::CefExtension, &e.dst_host);
        push_opt_escaped(out, " duser=", Escaping::CefExtension, &e.dst_user);
        assert(out@ =~= before + cef_destination_part(*e));
    }

    fn push_http_part(out: &mut String, e: &SiemEvent)
        ensures
            final(out)@ == old(out)@ + cef_http_part(*e),
    {
        let ghost before = out@;
        push_opt_escaped(out, " requestMethod=", Escaping::CefExtension, &e.http_method);
        push_opt_escaped(out, " request=", Escaping::CefExtension, &e.url);
        push_opt_escaped(out, " requestClientApplication=", Escaping::CefExtension, &e.user_agent);
        let ghost mid = out@;
        match e.http_status {
            Some(s) => {
                push_str(out, " cn1=");
                push_u64(out, s as u64);
                push_str(out, " cn1Label=httpStatusCode");
            },
            None => {},
        }
        assert(out@ =~= before + cef_http_part(*e));
    }

    fn push_detail_part(out: &mut String, e: &SiemEvent)
        ensures
            final(out)@ == old(out)@ + cef_detail_part(*e),
    {
        let ghost before = out@;
        push_opt_dec(out, " out=", e.bytes);
        push_opt_escaped(out, " msg=", Escaping::CefExtension, &e.message);
        push_opt_escaped(out, " proto=", Escaping::CefExtension, &e.protocol);
        push_opt_escaped(out, " filePath=", Escaping::CefExtension, &e.file_path);
        push_opt_escaped(out, " fileHash=", Escaping::CefExtension, &e.file_hash);
        push_opt_dec(out, " fsize=", e.file_size);
        push_opt_escaped(out, " app=", Escaping::CefExtension, &e.application);
        push_opt_escaped(out, " reason=", Escaping::CefExtension, &e.error_message);
        assert(out@ =~= before + cef_detail_part(*e));
    }

    fn push_identity_part(out: &mut String, e: &SiemEvent)
        ensures
            final(out)@ == old(out)@ + cef_identity_part(*e),
    {
        let ghost before = out@;
        push_str(out, " externalId=");
        push_str(out, e.id.as_str());
        push_str(out, " outcome=");
        let o = match e.outcome {
            EventOutcome::Success => "Success",
            EventOutcome::Failure => "Failure",
            EventOutcome::Unknown => "Unknown",
        };
        push_str(out, o);
        push_str(out, " cat=");
        push_str(out, e.category.as_str());
        assert(out@ =~= before + cef_identity_part(*e));
    }

    /// Walk the metadata in key order, filling `cs`/`cn` slots; returns the
    /// slot text and the positions of the entries that overflowed.
    fn metadata_slots(m: &Metadata, cn_first: usize) -> (r: (String, Vec<usize>))
        requires
            cn_first == 1 || cn_first == 2,
        ensures
            r.0@ == cef_slots(m@, cn_first as nat).text,
            forall|k: int| 0 <= k < r.1@.len() ==> #[trigger] r.1@[k] < m@.len(),
            Seq::new(r.1@.len(), |k: int| m@[r.1@[k] as int]) == cef_slots(m@, cn_first as nat).overflow,
    {
        let mut text = String::new();
        let mut positions: Vec<usize> = Vec::new();
        let mut next_cs: usize = 1;
        let mut next_cn: usize = cn_first;
        let n = m.len();
        let mut i: usize = 0;
        assert(m@.take(0) =~= Seq::<MetaEntry>::empty());
        assert(Seq::new(positions@.len(), |k: int| m@[positions@[k] as int]) =~= Seq::<MetaEntry>::empty());
        assert(text@ =~= Seq::<char>::empty());
        while i < n
            invariant
                n == m@.len(),
                i <= n,
                next_cs <= 7,
                next_cn <= 4,
                forall|k: int| 0 <= k < positions@.len() ==> #[trigger] positions@[k] < i,
                cef_slots(m@.take(i as int), cn_first as nat) == (CefSlots {
                    text: text@,
                    overflow: Seq::new(positions@.len(), |k: int| m@[positions@[k] as int]),
                    next_cs: next_cs as nat,
                    next_cn: next_cn as nat,
                }),
            decreases n - i,
        {
            let (key, value) = m.entry(i);
            let ghost acc = cef_slots(m@.take(i as int), cn_first as nat);
            let ghost prev_text = text@;
            let ghost prev_pos = positions@;
            assert(m@.take(i + 1).drop_last() =~= m@.take(i as int));
            assert(m@.take(i + 1).last() == m@[i as int]);
            let is_num = value.is_number();
            if is_num && next_cn <= CEF_MAX_CN {
                push_str(&mut text, " cn");
                push_u64(&mut text, next_cn as u64);
                push_str(&mut text, "=");
                push_str(&mut text, value.text.as_str());
                push_str(&mut text, " cn");
                push_u64(&mut text, next_cn as u64);
                push_str(&mut text, "Label=");
                push_escaped(&mut text, Escaping::CefExtension, key.as_str());
                next_cn = next_cn + 1;
                assert(text@ =~= cef_slot_step(acc, m@[i as int]).text);
            } else if !is_num && next_cs <= CEF_MAX_CS {
                push_str(&mut text, " cs");
                push_u64(&mut text, next_cs as u64);
                push_str(&mut text, "=");
                push_escaped(&mut text, Escaping::CefExtension, value.text.as_str());
                push_str(&mut text, " cs");
                push_u64(&mut text, next_cs as u64);
                push_str(&mut text, "Label=");
                push_escaped(&mut text, Escaping::CefExtension, key.as_str());
                next_cs = next_cs + 1;
                assert(text@ =~= cef_slot_step(acc, m@[i as int]).text);
            } else {
                positions.push(i);
                assert(Seq::new(positions@.len(), |k: int| m@[positions@[k] as int]) =~= acc.overflow.push(
                    m@[i as int],
                ));
            }
            i = i + 1;
        }
        assert(m@.take(n as int) =~= m@);
        (text, positions)
    }

    /// Build the CEF extension string.
    fn build_extension(event: &SiemEvent) -> (r: String)
        ensures
            r@ == cef_extension(*event),
    {
        let mut out = String::new();
        Self::push_source_part(&mut out, event);
        Self::push_destination_part(&mut out, event);
        Self::push_http_part(&mut out, event);
        Self::push_detail_part(&mut out, event);
        Self::push_identity_part(&mut out, event);
        let cn_first: usize = if event.http_status.is_some() { 2 } else { 1 };
        let (slot_text, positions) = Self::metadata_slots(&event.metadata, cn_first);
        let ghost before_meta = out@;
        out.append(slot_text.as_str());
        if positions.len() > 0 {
            let obj = json_object_of(&event.metadata, &positions);
            push_str(&mut out, " additionalMetadata=");
            push_escaped(&mut out, Escaping::CefExtension, obj.as_str());
        }
        assert(out@ =~= cef_extension(*event));
        out
    }

    /// Format an event as one CEF record.
    pub fn format(&self, event: &SiemEvent, config: &SiemConfig) -> (r: Result<String, SiemError>)
        ensures
            r matches Ok(s) && s@ == cef_record(*event, *config),
    {
        let mut out = String::new();
        push_str(&mut out, "CEF:0|");
        push_escaped(&mut out, Escaping::CefHeader, config.cef_vendor.as_str());
        push_str(&mut out, "|");
        push_escaped(&mut out, Escaping::CefHeader, config.cef_product.as_str());
        push_str(&mut out, "|");
        push_escaped(&mut out, Escaping::CefHeader, config.cef_version.as_str());
        push_str(&mut out, "|");
        push_escaped(&mut out, Escaping::CefHeader, event.event_type.as_str());
        push_str(&mut out, "|");
        push_escaped(&mut out, Escaping::CefHeader, event.action.as_str());
        push_str(&mut out, "|");
        push_u64(&mut out, event.severity.as_cef_severity() as u64);
        push_str(&mut out, "|");
        assert(out@ =~= cef_header(*event, *config));
        let ext = Self::build_extension(event);
        out.append(ext.as_str());
        Ok(out)
    }

    /// Content type for HTTP transport.
    pub fn content_type(&self) -> (r: &'static str)
        ensures
            r@ == "text/plain"@,
    {
        "text/plain"
    }
}

} // verus!
