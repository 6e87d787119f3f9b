//! Pieces that the formatters assemble: optional `key=value` fields,
//! decimal numbers, and line joining.

use vstd::prelude::*;
use crate::event::opt_view;
use crate::metadata::{MetaEntry, MetaKind, MetaValueView, Metadata};
use crate::text::{
    contains_text, dec, dec_int, escaped, json_string, lemma_contains_concat, lemma_contains_self,
    lemma_contains_trans, push_escaped, push_u64, push_i64, spec_json_string, Escaping,
};

verus! {

/// `key` followed by the escaped value, or nothing when the value is absent.
pub open spec fn opt_escaped(key: Seq<char>, kind: Escaping, v: Option<Seq<char>>) -> Seq<char> {
    match v {
        Some(s) => key + escaped(kind, s),
        None => Seq::empty(),
    }
}

/// `key` followed by the value verbatim, or nothing when the value is absent.
pub open spec fn opt_plain(key: Seq<char>, v: Option<Seq<char>>) -> Seq<char> {
    match v {
        Some(s) => key + s,
        None => Seq::empty(),
    }
}

/// `key` followed by the decimal value, or nothing when the value is absent.
pub open spec fn opt_dec(key: Seq<char>, v: Option<u64>) -> Seq<char> {
    match v {
        Some(n) => key + dec(n as nat),
        None => Seq::empty(),
    }
}

/// A 16-bit optional number widened to 64 bits.
pub open spec fn widen(v: Option<u16>) -> Option<u64> {
    match v {
        Some(n) => Some(n as u64),
        None => None,
    }
}

/// Append `s` to `out`.
pub fn push_str(out: &mut String, s: &str)
    ensures
        final(out)@ == old(out)@ + s@,
{
    out.append(s);
}

/// Append `key` and the escaped value when the value is present.
pub fn push_opt_escaped(out: &mut String, key: &str, kind: Escaping, v: &Option<String>)
    ensures
        final(out)@ == old(out)@ + opt_escaped(key@, kind, opt_view(*v)),
{
    let ghost before = out@;
    match v {
        Some(s) => {
            out.append(key);
            push_escaped(out, kind, s.as_str());
            assert(out@ =~= before + opt_escaped(key@, kind, opt_view(*v)));
        },
        None => {
            assert(out@ =~= before + opt_escaped(key@, kind, opt_view(*v)));
        },
    }
}

/// Append `key` and the value verbatim when the value is present.
pub fn push_opt_plain(out: &mut String, key: &str, v: &Option<String>)
    ensures
        final(out)@ == old(out)@ + opt_plain(key@, opt_view(*v)),
{
    let ghost before = out@;
    match v {
        Some(s) => {
            out.append(key);
            out.append(s.as_str());
            assert(out@ =~= before + opt_plain(key@, opt_view(*v)));
        },
        None => {
            assert(out@ =~= before + opt_plain(key@, opt_view(*v)));
        },
    }
}

/// Append `key` and the decimal value when the value is present.
pub fn push_opt_dec(out: &mut String, key: &str, v: Option<u64>)
    ensures
        final(out)@ == old(out)@ + opt_dec(key@, v),
{
    let ghost before = out@;
    match v {
        Some(n) => {
            out.append(key);
            push_u64(out, n);
            assert(out@ =~= before + opt_dec(key@, v));
        },
        None => {
            assert(out@ =~= before + opt_dec(key@, v));
        },
    }
}

/// Widen an optional 16-bit number.
pub fn widen_u16(v: Option<u16>) -> (r: Option<u64>)
    ensures
        r == widen(v),
{
    match v {
        Some(n) => Some(n as u64),
        None => None,
    }
}

/// The lines joined with `\n` between them (nothing for no lines).
pub open spec fn join_lines(lines: Seq<Seq<char>>) -> Seq<char>
    decreases lines.len(),
{
    if lines.len() == 0 {
        Seq::empty()
    } else if lines.len() == 1 {
        lines[0]
    } else {
        join_lines(lines.drop_last()) + seq!['\n'] + lines.last()
    }
}

/// JSON rendering of a metadata value.
pub open spec fn value_json(v: MetaValueView) -> Seq<char> {
    if v.kind == MetaKind::Text {
        spec_json_string(v.text)
    } else {
        v.text
    }
}

/// `"key":value` members of a JSON object, comma separated.
pub open spec fn json_members(entries: Seq<MetaEntry>) -> Seq<char>
    decreases entries.len(),
{
    if entries.len() == 0 {
        Seq::empty()
    } else if entries.len() == 1 {
        spec_json_string(entries[0].0) + ":"@ + value_json(entries[0].1)
    } else {
        json_members(entries.drop_last()) + ","@ + spec_json_string(entries.last().0) + ":"@
            + value_json(entries.last().1)
    }
}

/// The `"key":value` member of one entry.
pub open spec fn json_member(entry: MetaEntry) -> Seq<char> {
    spec_json_string(entry.0) + ":"@ + value_json(entry.1)
}

/// Every entry has its member in the joined members.
pub proof fn lemma_json_members_has_entries(entries: Seq<MetaEntry>)
    ensures
        forall|i: int|
            0 <= i < entries.len() ==> contains_text(json_members(entries), #[trigger] json_member(entries[i])),
    decreases entries.len(),
{
    if entries.len() == 1 {
        lemma_contains_self(json_member(entries[0]));
    } else if entries.len() > 1 {
        let init = entries.drop_last();
        lemma_json_members_has_entries(init);
        let last = json_member(entries.last());
        lemma_contains_self(last);
        assert(json_members(entries) =~= (json_members(init) + ","@) + last);
        assert forall|i: int| 0 <= i < entries.len() implies contains_text(
            json_members(entries),
            #[trigger] json_member(entries[i]),
        ) by {
            if i < entries.len() - 1 {
                assert(entries[i] == init[i]);
                lemma_contains_concat(json_members(init), ","@, json_member(entries[i]));
                lemma_contains_concat(json_members(init) + ","@, last, json_member(entries[i]));
            } else {
                lemma_contains_concat(json_members(init) + ","@, last, last);
            }
        }
    }
}

/// Every entry has its member in the JSON object.
pub proof fn lemma_json_object_has_entries(entries: Seq<MetaEntry>)
    ensures
        forall|i: int|
            0 <= i < entries.len() ==> contains_text(json_object(entries), #[trigger] json_member(entries[i])),
{
    broadcast use lemma_contains_concat;

    lemma_json_members_has_entries(entries);
    lemma_contains_self(json_members(entries));
    assert forall|i: int| 0 <= i < entries.len() implies contains_text(
        json_object(entries),
        #[trigger] json_member(entries[i]),
    ) by {
        lemma_contains_trans(json_object(entries), json_members(entries), json_member(entries[i]));
    }
}

/// A JSON object holding the entries in order.
pub open spec fn json_object(entries: Seq<MetaEntry>) -> Seq<char> {
    "{"@ + json_members(entries) + "}"@
}

/// Append the JSON rendering of a metadata value.
pub fn push_value_json(out: &mut String, kind: MetaKind, text: &str)
    ensures
        final(out)@ == old(out)@ + value_json(MetaValueView { kind, text: text@ }),
{
    match kind {
        MetaKind::Text => {
            let q = json_string(text);
            out.append(q.as_str());
        },
        _ => {
            out.append(text);
        },
    }
}

/// JSON object text of `entries`, given as positions into the metadata.
pub fn json_object_of(m: &Metadata, positions: &Vec<usize>) -> (r: String)
    requires
        forall|k: int| 0 <= k < positions@.len() ==> #[trigger] positions@[k] < m@.len(),
    ensures
        r@ == json_object(Seq::new(positions@.len(), |k: int| m@[positions@[k] as int])),
{
    let ghost sel = Seq::new(positions@.len(), |k: int| m@[positions@[k] as int]);
    let mut out = String::new();
    push_str(&mut out, "{");
    let n = positions.len();
    let mut i: usize = 0;
    while i < n
        invariant
            n == positions@.len(),
            i <= n,
            forall|k: int| 0 <= k < positions@.len() ==> #[trigger] positions@[k] < m@.len(),
            sel == Seq::new(positions@.len(), |k: int| m@[positions@[k] as int]),
            out@ == "{"@ + json_members(sel.take(i as int)),
        decreases n - i,
    {
        let (k, v) = m.entry(positions[i]);
        let ghost prev = out@;
        if i > 0 {
            push_str(&mut out, ",");
        }
        let q = json_string(k.as_str());
        out.append(q.as_str());
        push_str(&mut out, ":");
        push_value_json(&mut out, v.kind, v.text.as_str());
        proof {
            let t = sel.take(i + 1);
            assert(t.drop_last() =~= sel.take(i as int));
            assert(t.last() == m@[positions@[i as int] as int]);
            if i == 0 {
                assert(t.len() == 1);
                assert(out@ =~= "{"@ + json_members(t));
            } else {
                assert(out@ =~= "{"@ + json_members(t));
            }
        }
        i = i + 1;
    }
    push_str(&mut out, "}");
    assert(sel.take(n as int) =~= sel);
    out
}


/// A JSON string, or `null` when absent.
pub open spec fn json_opt_str(v: Option<Seq<char>>) -> Seq<char> {
    match v {
        Some(s) => spec_json_string(s),
        None => "null"@,
    }
}

/// A JSON number, or `null` when absent.
pub open spec fn json_opt_num(v: Option<u64>) -> Seq<char> {
    match v {
        Some(n) => dec(n as nat),
        None => "null"@,
    }
}

/// Append `s` as a JSON string.
pub fn push_json_str(out: &mut String, s: &str)
    ensures
        final(out)@ == old(out)@ + spec_json_string(s@),
{
    let q = json_string(s);
    out.append(q.as_str());
}

/// Append an optional string as JSON.
pub fn push_json_opt_str(out: &mut String, v: &Option<String>)
    ensures
        final(out)@ == old(out)@ + json_opt_str(opt_view(*v)),
{
    match v {
        Some(s) => push_json_str(out, s.as_str()),
        None => push_str(out, "null"),
    }
}

/// Append an optional number as JSON.
pub fn push_json_opt_num(out: &mut String, v: Option<u64>)
    ensures
        final(out)@ == old(out)@ + json_opt_num(v),
{
    match v {
        Some(n) => push_u64(out, n),
        None => push_str(out, "null"),
    }
}

/// Append the metadata as a JSON object, entries in key order.
pub fn push_json_object(out: &mut String, m: &Metadata)
    ensures
        final(out)@ == old(out)@ + json_object(m@),
{
    let ghost before = out@;
    push_str(out, "{");
    let n = m.len();
    let mut i: usize = 0;
    assert(m@.take(0) =~= Seq::<MetaEntry>::empty());
    while i < n
        invariant
            n == m@.len(),
            i <= n,
            out@ == before + "{"@ + json_members(m@.take(i as int)),
        decreases n - i,
    {
        let (k, v) = m.entry(i);
        if i > 0 {
            push_str(out, ",");
        }
        push_json_str(out, k.as_str());
        push_str(out, ":");
        push_value_json(out, v.kind, v.text.as_str());
        proof {
            let t = m@.take(i + 1);
            assert(t.drop_last() =~= m@.take(i as int));
            assert(t.last() == m@[i as int]);
            assert(out@ =~= before + "{"@ + json_members(t));
        }
        i = i + 1;
    }
    push_str(out, "}");
    assert(m@.take(n as int) =~= m@);
    assert(out@ =~= before + json_object(m@));
}

/// Members present in an object, comma separated; the flag tells whether any was present.
pub open spec fn joined_members(ms: Seq<Option<Seq<char>>>) -> (Seq<char>, bool)
    decreases ms.len(),
{
    if ms.len() == 0 {
        (Seq::empty(), false)
    } else {
        let prev = joined_members(ms.drop_last());
        match ms.last() {
            None => prev,
            Some(m) => (if prev.1 {
                prev.0 + ","@ + m
            } else {
                m
            }, true),
        }
    }
}

/// When no member is present, nothing is written.
pub proof fn lemma_joined_none(ms: Seq<Option<Seq<char>>>)
    ensures
        !joined_members(ms).1 ==> joined_members(ms).0 == Seq::<char>::empty(),
    decreases ms.len(),
{
    if ms.len() > 0 {
        lemma_joined_none(ms.drop_last());
    }
}

/// Every present member is written into the joined members, and then
/// something is present.
pub proof fn lemma_joined_members_has(ms: Seq<Option<Seq<char>>>)
    ensures
        forall|k: int|
            0 <= k < ms.len() && ms[k] is Some ==> joined_members(ms).1 && contains_text(
                joined_members(ms).0,
                #[trigger] ms[k]->0,
            ),
    decreases ms.len(),
{
    if ms.len() > 0 {
        let init = ms.drop_last();
        lemma_joined_members_has(init);
        let prev = joined_members(init);
        assert forall|k: int| 0 <= k < ms.len() && ms[k] is Some implies joined_members(ms).1 && contains_text(
            joined_members(ms).0,
            #[trigger] ms[k]->0,
        ) by {
            let t = ms[k]->0;
            if k < ms.len() - 1 {
                assert(ms[k] == init[k]);
                match ms.last() {
                    None => {},
                    Some(m) => {
                        if prev.1 {
                            lemma_contains_concat(prev.0, ","@, t);
                            lemma_contains_concat(prev.0 + ","@, m, t);
                        }
                    },
                }
            } else {
                lemma_contains_self(t);
                if prev.1 {
                    lemma_contains_concat(prev.0 + ","@, t, t);
                }
            }
        }
    }
}

/// Every present member is written into the object.
pub proof fn lemma_object_of_has(ms: Seq<Option<Seq<char>>>)
    ensures
        forall|k: int|
            0 <= k < ms.len() && ms[k] is Some ==> any_present(ms) && contains_text(
                object_of(ms),
                #[trigger] ms[k]->0,
            ),
{
    lemma_joined_members_has(ms);
    assert forall|k: int| 0 <= k < ms.len() && ms[k] is Some implies any_present(ms) && contains_text(
        object_of(ms),
        #[trigger] ms[k]->0,
    ) by {
        let t = ms[k]->0;
        lemma_contains_concat("{"@, joined_members(ms).0, t);
        lemma_contains_concat("{"@ + joined_members(ms).0, "}"@, t);
    }
}

/// A JSON object of the members that are present.
pub open spec fn object_of(ms: Seq<Option<Seq<char>>>) -> Seq<char> {
    "{"@ + joined_members(ms).0 + "}"@
}

/// Whether any member is present.
pub open spec fn any_present(ms: Seq<Option<Seq<char>>>) -> bool {
    joined_members(ms).1
}

/// `"name":` followed by a JSON string, when present.
pub open spec fn str_member(name: Seq<char>, v: Option<Seq<char>>) -> Option<Seq<char>> {
    match v {
        Some(s) => Some(name + spec_json_string(s)),
        None => None,
    }
}

/// `"name":` followed by a JSON number, when present.
pub open spec fn num_member(name: Seq<char>, v: Option<u64>) -> Option<Seq<char>> {
    match v {
        Some(n) => Some(name + dec(n as nat)),
        None => None,
    }
}

/// Builder for a JSON object whose members may be absent.
pub struct ObjectWriter {
    pub text: String,
    pub any: bool,
    pub members: Ghost<Seq<Option<Seq<char>>>>,
}

impl ObjectWriter {
    pub fn new() -> (w: ObjectWriter)
        ensures
            w.members@ == Seq::<Option<Seq<char>>>::empty(),
            w.text@ == joined_members(w.members@).0,
            w.any == joined_members(w.members@).1,
    {
        ObjectWriter { text: String::new(), any: false, members: Ghost(Seq::empty()) }
    }

    /// Record a member that is absent.
    pub fn skip(&mut self)
        requires
            old(self).text@ == joined_members(old(self).members@).0,
            old(self).any == joined_members(old(self).members@).1,
        ensures
            final(self).members@ == old(self).members@.push(None),
            final(self).text@ == joined_members(final(self).members@).0,
            final(self).any == joined_members(final(self).members@).1,
    {
        self.members = Ghost(self.members@.push(None));
        assert(self.members@.drop_last() =~= old(self).members@);
    }

    /// Add a present member: `name` (already holding `"name":`) and a value already rendered.
    pub fn add(&mut self, name: &str, value: &str)
        requires
            old(self).text@ == joined_members(old(self).members@).0,
            old(self).any == joined_members(old(self).members@).1,
        ensures
            final(self).members@ == old(self).members@.push(Some(name@ + value@)),
            final(self).text@ == joined_members(final(self).members@).0,
            final(self).any == joined_members(final(self).members@).1,
    {
        proof {
            lemma_joined_none(self.members@);
        }
        if self.any {
            self.text.append(",");
        }
        self.text.append(name);
        self.text.append(value);
        self.any = true;
        self.members = Ghost(self.members@.push(Some(name@ + value@)));
        assert(self.members@.drop_last() =~= old(self).members@);
        assert(self.text@ =~= joined_members(self.members@).0);
    }

    /// Add an optional string member.
    pub fn add_str(&mut self, name: &str, v: &Option<String>)
        requires
            old(self).text@ == joined_members(old(self).members@).0,
            old(self).any == joined_members(old(self).members@).1,
        ensures
            final(self).members@ == old(self).members@.push(str_member(name@, opt_view(*v))),
            final(self).text@ == joined_members(final(self).members@).0,
            final(self).any == joined_members(final(self).members@).1,
    {
        match v {
            Some(s) => {
                let q = json_string(s.as_str());
                self.add(name, q.as_str());
            },
            None => self.skip(),
        }
    }

    /// Add an optional number member.
    pub fn add_num(&mut self, name: &str, v: Option<u64>)
        requires
            old(self).text@ == joined_members(old(self).members@).0,
            old(self).any == joined_members(old(self).members@).1,
        ensures
            final(self).members@ == old(self).members@.push(num_member(name@, v)),
            final(self).text@ == joined_members(final(self).members@).0,
            final(self).any == joined_members(final(self).members@).1,
    {
        match v {
            Some(n) => {
                let mut d = String::new();
                push_u64(&mut d, n);
                assert(d@ =~= dec(n as nat));
                self.add(name, d.as_str());
            },
            None => self.skip(),
        }
    }

    /// The finished object text.
    pub fn finish(self) -> (r: String)
        requires
            self.text@ == joined_members(self.members@).0,
        ensures
            r@ == object_of(self.members@),
    {
        let mut out = String::new();
        push_str(&mut out, "{");
        out.append(self.text.as_str());
        push_str(&mut out, "}");
        out
    }
}

} // verus!
