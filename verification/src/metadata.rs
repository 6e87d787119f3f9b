//! Event metadata: a map from keys to JSON-ish values, kept sorted by key.

use vstd::prelude::*;
use crate::text::{dec, dec_int, push_i64, push_u64};

verus! {

#[verifier::external_type_specification]
#[verifier::external_body]
pub struct ExJsonValue(serde_json::Value);

/// The shape of a metadata value, as far as the formatters distinguish it.
#[derive(Clone, Copy, PartialEq, Eq, Structural, Debug)]
pub enum MetaKind {
    /// A JSON string; `text` holds the string itself.
    Text,
    /// A JSON number; `text` holds its JSON rendering.
    Number,
    /// `null`, a boolean, an array or an object; `text` holds its JSON rendering.
    Other,
}

/// A metadata value.
#[derive(PartialEq, Eq, Debug)]
pub struct MetadataValue {
    pub kind: MetaKind,
    pub text: String,
}

/// What the formatters read of a metadata value.
pub struct MetaValueView {
    pub kind: MetaKind,
    pub text: Seq<char>,
}

impl View for MetadataValue {
    type V = MetaValueView;

    open spec fn view(&self) -> MetaValueView {
        MetaValueView { kind: self.kind, text: self.text@ }
    }
}

/// Characters of a JSON number as serde_json renders one: a non-empty run
/// of digits, signs, decimal points and the exponent marker `e`.
pub open spec fn is_json_number_text(t: Seq<char>) -> bool {
    &&& t.len() > 0
    &&& forall|i: int|
        0 <= i < t.len() ==> ('0' <= #[trigger] t[i] <= '9' || t[i] == '-' || t[i] == '+' || t[i]
            == '.' || t[i] == 'e')
}

/// The compact JSON rendering of `null`, a boolean, an array or an object.
pub open spec fn is_json_other_text(t: Seq<char>) -> bool {
    ||| t == "null"@
    ||| t == "true"@
    ||| t == "false"@
    ||| t.len() >= 2 && t[0] == '[' && t[t.len() - 1] == ']'
    ||| t.len() >= 2 && t[0] == '{' && t[t.len() - 1] == '}'
}

/// What a value converted from JSON looks like: numbers carry their number
/// text, and null, booleans, arrays and objects their compact JSON text.
pub open spec fn is_json_shaped(v: MetaValueView) -> bool {
    &&& v.kind == MetaKind::Number ==> is_json_number_text(v.text)
    &&& v.kind == MetaKind::Other ==> is_json_other_text(v.text)
}

/// Converts a `serde_json::Value` into the library's value type: a string
/// keeps its characters (kind `Text`), a number keeps its rendering by
/// `Number`'s `Display` (itoa for integers, zmij for floats: digits, `-`,
/// `+`, `.`, `e`), and anything else keeps its compact JSON rendering by
/// `Value::to_string` (`null`, `true`, `false`, `[...]`, `{...}`). The JSON
/// value is opaque here, so which string, number or document it holds is
/// not stated.
#[verifier::external_body]
fn value_from_json(v: serde_json::Value) -> (r: MetadataValue)
    ensures
        is_json_shaped(r@),
{
    match v {
        serde_json::Value::String(s) => MetadataValue { kind: MetaKind::Text, text: s },
        serde_json::Value::Number(n) => MetadataValue { kind: MetaKind::Number, text: n.to_string() },
        other => MetadataValue { kind: MetaKind::Other, text: other.to_string() },
    }
}

impl MetadataValue {
    /// A JSON string value.
    pub fn text(s: &str) -> (r: MetadataValue)
        ensures
            r@.kind == MetaKind::Text,
            r@.text == s@,
    {
        MetadataValue { kind: MetaKind::Text, text: String::from_str(s) }
    }

    /// A JSON integer value.
    pub fn integer(i: i64) -> (r: MetadataValue)
        ensures
            r@.kind == MetaKind::Number,
            r@.text == dec_int(i as int),
    {
        let mut t = String::new();
        push_i64(&mut t, i);
        assert(t@ =~= dec_int(i as int));
        MetadataValue { kind: MetaKind::Number, text: t }
    }

    /// A JSON unsigned integer value.
    pub fn unsigned(n: u64) -> (r: MetadataValue)
        ensures
            r@.kind == MetaKind::Number,
            r@.text == dec(n as nat),
    {
        let mut t = String::new();
        push_u64(&mut t, n);
        assert(t@ =~= dec(n as nat));
        MetadataValue { kind: MetaKind::Number, text: t }
    }

    /// A JSON boolean value.
    pub fn boolean(b: bool) -> (r: MetadataValue)
        ensures
            r@.kind == MetaKind::Other,
            r@.text == (if b { "true"@ } else { "false"@ }),
    {
        if b {
            MetadataValue { kind: MetaKind::Other, text: String::from_str("true") }
        } else {
            MetadataValue { kind: MetaKind::Other, text: String::from_str("false") }
        }
    }

    /// The JSON `null` value.
    pub fn null() -> (r: MetadataValue)
        ensures
            r@.kind == MetaKind::Other,
            r@.text == "null"@,
    {
        MetadataValue { kind: MetaKind::Other, text: String::from_str("null") }
    }

    /// A value converted from `serde_json::Value`.
    pub fn from_json(v: serde_json::Value) -> (r: MetadataValue)
        ensures
            is_json_shaped(r@),
    {
        value_from_json(v)
    }

    /// Whether the value is a JSON number.
    pub fn is_number(&self) -> (b: bool)
        ensures
            b == (self@.kind == MetaKind::Number),
    {
        match self.kind {
            MetaKind::Number => true,
            _ => false,
        }
    }
}

// ---------------------------------------------------------------------
// Key order
// ---------------------------------------------------------------------

/// Lexicographic order on keys, by character code (the order `str` uses).
pub open spec fn key_lt(a: Seq<char>, b: Seq<char>) -> bool
    decreases a.len(),
{
    if a.len() == 0 {
        b.len() > 0
    } else if b.len() == 0 {
        false
    } else if a[0] != b[0] {
        a[0] < b[0]
    } else {
        key_lt(a.drop_first(), b.drop_first())
    }
}

pub proof fn lemma_key_lt_irreflexive(a: Seq<char>)
    ensures
        !key_lt(a, a),
    decreases a.len(),
{
    if a.len() > 0 {
        lemma_key_lt_irreflexive(a.drop_first());
    }
}

pub proof fn lemma_key_lt_asymmetric(a: Seq<char>, b: Seq<char>)
    requires
        key_lt(a, b),
    ensures
        !key_lt(b, a),
    decreases a.len(),
{
    if a.len() > 0 && b.len() > 0 && a[0] == b[0] {
        lemma_key_lt_asymmetric(a.drop_first(), b.drop_first());
    }
}

pub proof fn lemma_key_lt_transitive(a: Seq<char>, b: Seq<char>, c: Seq<char>)
    requires
        key_lt(a, b),
        key_lt(b, c),
    ensures
        key_lt(a, c),
    decreases a.len(),
{
    if a.len() > 0 && b.len() > 0 && c.len() > 0 && a[0] == b[0] && b[0] == c[0] {
        lemma_key_lt_transitive(a.drop_first(), b.drop_first(), c.drop_first());
    }
}

pub proof fn lemma_key_lt_total(a: Seq<char>, b: Seq<char>)
    requires
        a != b,
    ensures
        key_lt(a, b) || key_lt(b, a),
    decreases a.len(),
{
    if a.len() == 0 {
        if b.len() == 0 {
            assert(a =~= b);
        }
    } else if b.len() == 0 {
    } else if a[0] == b[0] {
        if a.drop_first() =~= b.drop_first() {
            assert forall|k: int| 0 <= k < a.len() implies a[k] == b[k] by {
                if k > 0 {
                    assert(a[k] == a.drop_first()[k - 1]);
                    assert(b[k] == b.drop_first()[k - 1]);
                }
            }
            assert(a =~= b);
        }
        lemma_key_lt_total(a.drop_first(), b.drop_first());
    }
}

/// Compare two keys: `(a < b, a == b)`.
pub fn compare_keys(a: &str, b: &str) -> (r: (bool, bool))
    ensures
        r.0 == key_lt(a@, b@),
        r.1 == (a@ == b@),
{
    let na = a.unicode_len();
    let nb = b.unicode_len();
    let mut i: usize = 0;
    assert(a@.skip(0) =~= a@);
    assert(b@.skip(0) =~= b@);
    while i < na && i < nb
        invariant
            na == a@.len(),
            nb == b@.len(),
            i <= na,
            i <= nb,
            a@.take(i as int) == b@.take(i as int),
            key_lt(a@, b@) == key_lt(a@.skip(i as int), b@.skip(i as int)),
        decreases na - i,
    {
        let ca = a.get_char(i);
        let cb = b.get_char(i);
        assert(a@.skip(i as int)[0] == ca);
        assert(b@.skip(i as int)[0] == cb);
        if ca != cb {
            if ca < cb {
                return (true, false);
            } else {
                assert(a@[i as int] != b@[i as int]);
                return (false, false);
            }
        }
        assert(a@.skip(i as int).drop_first() =~= a@.skip(i + 1));
        assert(b@.skip(i as int).drop_first() =~= b@.skip(i + 1));
        assert(a@.take(i + 1) =~= a@.take(i as int).push(ca));
        assert(b@.take(i + 1) =~= b@.take(i as int).push(cb));
        i = i + 1;
    }
    if i == na && i == nb {
        assert(a@ =~= a@.take(i as int));
        assert(b@ =~= b@.take(i as int));
        assert(a@.skip(i as int).len() == 0);
        (false, true)
    } else if i == na {
        assert(a@.skip(i as int).len() == 0);
        assert(a@.len() != b@.len());
        (true, false)
    } else {
        assert(b@.skip(i as int).len() == 0);
        assert(a@.len() != b@.len());
        (false, false)
    }
}

// ---------------------------------------------------------------------
// The sorted map
// ---------------------------------------------------------------------

/// One metadata entry as the specifications see it.
pub type MetaEntry = (Seq<char>, MetaValueView);

/// Keys strictly increase along the sequence.
pub open spec fn sorted_keys(s: Seq<MetaEntry>) -> bool {
    forall|i: int, j: int| 0 <= i < j < s.len() ==> key_lt(#[trigger] s[i].0, #[trigger] s[j].0)
}

/// Insert `k -> v` into a key-sorted sequence, replacing an entry with the same key.
pub open spec fn sorted_insert(s: Seq<MetaEntry>, k: Seq<char>, v: MetaValueView) -> Seq<MetaEntry>
    decreases s.len(),
{
    if s.len() == 0 {
        seq![(k, v)]
    } else if key_lt(s[0].0, k) {
        seq![s[0]] + sorted_insert(s.drop_first(), k, v)
    } else if s[0].0 == k {
        seq![(k, v)] + s.drop_first()
    } else {
        seq![(k, v)] + s
    }
}

/// The value stored under `k`, if any.
pub open spec fn lookup(s: Seq<MetaEntry>, k: Seq<char>) -> Option<MetaValueView>
    decreases s.len(),
{
    if s.len() == 0 {
        None
    } else if s[0].0 == k {
        Some(s[0].1)
    } else {
        lookup(s.drop_first(), k)
    }
}

/// Reading a key back after an insert gives the inserted value; every
/// other key reads as before.
pub proof fn lemma_lookup_after_insert(s: Seq<MetaEntry>, k: Seq<char>, v: MetaValueView, q: Seq<char>)
    ensures
        lookup(sorted_insert(s, k, v), q) == (if q == k {
            Some(v)
        } else {
            lookup(s, q)
        }),
    decreases s.len(),
{
    let e: MetaEntry = (k, v);
    if s.len() == 0 {
        assert(seq![e][0] == e);
        assert(seq![e].drop_first() =~= Seq::<MetaEntry>::empty());
        assert(lookup(Seq::<MetaEntry>::empty(), q) is None);
        assert(lookup(s, q) is None);
    } else if key_lt(s[0].0, k) {
        lemma_key_lt_irreflexive(k);
        let t = sorted_insert(s.drop_first(), k, v);
        lemma_lookup_after_insert(s.drop_first(), k, v, q);
        assert((seq![s[0]] + t)[0] == s[0]);
        assert((seq![s[0]] + t).drop_first() =~= t);
    } else if s[0].0 == k {
        assert((seq![e] + s.drop_first())[0] == e);
        assert((seq![e] + s.drop_first()).drop_first() =~= s.drop_first());
    } else {
        assert((seq![e] + s)[0] == e);
        assert((seq![e] + s).drop_first() =~= s);
    }
}

/// Inserting under a key twice keeps only the second value.
pub proof fn lemma_insert_overwrites(
    s: Seq<MetaEntry>,
    k: Seq<char>,
    v1: MetaValueView,
    v2: MetaValueView,
)
    ensures
        sorted_insert(sorted_insert(s, k, v1), k, v2) == sorted_insert(s, k, v2),
    decreases s.len(),
{
    lemma_key_lt_irreflexive(k);
    if s.len() == 0 {
        assert(seq![(k, v1)].drop_first() =~= Seq::<MetaEntry>::empty());
        assert(seq![(k, v2)] + Seq::<MetaEntry>::empty() =~= seq![(k, v2)]);
    } else if key_lt(s[0].0, k) {
        let t = sorted_insert(s.drop_first(), k, v1);
        lemma_insert_overwrites(s.drop_first(), k, v1, v2);
        assert((seq![s[0]] + t).drop_first() =~= t);
        assert((seq![s[0]] + t)[0] == s[0]);
    } else if s[0].0 == k {
        assert((seq![(k, v1)] + s.drop_first()).drop_first() =~= s.drop_first());
    } else {
        assert((seq![(k, v1)] + s).drop_first() =~= s);
    }
}

/// Inserting under two different keys gives the same entries in either order.
pub proof fn lemma_insert_commutes(
    s: Seq<MetaEntry>,
    k1: Seq<char>,
    v1: MetaValueView,
    k2: Seq<char>,
    v2: MetaValueView,
)
    requires
        k1 != k2,
    ensures
        sorted_insert(sorted_insert(s, k1, v1), k2, v2) == sorted_insert(
            sorted_insert(s, k2, v2),
            k1,
            v1,
        ),
    decreases s.len(),
{
    lemma_key_lt_irreflexive(k1);
    lemma_key_lt_irreflexive(k2);
    lemma_key_lt_total(k1, k2);
    let e1: MetaEntry = (k1, v1);
    let e2: MetaEntry = (k2, v2);
    if s.len() == 0 {
        if key_lt(k1, k2) {
            lemma_key_lt_asymmetric(k1, k2);
            assert(seq![e1][0] == e1);
            assert(seq![e2][0] == e2);
            assert(seq![e1].drop_first() =~= Seq::<MetaEntry>::empty());
            assert(seq![e2].drop_first() =~= Seq::<MetaEntry>::empty());
            assert(sorted_insert(Seq::<MetaEntry>::empty(), k2, v2) == seq![e2]);
            assert(sorted_insert(seq![e1], k2, v2) =~= seq![e1, e2]);
            assert(sorted_insert(seq![e2], k1, v1) =~= seq![e1, e2]);
        } else {
            lemma_key_lt_asymmetric(k2, k1);
            assert(seq![e1][0] == e1);
            assert(seq![e2][0] == e2);
            assert(seq![e1].drop_first() =~= Seq::<MetaEntry>::empty());
            assert(seq![e2].drop_first() =~= Seq::<MetaEntry>::empty());
            assert(sorted_insert(Seq::<MetaEntry>::empty(), k1, v1) == seq![e1]);
            assert(sorted_insert(seq![e1], k2, v2) =~= seq![e2, e1]);
            assert(sorted_insert(seq![e2], k1, v1) =~= seq![e2, e1]);
        }
    } else {
        let h = s[0];
        let t = s.drop_first();
        assert(s =~= seq![h] + t);
        if key_lt(h.0, k1) && key_lt(h.0, k2) {
            lemma_insert_commutes(t, k1, v1, k2, v2);
            let a = sorted_insert(t, k1, v1);
            let b = sorted_insert(t, k2, v2);
            assert((seq![h] + a)[0] == h);
            assert((seq![h] + a).drop_first() =~= a);
            assert((seq![h] + b)[0] == h);
            assert((seq![h] + b).drop_first() =~= b);
        } else if key_lt(h.0, k1) {
            lemma_commute_mixed(h, t, k1, v1, k2, v2);
        } else if key_lt(h.0, k2) {
            lemma_commute_mixed(h, t, k2, v2, k1, v1);
        } else {
            lemma_commute_both_before(h, t, k1, v1, k2, v2);
        }
    }
}

/// The case of `lemma_insert_commutes` where the first entry's key lies
/// below `k1` but not below `k2`.
proof fn lemma_commute_mixed(
    h: MetaEntry,
    t: Seq<MetaEntry>,
    k1: Seq<char>,
    v1: MetaValueView,
    k2: Seq<char>,
    v2: MetaValueView,
)
    requires
        k1 != k2,
        key_lt(h.0, k1),
        !key_lt(h.0, k2),
    ensures
        sorted_insert(sorted_insert(seq![h] + t, k1, v1), k2, v2) == sorted_insert(
            sorted_insert(seq![h] + t, k2, v2),
            k1,
            v1,
        ),
{
    let s = seq![h] + t;
    let e2: MetaEntry = (k2, v2);
    assert(s[0] == h);
    assert(s.drop_first() =~= t);
    lemma_key_lt_irreflexive(k1);
    lemma_key_lt_irreflexive(k2);
    let a = sorted_insert(t, k1, v1);
    assert(sorted_insert(s, k1, v1) == seq![h] + a);
    assert((seq![h] + a)[0] == h);
    assert((seq![h] + a).drop_first() =~= a);
    if h.0 == k2 {
        // k2 < k1, so k1 goes after the (replaced) first entry.
        assert(sorted_insert(s, k2, v2) == seq![e2] + t);
        assert((seq![e2] + t)[0] == e2);
        assert((seq![e2] + t).drop_first() =~= t);
        assert(sorted_insert(seq![e2] + t, k1, v1) == seq![e2] + a);
        assert(sorted_insert(seq![h] + a, k2, v2) == seq![e2] + a);
    } else {
        lemma_key_lt_total(h.0, k2);
        lemma_key_lt_transitive(k2, h.0, k1);
        lemma_key_lt_asymmetric(k2, k1);
        assert(sorted_insert(s, k2, v2) == seq![e2] + s);
        assert((seq![e2] + s)[0] == e2);
        assert((seq![e2] + s).drop_first() =~= s);
        assert(sorted_insert(seq![e2] + s, k1, v1) == seq![e2] + (seq![h] + a));
        assert(sorted_insert(seq![h] + a, k2, v2) == seq![e2] + (seq![h] + a));
    }
}

/// The case of `lemma_insert_commutes` where the first entry's key lies
/// below neither key.
proof fn lemma_commute_both_before(
    h: MetaEntry,
    t: Seq<MetaEntry>,
    k1: Seq<char>,
    v1: MetaValueView,
    k2: Seq<char>,
    v2: MetaValueView,
)
    requires
        k1 != k2,
        !key_lt(h.0, k1),
        !key_lt(h.0, k2),
    ensures
        sorted_insert(sorted_insert(seq![h] + t, k1, v1), k2, v2) == sorted_insert(
            sorted_insert(seq![h] + t, k2, v2),
            k1,
            v1,
        ),
{
    let s = seq![h] + t;
    let e1: MetaEntry = (k1, v1);
    let e2: MetaEntry = (k2, v2);
    assert(s[0] == h);
    assert(s.drop_first() =~= t);
    lemma_key_lt_total(k1, k2);
    let r1 = if h.0 == k1 { t } else { s };
    let r2 = if h.0 == k2 { t } else { s };
    assert(sorted_insert(s, k1, v1) == seq![e1] + r1);
    assert(sorted_insert(s, k2, v2) == seq![e2] + r2);
    assert((seq![e1] + r1)[0] == e1);
    assert((seq![e1] + r1).drop_first() =~= r1);
    assert((seq![e2] + r2)[0] == e2);
    assert((seq![e2] + r2).drop_first() =~= r2);
    if key_lt(k1, k2) {
        lemma_key_lt_asymmetric(k1, k2);
        // h is not below k2, so h differs from k1 and k1 comes first.
        assert(h.0 != k1);
        assert(sorted_insert(seq![e1] + r1, k2, v2) == seq![e1] + sorted_insert(s, k2, v2));
        assert(sorted_insert(seq![e2] + r2, k1, v1) == seq![e1] + (seq![e2] + r2));
    } else {
        lemma_key_lt_asymmetric(k2, k1);
        assert(h.0 != k2);
        assert(sorted_insert(seq![e2] + r2, k1, v1) == seq![e2] + sorted_insert(s, k1, v1));
        assert(sorted_insert(seq![e1] + r1, k2, v2) == seq![e2] + (seq![e1] + r1));
    }
}

/// Metadata attached to an event: a map from distinct keys to values, kept
/// in increasing key order, so that every format writes it the same way
/// whatever order the keys were added in.
#[derive(Debug)]
pub struct Metadata {
    entries: Vec<(String, MetadataValue)>,
}

/// The specification view of a list of stored entries.
pub open spec fn entries_view(v: Seq<(String, MetadataValue)>) -> Seq<MetaEntry> {
    Seq::new(v.len(), |i: int| (v[i].0@, v[i].1@))
}

impl View for Metadata {
    type V = Seq<MetaEntry>;

    closed spec fn view(&self) -> Seq<MetaEntry> {
        entries_view(self.entries@)
    }
}

impl Metadata {
    /// Keys are listed in strictly increasing order.
    #[verifier::type_invariant]
    pub open spec fn wf(self) -> bool {
        sorted_keys(self@)
    }

    /// No metadata.
    pub fn new() -> (m: Metadata)
        ensures
            m@ == Seq::<MetaEntry>::empty(),
    {
        let m = Metadata { entries: Vec::new() };
        assert(m@ =~= Seq::<MetaEntry>::empty());
        m
    }

    /// Number of entries.
    pub fn len(&self) -> (n: usize)
        ensures
            n == self@.len(),
    {
        self.entries.len()
    }

    /// Whether there are no entries.
    pub fn is_empty(&self) -> (b: bool)
        ensures
            b == (self@.len() == 0),
    {
        self.entries.len() == 0
    }

    /// The `i`-th entry in key order.
    pub fn entry(&self, i: usize) -> (r: (&String, &MetadataValue))
        requires
            i < self@.len(),
        ensures
            r.0@ == self@[i as int].0,
            r.1@ == self@[i as int].1,
    {
        (&self.entries[i].0, &self.entries[i].1)
    }

    /// The value stored under `key`, if any.
    pub fn get(&self, key: &str) -> (r: Option<&MetadataValue>)
        ensures
            match r {
                Some(v) => lookup(self@, key@) == Some(v@),
                None => lookup(self@, key@) is None,
            },
    {
        let n = self.entries.len();
        let mut i: usize = 0;
        assert(self@.skip(0) =~= self@);
        while i < n
            invariant
                n == self@.len(),
                i <= n,
                lookup(self@, key@) == lookup(self@.skip(i as int), key@),
            decreases n - i,
        {
            assert(self@.skip(i as int)[0] == self@[i as int]);
            let (eq_lt, eq) = compare_keys(self.entries[i].0.as_str(), key);
            if eq {
                return Some(&self.entries[i].1);
            }
            assert(self@.skip(i as int).drop_first() =~= self@.skip(i + 1));
            i = i + 1;
        }
        None
    }

    /// Insert `key -> value`, replacing any value already stored under `key`.
    pub fn insert(&mut self, key: String, value: MetadataValue)
        ensures
            final(self)@ == sorted_insert(old(self)@, key@, value@),
    {
        proof {
            use_type_invariant(&*self);
        }
        let ghost s = self@;
        let mut entries: Vec<(String, MetadataValue)> = Vec::new();
        std::mem::swap(&mut entries, &mut self.entries);
        assert(entries_view(entries@) =~= s);
        let n = entries.len();
        let mut i: usize = 0;
        assert(s.skip(0) =~= s);
        assert(s.take(0) =~= Seq::<MetaEntry>::empty());
        while i < n
            invariant
                n == s.len(),
                s == entries_view(entries@),
                sorted_keys(s),
                i <= n,
                forall|j: int| 0 <= j < i ==> key_lt(#[trigger] s[j].0, key@),
                sorted_insert(s, key@, value@) == s.take(i as int) + sorted_insert(
                    s.skip(i as int),
                    key@,
                    value@,
                ),
            ensures
                i < n ==> !key_lt(s[i as int].0, key@),
            decreases n - i,
        {
            let (lt, eq) = compare_keys(entries[i].0.as_str(), key.as_str());
            assert(s[i as int].0 == entries@[i as int].0@);
            assert(s.skip(i as int)[0] == s[i as int]);
            if !lt {
                break;
            }
            assert(s.skip(i as int).drop_first() =~= s.skip(i + 1));
            assert(s.take(i + 1) =~= s.take(i as int) + seq![s[i as int]]);
            i = i + 1;
        }
        let ghost kv: MetaEntry = (key@, value@);
        if i < n {
            let (lt, eq) = compare_keys(entries[i].0.as_str(), key.as_str());
            assert(s.skip(i as int)[0] == s[i as int]);
            assert(s[i as int].0 == entries@[i as int].0@);
            assert(!key_lt(s[i as int].0, kv.0));
            assert(eq == (s[i as int].0 == kv.0));
            if eq {
                entries.set(i, (key, value));
                proof {
                    let t = entries_view(entries@);
                    assert(s.skip(i as int).drop_first() =~= s.skip(i + 1));
                    assert(t =~= s.take(i as int) + (seq![kv] + s.skip(i + 1)));
                    assert forall|a: int, b: int| 0 <= a < b < t.len() implies key_lt(
                        #[trigger] t[a].0,
                        #[trigger] t[b].0,
                    ) by {
                        assert(t[a].0 == s[a].0);
                        assert(t[b].0 == s[b].0);
                    }
                }
                self.entries = entries;
            } else {
                entries.insert(i, (key, value));
                proof {
                    let t = entries_view(entries@);
                    assert(t =~= s.take(i as int) + (seq![kv] + s.skip(i as int)));
                    lemma_key_lt_total(s[i as int].0, kv.0);
                    assert forall|a: int, b: int| 0 <= a < b < t.len() implies key_lt(
                        #[trigger] t[a].0,
                        #[trigger] t[b].0,
                    ) by {
                        if b < i {
                            assert(t[a].0 == s[a].0);
                            assert(t[b].0 == s[b].0);
                        } else if b == i {
                            assert(t[a].0 == s[a].0);
                        } else if a == i {
                            assert(t[b].0 == s[b - 1].0);
                            if b - 1 > i {
                                lemma_key_lt_transitive(kv.0, s[i as int].0, s[b - 1].0);
                            }
                        } else if a < i {
                            assert(t[a].0 == s[a].0);
                            assert(t[b].0 == s[b - 1].0);
                            lemma_key_lt_transitive(s[a].0, kv.0, s[i as int].0);
                            if b - 1 > i {
                                lemma_key_lt_transitive(s[a].0, s[i as int].0, s[b - 1].0);
                            }
                        } else {
                            assert(t[a].0 == s[a - 1].0);
                            assert(t[b].0 == s[b - 1].0);
                        }
                    }
                }
                self.entries = entries;
            }
        } else {
            entries.push((key, value));
            proof {
                let t = entries_view(entries@);
                assert(s.skip(i as int) =~= Seq::<MetaEntry>::empty());
                assert(t =~= s.take(i as int) + seq![kv]);
                assert forall|a: int, b: int| 0 <= a < b < t.len() implies key_lt(
                    #[trigger] t[a].0,
                    #[trigger] t[b].0,
                ) by {
                    assert(t[a].0 == s[a].0);
                    if b < n {
                        assert(t[b].0 == s[b].0);
                    }
                }
            }
            self.entries = entries;
        }
    }
}

impl Clone for MetadataValue {
    fn clone(&self) -> (r: MetadataValue)
        ensures
            r@ == self@,
    {
        MetadataValue { kind: self.kind, text: self.text.clone() }
    }
}

impl Clone for Metadata {
    fn clone(&self) -> (r: Metadata)
        ensures
            r@ == self@,
    {
        proof {
            use_type_invariant(self);
        }
        let n = self.entries.len();
        let mut entries: Vec<(String, MetadataValue)> = Vec::new();
        let mut i: usize = 0;
        while i < n
            invariant
                n == self.entries@.len(),
                i <= n,
                entries_view(entries@) =~= self@.take(i as int),
            decreases n - i,
        {
            let k = self.entries[i].0.clone();
            let v = self.entries[i].1.clone();
            let ghost before = entries@;
            entries.push((k, v));
            assert(entries_view(entries@) =~= entries_view(before).push(self@[i as int]));
            assert(self@.take(i + 1) =~= self@.take(i as int).push(self@[i as int]));
            i = i + 1;
        }
        assert(self@.take(n as int) =~= self@);
        Metadata { entries }
    }
}

} // verus!
