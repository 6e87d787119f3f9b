//! Text building blocks shared by the formatters: per-character escaping,
//! decimal rendering of integers, and JSON string quoting.

use vstd::prelude::*;

verus! {

/// `String::push` appends one character at the end of the string
/// (as the standard library documents it).
pub assume_specification[ String::push ](s: &mut String, ch: char)
    ensures
        final(s)@ == old(s)@.push(ch),
;

// ---------------------------------------------------------------------
// Per-character escaping
// ---------------------------------------------------------------------

/// The escaping disciplines used by the wire formats.
#[derive(Clone, Copy, PartialEq, Eq, Structural, Debug)]
pub enum Escaping {
    /// CEF header fields: `\` and `|` are backslash-escaped, CR/LF become spaces.
    CefHeader,
    /// CEF extension values: `\` and `=` are backslash-escaped, CR/LF become `\r`/`\n`.
    CefExtension,
    /// LEEF header fields: `|` is backslash-escaped, CR/LF become spaces.
    LeefHeader,
    /// LEEF attribute values: tab becomes a space, CR/LF become `\r`/`\n`, `=` is escaped.
    LeefValue,
    /// RFC 5424 structured-data parameter values: `\`, `"` and `]` are escaped.
    SyslogParam,
}

/// The image of one character under an escaping discipline.
pub open spec fn escaped_char(kind: Escaping, c: char) -> Seq<char> {
    match kind {
        Escaping::CefHeader => if c == '\\' {
            seq!['\\', '\\']
        } else if c == '|' {
            seq!['\\', '|']
        } else if c == '\n' || c == '\r' {
            seq![' ']
        } else {
            seq![c]
        },
        Escaping::CefExtension => if c == '\\' {
            seq!['\\', '\\']
        } else if c == '=' {
            seq!['\\', '=']
        } else if c == '\n' {
            seq!['\\', 'n']
        } else if c == '\r' {
            seq!['\\', 'r']
        } else {
            seq![c]
        },
        Escaping::LeefHeader => if c == '|' {
            seq!['\\', '|']
        } else if c == '\n' || c == '\r' {
            seq![' ']
        } else {
            seq![c]
        },
        Escaping::LeefValue => if c == '\t' {
            seq![' ']
        } else if c == '\n' {
            seq!['\\', 'n']
        } else if c == '\r' {
            seq!['\\', 'r']
        } else if c == '=' {
            seq!['\\', '=']
        } else {
            seq![c]
        },
        Escaping::SyslogParam => if c == '\\' {
            seq!['\\', '\\']
        } else if c == '"' {
            seq!['\\', '"']
        } else if c == ']' {
            seq!['\\', ']']
        } else {
            seq![c]
        },
    }
}

/// `s` with every character replaced by its escaped image, in order.
pub open spec fn escaped(kind: Escaping, s: Seq<char>) -> Seq<char>
    decreases s.len(),
{
    if s.len() == 0 {
        Seq::empty()
    } else {
        escaped(kind, s.drop_last()) + escaped_char(kind, s.last())
    }
}

/// Append the escaped image of `c` to `out`.
fn push_escaped_char(out: &mut String, kind: Escaping, c: char)
    ensures
        final(out)@ == old(out)@ + escaped_char(kind, c),
{
    let ghost before = out@;
    match kind {
        Escaping::CefHeader => {
            if c == '\\' {
                out.push('\\');
                out.push('\\');
            } else if c == '|' {
                out.push('\\');
                out.push('|');
            } else if c == '\n' || c == '\r' {
                out.push(' ');
            } else {
                out.push(c);
            }
        },
        Escaping::CefExtension => {
            if c == '\\' {
                out.push('\\');
                out.push('\\');
            } else if c == '=' {
                out.push('\\');
                out.push('=');
            } else if c == '\n' {
                out.push('\\');
                out.push('n');
            } else if c == '\r' {
                out.push('\\');
                out.push('r');
            } else {
                out.push(c);
            }
        },
        Escaping::LeefHeader => {
            if c == '|' {
                out.push('\\');
                out.push('|');
            } else if c == '\n' || c == '\r' {
                out.push(' ');
            } else {
                out.push(c);
            }
        },
        Escaping::LeefValue => {
            if c == '\t' {
                out.push(' ');
            } else if c == '\n' {
                out.push('\\');
                out.push('n');
            } else if c == '\r' {
                out.push('\\');
                out.push('r');
            } else if c == '=' {
                out.push('\\');
                out.push('=');
            } else {
                out.push(c);
            }
        },
        Escaping::SyslogParam => {
            if c == '\\' {
                out.push('\\');
                out.push('\\');
            } else if c == '"' {
                out.push('\\');
                out.push('"');
            } else if c == ']' {
                out.push('\\');
                out.push(']');
            } else {
                out.push(c);
            }
        },
    }
    assert(out@ =~= before + escaped_char(kind, c));
}

/// Append the escaped image of `s` to `out`.
pub fn push_escaped(out: &mut String, kind: Escaping, s: &str)
    ensures
        final(out)@ == old(out)@ + escaped(kind, s@),
{
    let ghost start = out@;
    let n = s.unicode_len();
    let mut i: usize = 0;
    while i < n
        invariant
            n == s@.len(),
            i <= n,
            out@ == start + escaped(kind, s@.take(i as int)),
        decreases n - i,
    {
        let c = s.get_char(i);
        assert(s@.take(i + 1).drop_last() =~= s@.take(i as int));
        let ghost mid = out@;
        push_escaped_char(out, kind, c);
        assert(out@ =~= start + escaped(kind, s@.take(i + 1)));
        i = i + 1;
    }
    assert(s@.take(n as int) =~= s@);
}

/// The escaped image of `s` as a fresh string.
pub fn escape(kind: Escaping, s: &str) -> (r: String)
    ensures
        r@ == escaped(kind, s@),
{
    let mut out = String::new();
    push_escaped(&mut out, kind, s);
    assert(out@ =~= escaped(kind, s@));
    out
}

// ---------------------------------------------------------------------
// What a reader of the escaped text recovers
// ---------------------------------------------------------------------

/// The character a reader takes `\c` to stand for: `c` itself, or a line
/// break for `\n` / `\r` in formats that write line breaks that way.
pub open spec fn unescape_char(c: char, line_escapes: bool) -> char {
    if line_escapes && c == 'n' {
        '\n'
    } else if line_escapes && c == 'r' {
        '\r'
    } else {
        c
    }
}

/// Reading backslash escapes from left to right: a `\` and the character
/// after it stand for one character; any other character for itself.
pub open spec fn unescaped(s: Seq<char>, line_escapes: bool) -> Seq<char>
    decreases s.len(),
{
    if s.len() == 0 {
        Seq::empty()
    } else if s[0] == '\\' && s.len() >= 2 {
        seq![unescape_char(s[1], line_escapes)] + unescaped(s.skip(2), line_escapes)
    } else {
        seq![s[0]] + unescaped(s.skip(1), line_escapes)
    }
}

/// Read from left to right with backslash escapes, `s` holds no unescaped
/// `sep`: every `sep` in it is the second character of an escape.
pub open spec fn no_bare(s: Seq<char>, sep: char) -> bool
    decreases s.len(),
{
    if s.len() == 0 {
        true
    } else if s[0] == '\\' && s.len() >= 2 {
        no_bare(s.skip(2), sep)
    } else {
        s[0] != sep && no_bare(s.skip(1), sep)
    }
}

/// `s` with carriage returns and line feeds replaced by spaces.
pub open spec fn lines_flattened(s: Seq<char>) -> Seq<char> {
    s.map_values(|c: char| if c == '\n' || c == '\r' { ' ' } else { c })
}

/// Escaping works character by character: the image of a concatenation is
/// the concatenation of the images.
pub proof fn lemma_escaped_append(kind: Escaping, a: Seq<char>, b: Seq<char>)
    ensures
        escaped(kind, a + b) == escaped(kind, a) + escaped(kind, b),
    decreases b.len(),
{
    if b.len() == 0 {
        assert(a + b =~= a);
        assert(escaped(kind, a) + escaped(kind, b) =~= escaped(kind, a));
    } else {
        assert((a + b).drop_last() =~= a + b.drop_last());
        assert((a + b).last() == b.last());
        lemma_escaped_append(kind, a, b.drop_last());
        assert(escaped(kind, a + b) =~= escaped(kind, a) + escaped(kind, b));
    }
}

/// The image of a non-empty text: the first character's image, then the rest's.
pub proof fn lemma_escaped_first(kind: Escaping, s: Seq<char>)
    requires
        s.len() > 0,
    ensures
        escaped(kind, s) == escaped_char(kind, s[0]) + escaped(kind, s.drop_first()),
{
    assert(s =~= seq![s[0]] + s.drop_first());
    lemma_escaped_append(kind, seq![s[0]], s.drop_first());
    let one = seq![s[0]];
    assert(one.drop_last() =~= Seq::<char>::empty());
    assert(one.last() == s[0]);
    assert(escaped(kind, one.drop_last()) == Seq::<char>::empty());
    assert(escaped(kind, one) =~= escaped_char(kind, s[0]));
}

/// Whether `kind` writes every backslash, and every character it escapes,
/// as a backslash pair that a reader decodes back (with `\n` / `\r`
/// standing for line breaks when `line_escapes`).
pub open spec fn reader_recovers(kind: Escaping, line_escapes: bool) -> bool {
    ||| kind == Escaping::CefExtension && line_escapes
    ||| kind == Escaping::SyslogParam && !line_escapes
    ||| kind == Escaping::CefHeader && !line_escapes
}

/// A reader decoding backslash escapes gets back exactly the value that CEF
/// extension and syslog structured-data escaping were given; from a CEF
/// header field it gets the value with line breaks turned into spaces.
pub proof fn lemma_unescape_escaped(kind: Escaping, line_escapes: bool, s: Seq<char>)
    requires
        reader_recovers(kind, line_escapes),
    ensures
        unescaped(escaped(kind, s), line_escapes) == (if kind == Escaping::CefHeader {
            lines_flattened(s)
        } else {
            s
        }),
    decreases s.len(),
{
    if s.len() == 0 {
        assert(lines_flattened(s) =~= s);
    } else {
        let c = s[0];
        let rest = s.drop_first();
        let img = escaped_char(kind, c);
        let tail = escaped(kind, rest);
        lemma_escaped_first(kind, s);
        lemma_unescape_escaped(kind, line_escapes, rest);
        let out = img + tail;
        if img.len() == 1 {
            assert(out[0] == img[0]);
            assert(img[0] != '\\');
            assert(out.skip(1) =~= tail);
        } else {
            assert(img.len() == 2);
            assert(out[0] == '\\');
            assert(out[1] == img[1]);
            assert(out.skip(2) =~= tail);
        }
        if kind == Escaping::CefHeader {
            assert(lines_flattened(s) =~= seq![lines_flattened(s)[0]] + lines_flattened(rest));
            assert(unescaped(out, line_escapes) =~= lines_flattened(s));
        } else {
            assert(s =~= seq![c] + rest);
            assert(unescaped(out, line_escapes) =~= s);
        }
    }
}

/// The separators of each format never appear unescaped in an escaped
/// value: `|` in CEF header fields, `=` in CEF extension values, and `"`
/// and `]` in syslog structured-data parameter values.
pub proof fn lemma_escaped_no_bare_separator(kind: Escaping, sep: char, s: Seq<char>)
    requires
        (kind == Escaping::CefHeader && sep == '|') || (kind == Escaping::CefExtension && sep == '=')
            || (kind == Escaping::SyslogParam && (sep == '"' || sep == ']')),
    ensures
        no_bare(escaped(kind, s), sep),
    decreases s.len(),
{
    if s.len() > 0 {
        let img = escaped_char(kind, s[0]);
        let tail = escaped(kind, s.drop_first());
        lemma_escaped_first(kind, s);
        lemma_escaped_no_bare_separator(kind, sep, s.drop_first());
        let out = img + tail;
        if img.len() == 1 {
            assert(out[0] == img[0]);
            assert(out.skip(1) =~= tail);
        } else {
            assert(out[0] == '\\');
            assert(out.skip(2) =~= tail);
        }
    }
}

/// CEF and LEEF escaping leave no carriage return or line feed in the
/// value, so an escaped value never breaks a record across lines.
pub proof fn lemma_escaped_single_line(kind: Escaping, s: Seq<char>)
    requires
        kind != Escaping::SyslogParam,
    ensures
        forall|i: int|
            0 <= i < escaped(kind, s).len() ==> #[trigger] escaped(kind, s)[i] != '\n'
                && escaped(kind, s)[i] != '\r',
    decreases s.len(),
{
    if s.len() > 0 {
        lemma_escaped_single_line(kind, s.drop_last());
        let a = escaped(kind, s.drop_last());
        let b = escaped_char(kind, s.last());
        assert forall|i: int| 0 <= i < (a + b).len() implies #[trigger] (a + b)[i] != '\n' && (a
            + b)[i] != '\r' by {
            if i < a.len() {
                assert((a + b)[i] == a[i]);
            } else {
                assert((a + b)[i] == b[i - a.len()]);
            }
        }
    }
}

// ---------------------------------------------------------------------
// Occurrence of a text inside another
// ---------------------------------------------------------------------

/// `t` occurs in `s` as a run of consecutive characters.
#[verifier::opaque]
pub open spec fn contains_text(s: Seq<char>, t: Seq<char>) -> bool {
    exists|i: int| 0 <= i && i + t.len() <= s.len() && #[trigger] s.subrange(i, i + t.len()) == t
}

/// Every text occurs in itself.
pub proof fn lemma_contains_self(t: Seq<char>)
    ensures
        contains_text(t, t),
{
    reveal(contains_text);
    let i: int = 0;
    assert(t.subrange(i, i + t.len()) =~= t);
}

/// Occurrence is transitive: a text occurring in a part of `s` occurs in `s`.
pub proof fn lemma_contains_trans(s: Seq<char>, a: Seq<char>, t: Seq<char>)
    requires
        contains_text(s, a),
        contains_text(a, t),
    ensures
        contains_text(s, t),
{
    reveal(contains_text);
    let i = choose|i: int| 0 <= i && i + a.len() <= s.len() && #[trigger] s.subrange(i, i + a.len()) == a;
    let j = choose|j: int| 0 <= j && j + t.len() <= a.len() && #[trigger] a.subrange(j, j + t.len()) == t;
    assert(s.subrange(i + j, i + j + t.len()) =~= a.subrange(j, j + t.len()));
}

/// A text occurring in either part of a concatenation occurs in the whole.
pub broadcast proof fn lemma_contains_concat(a: Seq<char>, b: Seq<char>, t: Seq<char>)
    ensures
        (contains_text(a, t) || contains_text(b, t)) ==> #[trigger] contains_text(a + b, t),
{
    reveal(contains_text);
    if contains_text(a, t) {
        let i = choose|i: int| 0 <= i && i + t.len() <= a.len() && #[trigger] a.subrange(i, i + t.len()) == t;
        assert((a + b).subrange(i, i + t.len()) =~= a.subrange(i, i + t.len()));
    } else if contains_text(b, t) {
        let i = choose|i: int| 0 <= i && i + t.len() <= b.len() && #[trigger] b.subrange(i, i + t.len()) == t;
        assert((a + b).subrange(a.len() + i, a.len() + i + t.len()) =~= b.subrange(i, i + t.len()));
    }
}

/// Escaping works character by character, so a text occurring in `s`
/// occurs, escaped, in the escaped `s`.
pub proof fn lemma_escaped_contains(kind: Escaping, s: Seq<char>, t: Seq<char>)
    requires
        contains_text(s, t),
    ensures
        contains_text(escaped(kind, s), escaped(kind, t)),
{
    reveal(contains_text);
    let i = choose|i: int| 0 <= i && i + t.len() <= s.len() && #[trigger] s.subrange(i, i + t.len()) == t;
    let a = s.subrange(0, i);
    let b = s.subrange(i + t.len(), s.len() as int);
    assert(s =~= a + t + b);
    lemma_escaped_append(kind, a + t, b);
    lemma_escaped_append(kind, a, t);
    let ea = escaped(kind, a);
    let et = escaped(kind, t);
    let eb = escaped(kind, b);
    let j: int = ea.len() as int;
    assert(escaped(kind, s) == ea + et + eb);
    assert((ea + et + eb).subrange(j, j + et.len()) =~= et);
}

// ---------------------------------------------------------------------
// Decimal rendering
// ---------------------------------------------------------------------

/// The ASCII digit for `d < 10`.
pub open spec fn digit_char(d: nat) -> char {
    (48 + d) as char
}

/// Decimal rendering of a natural number, as `format!("{}", n)` writes it.
pub open spec fn dec(n: nat) -> Seq<char>
    decreases n,
{
    if n < 10 {
        seq![digit_char(n)]
    } else {
        dec(n / 10).push(digit_char(n % 10))
    }
}

/// Decimal rendering of an integer: a leading `-` for negative values.
pub open spec fn dec_int(i: int) -> Seq<char> {
    if i < 0 {
        seq!['-'] + dec((-i) as nat)
    } else {
        dec(i as nat)
    }
}

fn digit(d: u64) -> (c: char)
    requires
        d < 10,
    ensures
        c == digit_char(d as nat),
{
    let b: u8 = 48u8 + (d as u8);
    b as char
}

/// Append the decimal rendering of `n` to `out`.
pub fn push_u64(out: &mut String, n: u64)
    ensures
        final(out)@ == old(out)@ + dec(n as nat),
    decreases n,
{
    let ghost before = out@;
    if n >= 10 {
        push_u64(out, n / 10);
    }
    out.push(digit(n % 10));
    assert(out@ =~= before + dec(n as nat));
}

/// Append the decimal rendering of `i` to `out`.
pub fn push_i64(out: &mut String, i: i64)
    ensures
        final(out)@ == old(out)@ + dec_int(i as int),
{
    let ghost before = out@;
    if i < 0 {
        out.push('-');
        let m: u64 = ((-(i + 1)) as u64) + 1;
        push_u64(out, m);
        assert(out@ =~= before + dec_int(i as int));
    } else {
        push_u64(out, i as u64);
    }
}

/// Decimal rendering of `n` as a fresh string.
pub fn u64_to_string(n: u64) -> (r: String)
    ensures
        r@ == dec(n as nat),
{
    let mut out = String::new();
    push_u64(&mut out, n);
    assert(out@ =~= dec(n as nat));
    out
}

// ---------------------------------------------------------------------
// Searching
// ---------------------------------------------------------------------

/// Whether `s` begins with `prefix`.
pub fn starts_with(s: &str, prefix: &str) -> (r: bool)
    ensures
        r == prefix@.is_prefix_of(s@),
{
    let n = s.unicode_len();
    let m = prefix.unicode_len();
    if m > n {
        return false;
    }
    let mut i: usize = 0;
    while i < m
        invariant
            n == s@.len(),
            m == prefix@.len(),
            m <= n,
            i <= m,
            forall|k: int| 0 <= k < i ==> prefix@[k] == s@[k],
        decreases m - i,
    {
        if s.get_char(i) != prefix.get_char(i) {
            return false;
        }
        i = i + 1;
    }
    true
}

/// Whether `s` contains the character `c`.
pub fn contains_char(s: &str, c: char) -> (r: bool)
    ensures
        r == s@.contains(c),
{
    let n = s.unicode_len();
    let mut i: usize = 0;
    while i < n
        invariant
            n == s@.len(),
            i <= n,
            forall|k: int| 0 <= k < i ==> s@[k] != c,
        decreases n - i,
    {
        if s.get_char(i) == c {
            return true;
        }
        i = i + 1;
    }
    false
}

// ---------------------------------------------------------------------
// JSON strings
// ---------------------------------------------------------------------

/// Lower-case hexadecimal digit for `d < 16`.
pub open spec fn hex_digit(d: nat) -> char {
    if d < 10 {
        (48 + d) as char
    } else {
        (87 + d) as char
    }
}

/// How serde_json writes one character inside a JSON string: `"` and `\`
/// behind a backslash, backspace, tab, line feed, form feed and carriage
/// return as `\b \t \n \f \r`, the other control characters below
/// U+0020 as `\u00XX` with lower-case hex digits, and every other
/// character as itself.
pub open spec fn json_escaped_char(c: char) -> Seq<char> {
    if c == '"' {
        seq!['\\', '"']
    } else if c == '\\' {
        seq!['\\', '\\']
    } else if c == '\u{8}' {
        seq!['\\', 'b']
    } else if c == '\t' {
        seq!['\\', 't']
    } else if c == '\n' {
        seq!['\\', 'n']
    } else if c == '\u{c}' {
        seq!['\\', 'f']
    } else if c == '\r' {
        seq!['\\', 'r']
    } else if (c as u32) < 0x20 {
        seq!['\\', 'u', '0', '0', hex_digit(((c as u32) / 16) as nat), hex_digit(((c as u32) % 16) as nat)]
    } else {
        seq![c]
    }
}

/// The characters of `s`, each written as inside a JSON string.
pub open spec fn json_escaped(s: Seq<char>) -> Seq<char>
    decreases s.len(),
{
    if s.len() == 0 {
        Seq::empty()
    } else {
        json_escaped(s.drop_last()) + json_escaped_char(s.last())
    }
}

/// What `serde_json::to_string` gives for a string value: the escaped
/// characters between double quotes.
#[verifier::opaque]
pub open spec fn spec_json_string(s: Seq<char>) -> Seq<char> {
    seq!['"'] + json_escaped(s) + seq!['"']
}

/// A JSON string never holds a raw carriage return or line feed, so a JSON
/// document built from such strings stays on one line.
pub proof fn lemma_json_string_single_line(s: Seq<char>)
    ensures
        forall|i: int|
            0 <= i < spec_json_string(s).len() ==> #[trigger] spec_json_string(s)[i] != '\n'
                && spec_json_string(s)[i] != '\r',
{
    reveal(spec_json_string);
    lemma_json_escaped_single_line(s);
    let e = json_escaped(s);
    let q = seq!['"'] + e + seq!['"'];
    assert forall|i: int| 0 <= i < q.len() implies #[trigger] q[i] != '\n' && q[i] != '\r' by {
        if 1 <= i < 1 + e.len() {
            assert(q[i] == e[i - 1]);
        }
    }
}

proof fn lemma_json_escaped_single_line(s: Seq<char>)
    ensures
        forall|i: int|
            0 <= i < json_escaped(s).len() ==> #[trigger] json_escaped(s)[i] != '\n'
                && json_escaped(s)[i] != '\r',
    decreases s.len(),
{
    if s.len() > 0 {
        lemma_json_escaped_single_line(s.drop_last());
        let a = json_escaped(s.drop_last());
        let c = s.last();
        let b = json_escaped_char(c);
        if (c as u32) < 0x20 && c != '\u{8}' && c != '\t' && c != '\n' && c != '\u{c}' && c
            != '\r' {
            let hi = ((c as u32) / 16) as nat;
            let lo = ((c as u32) % 16) as nat;
            assert(hi < 2);
            assert(hex_digit(hi) == '0' || hex_digit(hi) == '1');
            assert(lo < 16);
            assert(hex_digit(lo) != '\n' && hex_digit(lo) != '\r');
        }
        assert forall|i: int| 0 <= i < (a + b).len() implies #[trigger] (a + b)[i] != '\n' && (a
            + b)[i] != '\r' by {
            if i < a.len() {
                assert((a + b)[i] == a[i]);
            } else {
                assert((a + b)[i] == b[i - a.len()]);
            }
        }
    }
}

/// The value of a lower-case hexadecimal digit.
pub open spec fn hex_value(c: char) -> nat {
    if '0' <= c <= '9' {
        (c as u32 - 48) as nat
    } else {
        (c as u32 - 87) as nat
    }
}

/// The character that `\c` stands for in a JSON string.
pub open spec fn json_escape_target(c: char) -> char {
    if c == 'b' {
        '\u{8}'
    } else if c == 't' {
        '\t'
    } else if c == 'n' {
        '\n'
    } else if c == 'f' {
        '\u{c}'
    } else if c == 'r' {
        '\r'
    } else {
        c
    }
}

/// Reading the body of a JSON string from left to right: `\uXXXX` stands
/// for the character with that hexadecimal code, `\` and another character
/// for `json_escape_target` of it, and any other character for itself.
pub open spec fn json_unescaped(t: Seq<char>) -> Seq<char>
    decreases t.len(),
{
    if t.len() == 0 {
        Seq::empty()
    } else if t[0] == '\\' && t.len() >= 6 && t[1] == 'u' {
        seq![
            ((hex_value(t[2]) * 4096 + hex_value(t[3]) * 256 + hex_value(t[4]) * 16 + hex_value(
                t[5],
            )) as u32) as char,
        ] + json_unescaped(t.skip(6))
    } else if t[0] == '\\' && t.len() >= 2 {
        seq![json_escape_target(t[1])] + json_unescaped(t.skip(2))
    } else {
        seq![t[0]] + json_unescaped(t.skip(1))
    }
}

proof fn lemma_json_escaped_append(a: Seq<char>, b: Seq<char>)
    ensures
        json_escaped(a + b) == json_escaped(a) + json_escaped(b),
    decreases b.len(),
{
    if b.len() == 0 {
        assert(a + b =~= a);
        assert(json_escaped(a) + json_escaped(b) =~= json_escaped(a));
    } else {
        assert((a + b).drop_last() =~= a + b.drop_last());
        assert((a + b).last() == b.last());
        lemma_json_escaped_append(a, b.drop_last());
        assert(json_escaped(a + b) =~= json_escaped(a) + json_escaped(b));
    }
}

proof fn lemma_hex_round_trip(d: nat)
    requires
        d < 16,
    ensures
        hex_value(hex_digit(d)) == d,
        hex_digit(d) != 'u',
{
}

/// Reading back the body of a JSON string gives exactly the characters
/// that were written into it.
pub proof fn lemma_json_string_round_trip(s: Seq<char>)
    ensures
        spec_json_string(s) == seq!['"'] + json_escaped(s) + seq!['"'],
        json_unescaped(json_escaped(s)) == s,
    decreases s.len(),
{
    reveal(spec_json_string);
    if s.len() > 0 {
        let c = s[0];
        let rest = s.drop_first();
        assert(s =~= seq![c] + rest);
        lemma_json_escaped_append(seq![c], rest);
        let one = seq![c];
        assert(one.drop_last() =~= Seq::<char>::empty());
        assert(one.last() == c);
        assert(json_escaped(one.drop_last()) == Seq::<char>::empty());
        assert(json_escaped(one) =~= json_escaped_char(c));
        lemma_json_string_round_trip(rest);
        let img = json_escaped_char(c);
        let tail = json_escaped(rest);
        let t = img + tail;
        if img.len() == 1 {
            assert(t[0] == img[0]);
            assert(t[0] == c);
            assert(t.skip(1) =~= tail);
            assert(json_unescaped(t) == seq![c] + json_unescaped(tail));
        } else if img.len() == 2 {
            assert(t[0] == '\\');
            assert(t[1] == img[1]);
            assert(t[1] != 'u');
            assert(json_escape_target(t[1]) == c);
            assert(t.skip(2) =~= tail);
            assert(json_unescaped(t) == seq![c] + json_unescaped(tail));
        } else {
            let hi = ((c as u32) / 16) as nat;
            let lo = ((c as u32) % 16) as nat;
            lemma_hex_round_trip(hi);
            lemma_hex_round_trip(lo);
            lemma_hex_round_trip(0);
            assert(t[0] == '\\');
            assert(t[1] == 'u');
            assert(t[2] == '0' && t[3] == '0');
            assert(t[4] == hex_digit(hi));
            assert(t[5] == hex_digit(lo));
            assert(t.skip(6) =~= tail);
            assert(hi * 16 + lo == c as u32);
            assert(hex_value(t[2]) == 0 && hex_value(t[3]) == 0);
            let v = hex_value(t[2]) * 4096 + hex_value(t[3]) * 256 + hex_value(t[4]) * 16 + hex_value(
                t[5],
            );
            assert(v == c as u32);
            vstd::utf8::char_u32_cast(c, v as u32);
            assert(json_unescaped(t) == seq![c] + json_unescaped(tail));
        }
        assert(json_unescaped(t) =~= s);
    }
}

/// Calls `serde_json::to_string` on a `&str`, which writes the string with
/// serde_json's escaping (`format_escaped_str_contents` and its `ESCAPE`
/// table, `CompactFormatter::write_char_escape`). Serializing a `str` into
/// memory cannot fail, so the error branch of serde_json is unreachable.
#[verifier::external_body]
pub(crate) fn json_string(s: &str) -> (r: String)
    ensures
        r@ == spec_json_string(s@),
{
    serde_json::to_string(s).unwrap_or_default()
}

} // verus!
