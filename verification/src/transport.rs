//! The computing side of the transports: HTTP authorization, Azure
//! Sentinel `SharedKey` signing, request bodies and headers, reading HTTP
//! responses, and TLS server names. Sockets and HTTP clients live with the
//! application; they hand these functions plain values.

use vstd::prelude::*;
use vstd::utf8::encode_utf8;
use crate::codec::{
    base64_decode, base64_encode, base64_encoded_len, gzip_compress, hmac_sha256, spec_base64_decode,
    spec_base64_encode, spec_gzip_result, spec_hmac_sha256,
};
use crate::config::{SiemConfig, SiemProvider};
use crate::error::SiemError;
use crate::event::opt_view;
use crate::format::parts::push_str;
use crate::text::{dec, push_u64};
use crate::time::{spec_rfc1123, Timestamp};

verus! {

// ---------------------------------------------------------------------
// Authorization
// ---------------------------------------------------------------------

/// Per-request Azure Sentinel `SharedKey` signing material.
#[derive(Debug, Clone)]
pub struct SentinelAuth {
    /// Log Analytics workspace ID (the `SharedKey {workspace_id}:{sig}` prefix)
    pub workspace_id: String,
    /// Base64-encoded shared key (primary or secondary workspace key)
    pub shared_key_b64: String,
    /// Value for the `Log-Type` header (the custom log table name)
    pub log_type: String,
}

/// How HTTP requests are authorized.
#[derive(Debug, Clone)]
pub enum HttpAuth {
    /// No `Authorization` header.
    NoAuth,
    /// A fixed `Authorization` header value.
    Header(String),
    /// Azure Sentinel `SharedKey`, signed per request.
    Sentinel(SentinelAuth),
}

/// What the specifications see of an authorization scheme.
pub enum HttpAuthView {
    NoAuth,
    Header(Seq<char>),
    Sentinel { workspace_id: Seq<char>, shared_key_b64: Seq<char>, log_type: Seq<char> },
}

impl View for HttpAuth {
    type V = HttpAuthView;

    open spec fn view(&self) -> HttpAuthView {
        match self {
            HttpAuth::NoAuth => HttpAuthView::NoAuth,
            HttpAuth::Header(h) => HttpAuthView::Header(h@),
            HttpAuth::Sentinel(s) => HttpAuthView::Sentinel {
                workspace_id: s.workspace_id@,
                shared_key_b64: s.shared_key_b64@,
                log_type: s.log_type@,
            },
        }
    }
}

/// A header `scheme + token` when there is a token.
pub open spec fn token_header(scheme: Seq<char>, token: Option<Seq<char>>) -> HttpAuthView {
    match token {
        Some(t) => HttpAuthView::Header(scheme + t),
        None => HttpAuthView::NoAuth,
    }
}

/// The authorization each provider uses: Splunk `Splunk <token>`, Elastic
/// and Datadog `Bearer <token>`, Sentinel `SharedKey` signing (which needs
/// a workspace ID and a shared key; the log type defaults to
/// `ArmatureEvent`), Sumo Logic the bare token, and the others basic auth
/// when both credentials are set, else `Bearer <token>`.
pub open spec fn expected_auth(c: SiemConfig) -> Result<HttpAuthView, Seq<char>> {
    match c.provider {
        SiemProvider::Splunk => Ok(token_header("Splunk "@, opt_view(c.token))),
        SiemProvider::Elastic | SiemProvider::Datadog => Ok(token_header("Bearer "@, opt_view(c.token))),
        SiemProvider::Sentinel => match (opt_view(c.workspace_id), opt_view(c.token)) {
            (None, _) => Err("Sentinel transport requires a workspace_id"@),
            (Some(_), None) => Err("Sentinel transport requires a shared key token"@),
            (Some(w), Some(k)) => Ok(HttpAuthView::Sentinel {
                workspace_id: w,
                shared_key_b64: k,
                log_type: match opt_view(c.index) {
                    Some(i) => i,
                    None => "ArmatureEvent"@,
                },
            }),
        },
        SiemProvider::SumoLogic => Ok(token_header(Seq::empty(), opt_view(c.token))),
        _ => match (opt_view(c.username), opt_view(c.password)) {
            (Some(u), Some(p)) => Ok(
                HttpAuthView::Header("Basic "@ + spec_base64_encode(encode_utf8(u + ":"@ + p))),
            ),
            _ => Ok(token_header("Bearer "@, opt_view(c.token))),
        },
    }
}

/// Basic-auth credentials small enough to base64-encode in memory.
pub open spec fn credentials_fit(c: SiemConfig) -> bool {
    match (opt_view(c.username), opt_view(c.password)) {
        (Some(u), Some(p)) => base64_encoded_len(encode_utf8(u + ":"@ + p).len() as int) <= usize::MAX,
        _ => true,
    }
}

fn header_with_scheme(scheme: &str, token: &Option<String>) -> (r: HttpAuth)
    ensures
        r@ == token_header(scheme@, opt_view(*token)),
{
    match token {
        Some(t) => {
            let mut h = String::new();
            push_str(&mut h, scheme);
            h.append(t.as_str());
            HttpAuth::Header(h)
        },
        None => HttpAuth::NoAuth,
    }
}

/// The HTTP authorization for a configuration.
pub fn http_auth(config: &SiemConfig) -> (r: Result<HttpAuth, SiemError>)
    requires
        credentials_fit(*config),
    ensures
        match r {
            Ok(a) => expected_auth(*config) == Ok::<HttpAuthView, Seq<char>>(a@),
            Err(e) => e matches SiemError::Config(m) && expected_auth(*config) == Err::<
                HttpAuthView,
                Seq<char>,
            >(m@),
        },
{
    match config.provider {
        SiemProvider::Splunk => Ok(header_with_scheme("Splunk ", &config.token)),
        SiemProvider::Elastic | SiemProvider::Datadog => Ok(header_with_scheme("Bearer ", &config.token)),
        SiemProvider::Sentinel => {
            let workspace_id = match &config.workspace_id {
                Some(w) => w.clone(),
                None => {
                    return Err(
                        SiemError::Config(String::from_str("Sentinel transport requires a workspace_id")),
                    );
                },
            };
            let shared_key_b64 = match &config.token {
                Some(k) => k.clone(),
                None => {
                    return Err(
                        SiemError::Config(
                            String::from_str("Sentinel transport requires a shared key token"),
                        ),
                    );
                },
            };
            let log_type = match &config.index {
                Some(i) => i.clone(),
                None => String::from_str("ArmatureEvent"),
            };
            Ok(HttpAuth::Sentinel(SentinelAuth { workspace_id, shared_key_b64, log_type }))
        },
        SiemProvider::SumoLogic => {
            let r = header_with_scheme("", &config.token);
            proof {
                reveal_strlit("");
            }
            assert(r@ == token_header(Seq::empty(), opt_view(config.token)));
            Ok(r)
        },
        _ => {
            match (&config.username, &config.password) {
                (Some(user), Some(pass)) => {
                    let mut cred = String::new();
                    cred.append(user.as_str());
                    push_str(&mut cred, ":");
                    cred.append(pass.as_str());
                    let bytes = cred.as_str().as_bytes();
                    let encoded = base64_encode(bytes);
                    let mut h = String::new();
                    push_str(&mut h, "Basic ");
                    h.append(encoded.as_str());
                    Ok(HttpAuth::Header(h))
                },
                _ => Ok(header_with_scheme("Bearer ", &config.token)),
            }
        },
    }
}

// ---------------------------------------------------------------------
// Azure Sentinel SharedKey signing
// ---------------------------------------------------------------------

/// The string Azure signs for a log upload: method, body length, content
/// type, `x-ms-date` header, and the fixed resource `/api/logs`.
pub open spec fn sentinel_canonical(content_length: nat, date: Seq<char>) -> Seq<char> {
    "POST\n"@ + dec(content_length) + "\napplication/json\nx-ms-date:"@ + date + "\n/api/logs"@
}

/// The `Authorization` value and the date for a signed request, or the
/// message of the error when the shared key is not valid base64.
pub open spec fn sentinel_signature_spec(workspace_id: Seq<char>, shared_key_b64: Seq<char>, content_length: nat, secs: i64) -> Result<
    (Seq<char>, Seq<char>),
    Seq<char>,
> {
    let date = spec_rfc1123(secs);
    match spec_base64_decode(encode_utf8(shared_key_b64)) {
        Err(m) => Err("invalid Sentinel shared key: "@ + m),
        Ok(key) => Ok(
            (
                "SharedKey "@ + workspace_id + ":"@ + spec_base64_encode(
                    spec_hmac_sha256(key, encode_utf8(sentinel_canonical(content_length, date))),
                ),
                date,
            ),
        ),
    }
}

/// Compute the Azure Sentinel `SharedKey` `Authorization` header value and
/// the RFC 1123 `x-ms-date` string for a body of `content_length` bytes
/// sent at `date`.
pub fn sentinel_signature(sentinel: &SentinelAuth, content_length: usize, date: &Timestamp) -> (r: Result<
    (String, String),
    SiemError,
>)
    ensures
        match r {
            Ok((auth, d)) => sentinel_signature_spec(
                sentinel.workspace_id@,
                sentinel.shared_key_b64@,
                content_length as nat,
                date@.0,
            ) == Ok::<(Seq<char>, Seq<char>), Seq<char>>((auth@, d@)),
            Err(e) => e matches SiemError::Auth(m) && sentinel_signature_spec(
                sentinel.workspace_id@,
                sentinel.shared_key_b64@,
                content_length as nat,
                date@.0,
            ) == Err::<(Seq<char>, Seq<char>), Seq<char>>(m@),
        },
{
    let rfc1123_date = date.to_rfc1123();
    let mut canonical = String::new();
    push_str(&mut canonical, "POST\n");
    push_u64(&mut canonical, content_length as u64);
    push_str(&mut canonical, "\napplication/json\nx-ms-date:");
    canonical.append(rfc1123_date.as_str());
    push_str(&mut canonical, "\n/api/logs");
    assert(canonical@ =~= sentinel_canonical(content_length as nat, rfc1123_date@));
    let decoded_key = match base64_decode(sentinel.shared_key_b64.as_str().as_bytes()) {
        Ok(k) => k,
        Err(m) => {
            let mut msg = String::new();
            push_str(&mut msg, "invalid Sentinel shared key: ");
            msg.append(m.as_str());
            return Err(SiemError::Auth(msg));
        },
    };
    let tag = hmac_sha256(decoded_key.as_slice(), canonical.as_str().as_bytes());
    let signature = base64_encode(tag.as_slice());
    let mut auth = String::new();
    push_str(&mut auth, "SharedKey ");
    auth.append(sentinel.workspace_id.as_str());
    push_str(&mut auth, ":");
    auth.append(signature.as_str());
    Ok((auth, rfc1123_date))
}

// ---------------------------------------------------------------------
// HTTP requests and responses
// ---------------------------------------------------------------------

/// A request ready to be posted: its body and its headers, in order.
#[derive(Debug, Clone)]
pub struct HttpRequestPlan {
    pub body: Vec<u8>,
    pub headers: Vec<(String, String)>,
}

/// A header as the specifications see it.
pub type HeaderView = (Seq<char>, Seq<char>);

/// The headers of a view of a plan.
pub open spec fn headers_view(h: Seq<(String, String)>) -> Seq<HeaderView> {
    Seq::new(h.len(), |i: int| (h[i].0@, h[i].1@))
}

/// The body sent for `data`: gzip-compressed when compression is on (or
/// the message of the compression error), the UTF-8 bytes otherwise.
pub open spec fn request_body(compression: bool, data: Seq<char>) -> Result<Seq<u8>, Seq<char>> {
    if compression {
        spec_gzip_result(encode_utf8(data))
    } else {
        Ok(encode_utf8(data))
    }
}

/// The headers sent: the content type, `Content-Encoding: gzip` when
/// compressing, then either the Sentinel signature headers (signed over the
/// length of the body actually sent) or the fixed `Authorization` header.
pub open spec fn request_headers(
    auth: HttpAuthView,
    compression: bool,
    content_type: Seq<char>,
    body_len: nat,
    secs: i64,
) -> Result<Seq<HeaderView>, Seq<char>> {
    let base = seq![("Content-Type"@, content_type)] + if compression {
        seq![("Content-Encoding"@, "gzip"@)]
    } else {
        Seq::empty()
    };
    match auth {
        HttpAuthView::Sentinel { workspace_id, shared_key_b64, log_type } => match sentinel_signature_spec(
            workspace_id,
            shared_key_b64,
            body_len,
            secs,
        ) {
            Err(m) => Err(m),
            Ok((a, d)) => Ok(
                base + seq![
                    ("Authorization"@, a),
                    ("x-ms-date"@, d),
                    ("Log-Type"@, log_type),
                    ("time-generated-field"@, "timestamp"@),
                ],
            ),
        },
        HttpAuthView::Header(h) => Ok(base + seq![("Authorization"@, h)]),
        HttpAuthView::NoAuth => Ok(base),
    }
}

fn header(name: &str, value: &str) -> (r: (String, String))
    ensures
        r.0@ == name@,
        r.1@ == value@,
{
    (String::from_str(name), String::from_str(value))
}

/// Prepare the body and headers for posting `data` at `date`.
pub fn prepare_http_request(
    auth: &HttpAuth,
    compression: bool,
    data: &str,
    content_type: &str,
    date: &Timestamp,
) -> (r: Result<HttpRequestPlan, SiemError>)
    ensures
        match request_body(compression, data@) {
            Err(m) => r matches Err(SiemError::Io(x)) && x@ == m,
            Ok(b) => match request_headers(auth@, compression, content_type@, b.len(), date@.0) {
                Ok(h) => r matches Ok(p) && p.body@ == b && headers_view(p.headers@) == h,
                Err(m) => r matches Err(SiemError::Auth(x)) && x@ == m,
            },
        },
{
    let body: Vec<u8> = if compression {
        match gzip_compress(data.as_bytes()) {
            Ok(v) => v,
            Err(m) => return Err(SiemError::Io(m)),
        }
    } else {
        data.as_bytes_vec()
    };
    let content_length = body.len();
    let mut headers: Vec<(String, String)> = Vec::new();
    headers.push(header("Content-Type", content_type));
    if compression {
        headers.push(header("Content-Encoding", "gzip"));
    }
    let ghost base = headers_view(headers@);
    match auth {
        HttpAuth::Sentinel(s) => {
            let (a, d) = match sentinel_signature(s, content_length, date) {
                Ok(x) => x,
                Err(e) => return Err(e),
            };
            headers.push((String::from_str("Authorization"), a));
            headers.push((String::from_str("x-ms-date"), d));
            headers.push((String::from_str("Log-Type"), s.log_type.clone()));
            headers.push(header("time-generated-field", "timestamp"));
        },
        HttpAuth::Header(h) => {
            headers.push((String::from_str("Authorization"), h.clone()));
        },
        HttpAuth::NoAuth => {},
    }
    assert(headers_view(headers@) =~= request_headers(
        auth@,
        compression,
        content_type@,
        body@.len(),
        date@.0,
    )->Ok_0);
    Ok(HttpRequestPlan { body, headers })
}

/// Parse a decimal `u64` the way `str::parse::<u64>` does: an optional `+`,
/// then one or more ASCII digits, with no overflow.
pub open spec fn parse_u64(s: Seq<char>) -> Option<u64> {
    let digits = if s.len() > 0 && s[0] == '+' {
        s.drop_first()
    } else {
        s
    };
    if digits.len() == 0 || !all_digits(digits) || digits_value(digits) > u64::MAX {
        None
    } else {
        Some(digits_value(digits) as u64)
    }
}

/// Every character is an ASCII digit.
pub open spec fn all_digits(s: Seq<char>) -> bool {
    forall|i: int| 0 <= i < s.len() ==> '0' <= #[trigger] s[i] <= '9'
}

/// The value of a string of decimal digits.
pub open spec fn digits_value(s: Seq<char>) -> nat
    decreases s.len(),
{
    if s.len() == 0 {
        0
    } else {
        digits_value(s.drop_last()) * 10 + ((s.last() as u32) - 48) as nat
    }
}

/// Parse a decimal `u64` (an optional leading `+`, then digits).
pub fn parse_u64_str(s: &str) -> (r: Option<u64>)
    ensures
        r == parse_u64(s@),
{
    let n = s.unicode_len();
    let mut i: usize = 0;
    if n > 0 && s.get_char(0) == '+' {
        i = 1;
    }
    let start = i;
    let ghost digits = if s@.len() > 0 && s@[0] == '+' {
        s@.drop_first()
    } else {
        s@
    };
    assert(digits =~= s@.skip(start as int));
    if start == n {
        return None;
    }
    let mut value: u64 = 0;
    while i < n
        invariant
            n == s@.len(),
            start <= i <= n,
            digits =~= s@.skip(start as int),
            digits == (if s@.len() > 0 && s@[0] == '+' {
                s@.drop_first()
            } else {
                s@
            }),
            all_digits(s@.subrange(start as int, i as int)),
            value as nat == digits_value(s@.subrange(start as int, i as int)),
        decreases n - i,
    {
        let c = s.get_char(i);
        let ghost pre = s@.subrange(start as int, i as int);
        let ghost next = s@.subrange(start as int, i + 1);
        assert(next.drop_last() =~= pre);
        assert(next.last() == c);
        if !('0' <= c && c <= '9') {
            assert(digits[i - start] == c);
            assert(!all_digits(digits));
            assert(parse_u64(s@) is None);
            return None;
        }
        let d: u64 = ((c as u32) - 48) as u64;
        if value > (u64::MAX - d) / 10 {
            proof {
                assert(value * 10 + d > u64::MAX) by (nonlinear_arith)
                    requires
                        value > (u64::MAX - d) / 10,
                        d <= 9,
                ;
                assert(digits_value(next) == value * 10 + d);
                if all_digits(digits) {
                    lemma_digits_value_monotone(digits, (i + 1 - start) as int);
                    assert(digits.take((i + 1 - start) as int) =~= next);
                }
                assert(parse_u64(s@) is None);
            }
            return None;
        }
        value = value * 10 + d;
        i = i + 1;
    }
    assert(s@.subrange(start as int, n as int) =~= digits);
    Some(value)
}

/// A longer run of digits is worth at least as much as any of its prefixes.
pub proof fn lemma_digits_value_monotone(s: Seq<char>, k: int)
    requires
        0 <= k <= s.len(),
        all_digits(s),
    ensures
        digits_value(s.take(k)) <= digits_value(s),
    decreases s.len() - k,
{
    if k < s.len() {
        lemma_digits_value_monotone(s, k + 1);
        assert(s.take(k + 1).drop_last() =~= s.take(k));
        assert('0' <= s[k] <= '9');
    } else {
        assert(s.take(k) =~= s);
    }
}

/// Milliseconds to wait for an HTTP `Retry-After` value: a delay in whole
/// seconds is converted (saturating), and a missing value or one that is not
/// a number (such as an HTTP date) means one second.
pub open spec fn retry_after_ms(header_value: Option<Seq<char>>) -> u64 {
    match header_value {
        Some(v) => match parse_u64(v) {
            Some(secs) => if secs * 1000 > u64::MAX {
                u64::MAX
            } else {
                (secs * 1000) as u64
            },
            None => 1000,
        },
        None => 1000,
    }
}

/// Convert an HTTP `Retry-After` header value into milliseconds.
pub fn retry_after_header_to_ms(header_value: Option<&str>) -> (r: u64)
    ensures
        r == retry_after_ms(match header_value {
            Some(v) => Some(v@),
            None => None,
        }),
{
    match header_value {
        Some(v) => match parse_u64_str(v) {
            Some(secs) => if secs > u64::MAX / 1000 {
                u64::MAX
            } else {
                secs * 1000
            },
            None => 1000,
        },
        None => 1000,
    }
}

/// How an HTTP response is read: 2xx is success, 429 is rate limiting
/// (with the `Retry-After` delay), 401/403 are authentication failures, and
/// anything else is a transport error carrying the status line and body.
/// `status_text` is the status as the HTTP client displays it (code and
/// reason phrase).
pub open spec fn response_error(
    status: u16,
    status_text: Seq<char>,
    retry_after: Option<Seq<char>>,
    body: Seq<char>,
) -> Option<ResponseErrorView> {
    if 200 <= status <= 299 {
        None
    } else if status == 429 {
        Some(ResponseErrorView::RateLimited(retry_after_ms(retry_after)))
    } else if status == 401 || status == 403 {
        Some(ResponseErrorView::Auth("Authentication failed: "@ + status_text))
    } else {
        Some(ResponseErrorView::Transport("HTTP "@ + status_text + " - "@ + body))
    }
}

/// The errors a response can produce, as the specifications see them.
pub enum ResponseErrorView {
    RateLimited(u64),
    Auth(Seq<char>),
    Transport(Seq<char>),
}

/// Read an HTTP response's status into success or an error.
pub fn classify_response(status: u16, status_text: &str, retry_after: Option<&str>, body: &str) -> (r: Result<
    (),
    SiemError,
>)
    ensures
        match response_error(
            status,
            status_text@,
            match retry_after {
                Some(v) => Some(v@),
                None => None,
            },
            body@,
        ) {
            None => r is Ok,
            Some(ResponseErrorView::RateLimited(ms)) => r == Err::<(), SiemError>(SiemError::RateLimited(ms)),
            Some(ResponseErrorView::Auth(m)) => r matches Err(SiemError::Auth(x)) && x@ == m,
            Some(ResponseErrorView::Transport(m)) => r matches Err(SiemError::Transport(x)) && x@ == m,
        },
{
    if 200 <= status && status <= 299 {
        Ok(())
    } else if status == 429 {
        Err(SiemError::RateLimited(retry_after_header_to_ms(retry_after)))
    } else if status == 401 || status == 403 {
        let mut m = String::new();
        push_str(&mut m, "Authentication failed: ");
        m.append(status_text);
        Err(SiemError::Auth(m))
    } else {
        let mut m = String::new();
        push_str(&mut m, "HTTP ");
        m.append(status_text);
        push_str(&mut m, " - ");
        m.append(body);
        Err(SiemError::Transport(m))
    }
}

// ---------------------------------------------------------------------
// TLS trust
// ---------------------------------------------------------------------

/// Which server certificates a TLS connection accepts.
#[derive(Debug, Clone, PartialEq, Eq)]
pub enum TlsTrust {
    /// Any certificate: verification is switched off.
    AcceptAny,
    /// Certificates issued by the CA certificates in this PEM file.
    CaFile(String),
    /// Certificates issued by the bundled public web roots.
    PublicRoots,
}

/// The certificates a configuration trusts. Verification is switched off
/// only when `tls_verify` is false; it never falls back to accepting any
/// certificate otherwise.
pub fn tls_trust(config: &SiemConfig) -> (r: TlsTrust)
    ensures
        r is AcceptAny <==> !config.tls_verify,
        r matches TlsTrust::CaFile(p) ==> config.tls_verify && opt_view(config.ca_cert_path) == Some(
            p@,
        ),
        r is PublicRoots <==> config.tls_verify && config.ca_cert_path is None,
{
    if !config.tls_verify {
        TlsTrust::AcceptAny
    } else {
        match &config.ca_cert_path {
            Some(p) => TlsTrust::CaFile(p.clone()),
            None => TlsTrust::PublicRoots,
        }
    }
}

// ---------------------------------------------------------------------
// TLS server names
// ---------------------------------------------------------------------

/// The host part of `host:port`: everything before the last `:` (the whole
/// endpoint when there is none), with the brackets of an IPv6 literal
/// such as `[::1]` removed.
pub open spec fn tls_host(endpoint: Seq<char>) -> Seq<char> {
    let host = match last_index_of(endpoint, ':') {
        Some(i) => endpoint.take(i),
        None => endpoint,
    };
    if host.len() >= 2 && host[0] == '[' && host.last() == ']' {
        host.subrange(1, host.len() - 1)
    } else {
        host
    }
}

/// Position of the last occurrence of `c` in `s`.
pub open spec fn last_index_of(s: Seq<char>, c: char) -> Option<int> {
    if exists|i: int| 0 <= i < s.len() && s[i] == c {
        Some(choose|i: int| 0 <= i < s.len() && s[i] == c && forall|j: int| i < j < s.len() ==> s[j] != c)
    } else {
        None
    }
}

/// The server name to present in the TLS handshake for `endpoint`.
pub fn tls_server_host(endpoint: &str) -> (r: String)
    ensures
        r@ == tls_host(endpoint@),
{
    let n = endpoint.unicode_len();
    let mut i: usize = n;
    while i > 0
        invariant
            n == endpoint@.len(),
            i <= n,
            forall|j: int| i <= j < n ==> endpoint@[j] != ':',
        ensures
            i > 0 ==> endpoint@[i - 1] == ':',
            forall|j: int| i <= j < n ==> endpoint@[j] != ':',
        decreases i,
    {
        if endpoint.get_char(i - 1) == ':' {
            break;
        }
        i = i - 1;
    }
    let end: usize = if i > 0 {
        i - 1
    } else {
        n
    };
    proof {
        if i > 0 {
            assert(endpoint@[i - 1] == ':');
            assert(exists|k: int| 0 <= k < endpoint@.len() && endpoint@[k] == ':');
            let w = choose|k: int|
                0 <= k < endpoint@.len() && endpoint@[k] == ':' && forall|j: int|
                    k < j < endpoint@.len() ==> endpoint@[j] != ':';
            assert(0 <= (i - 1) < endpoint@.len() && endpoint@[i - 1] == ':' && forall|j: int|
                (i - 1) < j < endpoint@.len() ==> endpoint@[j] != ':');
            if w < i - 1 {
                assert(endpoint@[i - 1] != ':');
            }
            if w > i - 1 {
                assert(endpoint@[w] != ':');
            }
            assert(last_index_of(endpoint@, ':') == Some((i - 1) as int));
        } else {
            assert(!exists|k: int| 0 <= k < endpoint@.len() && endpoint@[k] == ':');
        }
    }
    let host = endpoint.substring_char(0, end);
    assert(host@ =~= match last_index_of(endpoint@, ':') {
        Some(k) => endpoint@.take(k),
        None => endpoint@,
    });
    let m = host.unicode_len();
    if m >= 2 && host.get_char(0) == '[' && host.get_char(m - 1) == ']' {
        String::from_str(host.substring_char(1, m - 1))
    } else {
        String::from_str(host)
    }
}

// ---------------------------------------------------------------------
// UDP
// ---------------------------------------------------------------------

/// UDP transport (for Syslog): datagrams go to `endpoint`.
#[derive(Debug, Clone)]
pub struct UdpTransport {
    endpoint: String,
}

impl UdpTransport {
    /// Create a new UDP transport for the configured endpoint.
    pub fn new(config: &SiemConfig) -> (r: Result<UdpTransport, SiemError>)
        ensures
            r matches Ok(t) && t.endpoint()@ == config.endpoint@,
    {
        Ok(UdpTransport { endpoint: config.endpoint.clone() })
    }

    /// The `host:port` datagrams are sent to.
    pub closed spec fn endpoint(&self) -> String {
        self.endpoint
    }

    /// The `host:port` datagrams are sent to.
    pub fn endpoint_str(&self) -> (r: &str)
        ensures
            r@ == self.endpoint()@,
    {
        self.endpoint.as_str()
    }
}

} // verus!
