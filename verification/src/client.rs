//! The decisions of the SIEM client: which failures to retry and how long
//! to wait, when to flush a batch, and whether a background flush runs.
//! The application runs the loops around them and does the sending.

use vstd::prelude::*;
use crate::config::SiemConfig;
use crate::error::SiemError;
use crate::event::SiemEvent;
use crate::time::{max_duration_nanos, saturated_product, Duration};
use crate::transport::{response_error, ResponseErrorView};

verus! {

// ---------------------------------------------------------------------
// Retries
// ---------------------------------------------------------------------

/// Errors that are permanent: bad configuration, failed authentication,
/// unsupported provider or format, malformed data, a full batch.
pub open spec fn is_permanent(e: SiemError) -> bool {
    match e {
        SiemError::Config(_) | SiemError::Auth(_) | SiemError::UnsupportedProvider(_)
        | SiemError::UnsupportedFormat(_) | SiemError::Serialization(_) | SiemError::UrlParse(_)
        | SiemError::BatchFull(_) => true,
        _ => false,
    }
}

/// Whether an error from the transport represents a transient failure
/// worth retrying, as opposed to a permanent/configuration error that will
/// never succeed on retry.
pub fn is_retryable(err: &SiemError) -> (r: bool)
    ensures
        r == !is_permanent(*err),
{
    match err {
        SiemError::Config(_) | SiemError::Auth(_) | SiemError::UnsupportedProvider(_)
        | SiemError::UnsupportedFormat(_) | SiemError::Serialization(_) | SiemError::UrlParse(_)
        | SiemError::BatchFull(_) => false,
        _ => true,
    }
}

/// Which failures a client sends again: every failed HTTP response other
/// than 401, 403 and 429 (in particular every 5xx server error) is a
/// transport error, and transport, connection, HTTP-client, I/O and
/// timeout errors are transient, so they are retried while retries remain;
/// 429 is a rate limit, also retried after the server's delay; 401 and 403
/// are authentication failures, which are not retried.
pub proof fn lemma_failed_responses_retried(
    status: u16,
    status_text: Seq<char>,
    retry_after: Option<Seq<char>>,
    body: Seq<char>,
)
    ensures
        500 <= status <= 599 ==> response_error(status, status_text, retry_after, body) matches Some(
            ResponseErrorView::Transport(_),
        ),
        status == 429 ==> response_error(status, status_text, retry_after, body) matches Some(
            ResponseErrorView::RateLimited(_),
        ),
        status == 401 || status == 403 ==> response_error(status, status_text, retry_after, body) matches Some(
            ResponseErrorView::Auth(_),
        ),
        forall|m: String| !#[trigger] is_permanent(SiemError::Transport(m)),
        forall|m: String| !#[trigger] is_permanent(SiemError::Connection(m)),
        forall|m: String| !#[trigger] is_permanent(SiemError::Http(m)),
        forall|m: String| !#[trigger] is_permanent(SiemError::Io(m)),
        forall|ms: u64| !#[trigger] is_permanent(SiemError::RateLimited(ms)),
        forall|ms: u64| !#[trigger] is_permanent(SiemError::Timeout(ms)),
        forall|m: String| #[trigger] is_permanent(SiemError::Auth(m)),
{
}

/// `2^e`.
pub open spec fn two_pow(e: nat) -> nat
    decreases e,
{
    if e == 0 {
        1
    } else {
        2 * two_pow((e - 1) as nat)
    }
}

/// `2^e`, or `u32::MAX` when it does not fit.
pub open spec fn two_pow_saturating(e: nat) -> nat {
    if two_pow(e) > u32::MAX {
        u32::MAX as nat
    } else {
        two_pow(e)
    }
}

pub proof fn lemma_two_pow_monotone(a: nat, b: nat)
    requires
        a <= b,
    ensures
        two_pow(a) <= two_pow(b),
    decreases b,
{
    if a < b {
        lemma_two_pow_monotone(a, (b - 1) as nat);
    }
}

/// `2u32.saturating_pow(e)`.
pub fn pow2_saturating(e: u32) -> (r: u32)
    ensures
        r == two_pow_saturating(e as nat),
{
    let mut r: u64 = 1;
    let mut k: u32 = 0;
    while k < e
        invariant
            k <= e,
            r == two_pow(k as nat),
            r <= u32::MAX,
        decreases e - k,
    {
        r = r * 2;
        k = k + 1;
        if r > u32::MAX as u64 {
            proof {
                lemma_two_pow_monotone(k as nat, e as nat);
            }
            return u32::MAX;
        }
    }
    r as u32
}

/// The wait before the next attempt, in nanoseconds: the server's delay
/// when rate limited, else `retry_delay * 2^attempt` (saturating).
pub open spec fn backoff_nanos(err: SiemError, attempt: nat, retry_delay: nat) -> nat {
    match err {
        SiemError::RateLimited(ms) => ms as nat * 1_000_000,
        _ => saturated_product(retry_delay, two_pow_saturating(attempt)),
    }
}

/// Backoff never shrinks from one attempt to the next, and the first retry
/// waits exactly the configured delay (for every error but rate limiting,
/// which waits what the server asked for).
pub proof fn lemma_backoff_grows(err: SiemError, a: nat, b: nat, retry_delay: nat)
    requires
        a <= b,
        !(err is RateLimited),
        retry_delay <= max_duration_nanos(),
    ensures
        backoff_nanos(err, a, retry_delay) <= backoff_nanos(err, b, retry_delay),
        backoff_nanos(err, 0, retry_delay) == retry_delay,
{
    lemma_two_pow_monotone(a, b);
    let ka = two_pow_saturating(a);
    let kb = two_pow_saturating(b);
    assert(ka <= kb);
    assert(retry_delay * ka <= retry_delay * kb) by (nonlinear_arith)
        requires
            ka <= kb,
    ;
    assert(two_pow(0) == 1);
    assert(retry_delay * 1 == retry_delay);
    assert(retry_delay / 1_000_000_000 <= u64::MAX) by (nonlinear_arith)
        requires
            retry_delay <= max_duration_nanos(),
            max_duration_nanos() == u64::MAX * 1_000_000_000 + 999_999_999,
    ;
    assert(retry_delay * kb / 1_000_000_000 <= u64::MAX ==> retry_delay * ka / 1_000_000_000
        <= u64::MAX) by (nonlinear_arith)
        requires
            retry_delay * ka <= retry_delay * kb,
    ;
    assert(retry_delay * ka / 1_000_000_000 > u64::MAX ==> retry_delay * ka > max_duration_nanos())
        by (nonlinear_arith)
        requires
            max_duration_nanos() == u64::MAX * 1_000_000_000 + 999_999_999,
    ;
}

/// Retry settings: at most `max_retries` retries after the first attempt,
/// starting from `retry_delay` and doubling.
#[derive(Debug, Clone, Copy)]
pub struct RetryPolicy {
    pub max_retries: u32,
    pub retry_delay: Duration,
}

impl RetryPolicy {
    /// The retry settings of a configuration.
    pub fn from_config(config: &SiemConfig) -> (p: RetryPolicy)
        ensures
            p.max_retries == config.max_retries,
            p.retry_delay == config.retry_delay,
    {
        RetryPolicy { max_retries: config.max_retries, retry_delay: config.retry_delay }
    }

    /// After attempt number `attempt` (counting from 0) failed with `err`:
    /// `None` to give up (retries used up, or a permanent error), else the
    /// time to wait before trying again.
    pub fn next_retry(&self, attempt: u32, err: &SiemError) -> (r: Option<Duration>)
        ensures
            r is None <==> (attempt >= self.max_retries || is_permanent(*err)),
            r matches Some(d) ==> d@ == backoff_nanos(*err, attempt as nat, self.retry_delay@),
    {
        if attempt >= self.max_retries || !is_retryable(err) {
            return None;
        }
        match err {
            SiemError::RateLimited(ms) => Some(Duration::from_millis(*ms)),
            _ => Some(self.retry_delay.saturating_mul(pow2_saturating(attempt))),
        }
    }
}

// ---------------------------------------------------------------------
// Batching
// ---------------------------------------------------------------------

/// Events waiting to be sent together. The batch never reaches its
/// capacity: it hands its events back for sending as soon as it fills.
#[derive(Debug)]
pub struct Batch {
    events: Vec<SiemEvent>,
    max_len: usize,
}

/// What `add` does with an event.
pub enum BatchStep {
    /// The event waits in the batch.
    Queued,
    /// The batch filled up: these events (the batch's contents and the new
    /// event) are to be sent now, and the batch is empty again.
    Flush(Vec<SiemEvent>),
}

impl View for Batch {
    type V = Seq<SiemEvent>;

    closed spec fn view(&self) -> Seq<SiemEvent> {
        self.events@
    }
}

impl Batch {
    #[verifier::type_invariant]
    closed spec fn wf(self) -> bool {
        1 <= self.max_len && self.events@.len() < self.max_len
    }

    /// The batch's capacity.
    pub closed spec fn capacity(&self) -> nat {
        self.max_len as nat
    }

    /// An empty batch holding up to `batch_size` events (at least one).
    pub fn new(batch_size: usize) -> (b: Batch)
        ensures
            b@.len() == 0,
            b.capacity() == if batch_size == 0 {
                1
            } else {
                batch_size as nat
            },
    {
        let max_len = if batch_size == 0 {
            1
        } else {
            batch_size
        };
        Batch { events: Vec::new(), max_len }
    }

    /// Number of waiting events.
    pub fn len(&self) -> (n: usize)
        ensures
            n == self@.len(),
            n < self.capacity(),
    {
        proof {
            use_type_invariant(self);
        }
        self.events.len()
    }

    /// Add an event; when this fills the batch, its contents are handed
    /// back for sending and the batch starts over empty. The batch never
    /// holds `capacity()` events between calls, so an event always fits.
    pub fn add(&mut self, event: SiemEvent) -> (r: BatchStep)
        ensures
            final(self).capacity() == old(self).capacity(),
            final(self)@.len() < final(self).capacity(),
            old(self)@.len() < old(self).capacity(),
            old(self)@.len() + 1 == old(self).capacity() ==> (r matches BatchStep::Flush(v) && v@
                == old(self)@.push(event) && final(self)@.len() == 0),
            old(self)@.len() + 1 < old(self).capacity() ==> (r is Queued && final(self)@ == old(
                self,
            )@.push(event)),
    {
        proof {
            use_type_invariant(&*self);
        }
        let max_len = self.max_len;
        let mut events: Vec<SiemEvent> = Vec::new();
        std::mem::swap(&mut events, &mut self.events);
        events.push(event);
        if events.len() >= max_len {
            BatchStep::Flush(events)
        } else {
            self.events = events;
            BatchStep::Queued
        }
    }

    /// Take every waiting event, leaving the batch empty.
    pub fn take(&mut self) -> (v: Vec<SiemEvent>)
        ensures
            v@ == old(self)@,
            final(self)@.len() == 0,
            final(self).capacity() == old(self).capacity(),
    {
        proof {
            use_type_invariant(&*self);
        }
        let mut events: Vec<SiemEvent> = Vec::new();
        std::mem::swap(&mut events, &mut self.events);
        events
    }
}

/// Whether a configuration runs the background time-based flush: batching
/// is on and the flush interval is not zero.
pub fn background_flush_enabled(config: &SiemConfig) -> (r: bool)
    ensures
        r == (config.batching_enabled && config.batch_flush_interval@ != 0),
{
    config.batching_enabled && !config.batch_flush_interval.is_zero()
}

} // verus!
