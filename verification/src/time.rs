//! Points in time and spans of time, held as plain integers.

use vstd::prelude::*;

verus! {

// ---------------------------------------------------------------------
// Timestamps
// ---------------------------------------------------------------------

/// Earliest second representable as a UTC date-time (year -262143, Jan 1, 00:00:00).
pub const TIMESTAMP_MIN_SECS: i64 = -8334601315200;

/// Latest second representable as a UTC date-time (year 262142, Dec 31, 23:59:59).
pub const TIMESTAMP_MAX_SECS: i64 = 8210266876799;

/// Seconds and nanoseconds that denote a representable UTC date-time.
pub open spec fn valid_timestamp(secs: int, nanos: int) -> bool {
    &&& TIMESTAMP_MIN_SECS <= secs <= TIMESTAMP_MAX_SECS
    &&& 0 <= nanos < 1_000_000_000
}

/// RFC 3339 rendering by chrono (`to_rfc3339_opts` with automatic sub-second
/// digits); with `use_z` the UTC offset is written `Z`, otherwise `+00:00`.
pub uninterp spec fn spec_rfc3339(secs: i64, nanos: u32, use_z: bool) -> Seq<char>;

/// RFC 1123 rendering by chrono with the pattern `%a, %d %b %Y %H:%M:%S GMT`.
pub uninterp spec fn spec_rfc1123(secs: i64) -> Seq<char>;

/// Calls `chrono::Utc::now` and returns its seconds since the Unix epoch
/// and its sub-second nanoseconds. chrono builds this value from the system
/// clock's duration since the epoch, so the seconds are non-negative, the
/// nanoseconds are below one second, and the instant is representable.
/// (chrono panics if the system clock reads earlier than the epoch.)
#[verifier::external_body]
fn utc_now_parts() -> (r: (i64, u32))
    ensures
        valid_timestamp(r.0 as int, r.1 as int),
        r.0 >= 0,
{
    let now = chrono::Utc::now();
    (now.timestamp(), now.timestamp_subsec_nanos())
}

/// Calls `chrono::DateTime::from_timestamp` and `to_rfc3339_opts`
/// (`SecondsFormat::AutoSi`). For a representable instant the conversion
/// succeeds, so the `unwrap` never fires under the precondition.
#[verifier::external_body]
fn rfc3339_of(secs: i64, nanos: u32, use_z: bool) -> (r: String)
    requires
        valid_timestamp(secs as int, nanos as int),
    ensures
        r@ == spec_rfc3339(secs, nanos, use_z),
{
    chrono::DateTime::from_timestamp(secs, nanos)
        .unwrap()
        .to_rfc3339_opts(chrono::SecondsFormat::AutoSi, use_z)
}

/// Calls `chrono::DateTime::from_timestamp` and formats the instant with
/// `%a, %d %b %Y %H:%M:%S GMT` (RFC 1123, as HTTP dates are written).
#[verifier::external_body]
fn rfc1123_of(secs: i64) -> (r: String)
    requires
        valid_timestamp(secs as int, 0),
    ensures
        r@ == spec_rfc1123(secs),
{
    chrono::DateTime::from_timestamp(secs, 0).unwrap().format("%a, %d %b %Y %H:%M:%S GMT").to_string()
}

/// An instant in UTC, as seconds since the Unix epoch plus sub-second nanoseconds.
#[derive(Clone, Copy, Debug, PartialEq, Eq)]
pub struct Timestamp {
    secs: i64,
    nanos: u32,
}

impl View for Timestamp {
    type V = (i64, u32);

    closed spec fn view(&self) -> (i64, u32) {
        (self.secs, self.nanos)
    }
}

impl Timestamp {
    #[verifier::type_invariant]
    closed spec fn wf(self) -> bool {
        valid_timestamp(self.secs as int, self.nanos as int)
    }

    /// The instant `secs` seconds and `nanos` nanoseconds after the epoch,
    /// if it is representable.
    pub fn from_parts(secs: i64, nanos: u32) -> (r: Option<Timestamp>)
        ensures
            r is Some <==> valid_timestamp(secs as int, nanos as int),
            r matches Some(t) ==> t@ == (secs, nanos),
    {
        if TIMESTAMP_MIN_SECS <= secs && secs <= TIMESTAMP_MAX_SECS && nanos < 1_000_000_000 {
            Some(Timestamp { secs, nanos })
        } else {
            None
        }
    }

    /// The current instant, read from the system clock.
    pub fn now() -> (r: Timestamp)
        ensures
            r@.0 >= 0,
    {
        let (secs, nanos) = utc_now_parts();
        Timestamp { secs, nanos }
    }

    /// Whole seconds since the epoch.
    pub fn timestamp(&self) -> (r: i64)
        ensures
            r == self@.0,
            valid_timestamp(self@.0 as int, self@.1 as int),
    {
        proof {
            use_type_invariant(self);
        }
        self.secs
    }

    /// Nanoseconds past the whole second.
    pub fn timestamp_subsec_nanos(&self) -> (r: u32)
        ensures
            r == self@.1,
            r < 1_000_000_000,
    {
        proof {
            use_type_invariant(self);
        }
        self.nanos
    }

    /// Milliseconds since the epoch (sub-millisecond digits dropped).
    pub fn timestamp_millis(&self) -> (r: i64)
        ensures
            r == self@.0 * 1000 + self@.1 / 1_000_000,
    {
        proof {
            use_type_invariant(self);
        }
        self.secs * 1000 + (self.nanos / 1_000_000) as i64
    }

    /// RFC 3339 rendering with a `+00:00` offset.
    pub fn to_rfc3339(&self) -> (r: String)
        ensures
            r@ == spec_rfc3339(self@.0, self@.1, false),
    {
        proof {
            use_type_invariant(self);
        }
        rfc3339_of(self.secs, self.nanos, false)
    }

    /// RFC 3339 rendering with a `Z` offset (the form used in JSON documents).
    pub fn to_rfc3339_z(&self) -> (r: String)
        ensures
            r@ == spec_rfc3339(self@.0, self@.1, true),
    {
        proof {
            use_type_invariant(self);
        }
        rfc3339_of(self.secs, self.nanos, true)
    }

    /// RFC 1123 rendering (`Mon, 15 Jan 2024 12:00:00 GMT`), seconds precision.
    pub fn to_rfc1123(&self) -> (r: String)
        ensures
            r@ == spec_rfc1123(self@.0),
    {
        proof {
            use_type_invariant(self);
        }
        rfc1123_of(self.secs)
    }
}

// ---------------------------------------------------------------------
// Durations
// ---------------------------------------------------------------------

/// Nanoseconds per second.
pub const NANOS_PER_SEC: u32 = 1_000_000_000;

/// A span of time: whole seconds plus nanoseconds below one second.
#[derive(Clone, Copy, Debug, PartialEq, Eq, Structural)]
pub struct Duration {
    secs: u64,
    nanos: u32,
}

/// Total nanoseconds of a span given as seconds and nanoseconds.
pub open spec fn total_nanos(secs: u64, nanos: u32) -> nat {
    (secs as nat) * 1_000_000_000 + (nanos as nat)
}

/// The largest span: `u64::MAX` seconds and 999,999,999 nanoseconds.
pub open spec fn max_duration_nanos() -> nat {
    total_nanos(u64::MAX, 999_999_999)
}

impl View for Duration {
    type V = nat;

    /// A span is viewed as its total number of nanoseconds.
    closed spec fn view(&self) -> nat {
        total_nanos(self.secs, self.nanos)
    }
}

impl Duration {
    #[verifier::type_invariant]
    closed spec fn wf(self) -> bool {
        self.nanos < NANOS_PER_SEC
    }

    /// A span of `secs` seconds.
    pub fn from_secs(secs: u64) -> (d: Duration)
        ensures
            d@ == secs as nat * 1_000_000_000,
    {
        Duration { secs, nanos: 0 }
    }

    /// A span of `millis` milliseconds.
    pub fn from_millis(millis: u64) -> (d: Duration)
        ensures
            d@ == millis as nat * 1_000_000,
    {
        let d = Duration { secs: millis / 1000, nanos: ((millis % 1000) as u32) * 1_000_000 };
        assert(d@ == millis as nat * 1_000_000) by (nonlinear_arith)
            requires
                d@ == (millis / 1000) as nat * 1_000_000_000 + ((millis % 1000) * 1_000_000) as nat,
        ;
        d
    }

    /// The empty span.
    pub fn zero() -> (d: Duration)
        ensures
            d@ == 0,
    {
        Duration { secs: 0, nanos: 0 }
    }

    /// Whole seconds in the span.
    pub fn as_secs(&self) -> (r: u64)
        ensures
            r as nat == self@ / 1_000_000_000,
    {
        proof {
            use_type_invariant(self);
        }
        self.secs
    }

    /// Nanoseconds past the whole seconds.
    pub fn subsec_nanos(&self) -> (r: u32)
        ensures
            r as nat == self@ % 1_000_000_000,
    {
        proof {
            use_type_invariant(self);
        }
        self.nanos
    }

    /// Whether the span is empty.
    pub fn is_zero(&self) -> (b: bool)
        ensures
            b == (self@ == 0),
    {
        self.secs == 0 && self.nanos == 0
    }

    /// The largest span.
    pub fn max() -> (d: Duration)
        ensures
            d@ == max_duration_nanos(),
    {
        Duration { secs: u64::MAX, nanos: 999_999_999 }
    }

    /// `self * rhs`, or the largest span when the product's whole seconds
    /// do not fit in 64 bits.
    pub fn saturating_mul(&self, rhs: u32) -> (d: Duration)
        ensures
            d@ == saturated_product(self@, rhs as nat),
    {
        proof {
            use_type_invariant(self);
        }
        assert((self.nanos as u64) * (rhs as u64) <= 999_999_999 * 4_294_967_295) by (nonlinear_arith)
            requires
                self.nanos < 1_000_000_000,
                rhs <= 4_294_967_295,
        ;
        let nanos_total: u64 = (self.nanos as u64) * (rhs as u64);
        let extra: u64 = nanos_total / 1_000_000_000;
        let rem: u32 = (nanos_total % 1_000_000_000) as u32;
        assert((self.secs as u128) * (rhs as u128) <= 18_446_744_073_709_551_615 * 4_294_967_295) by (nonlinear_arith)
            requires
                self.secs <= 18_446_744_073_709_551_615u64,
                rhs <= 4_294_967_295,
        ;
        let secs_total: u128 = (self.secs as u128) * (rhs as u128) + (extra as u128);
        proof {
            let v = self@;
            assert(v == self.secs as nat * 1_000_000_000 + self.nanos as nat);
            assert(nanos_total as nat == extra as nat * 1_000_000_000 + rem as nat);
            assert(v * rhs as nat == secs_total as nat * 1_000_000_000 + rem as nat) by (nonlinear_arith)
                requires
                    v == self.secs as nat * 1_000_000_000 + self.nanos as nat,
                    nanos_total as nat == self.nanos as nat * rhs as nat,
                    nanos_total as nat == extra as nat * 1_000_000_000 + rem as nat,
                    secs_total as nat == self.secs as nat * rhs as nat + extra as nat,
            ;
            assert((v * rhs as nat) / 1_000_000_000 == secs_total as nat) by (nonlinear_arith)
                requires
                    v * rhs as nat == secs_total as nat * 1_000_000_000 + rem as nat,
                    rem < 1_000_000_000,
            ;
        }
        if secs_total > u64::MAX as u128 {
            Duration::max()
        } else {
            Duration { secs: secs_total as u64, nanos: rem }
        }
    }
}

/// `d * k` nanoseconds, or the largest span when the whole seconds overflow 64 bits.
pub open spec fn saturated_product(d: nat, k: nat) -> nat {
    if (d * k) / 1_000_000_000 <= u64::MAX {
        d * k
    } else {
        max_duration_nanos()
    }
}

} // verus!
