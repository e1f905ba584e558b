//! Wall-clock timestamps on spans and events.
//!
//! A [`Timestamp`] holds a non-negative Unix time as whole seconds plus a
//! nanosecond remainder. The range accepted is the range that the RFC 3339
//! renderer can represent.
use vstd::prelude::*;

verus! {

/// The largest number of whole seconds since the Unix epoch that the
/// RFC 3339 renderer accepts (the last second of its largest year).
pub const MAX_TIMESTAMP_SECS: i64 = 8_210_266_876_799;

/// A wall-clock instant: non-negative whole seconds since the Unix epoch,
/// plus nanoseconds within the second.
#[derive(Debug, Clone, Copy, PartialEq, Eq, Structural)]
pub struct Timestamp {
    /// Whole seconds since 1970-01-01T00:00:00Z.
    pub secs: i64,
    /// Nanoseconds within the second, below one billion.
    pub nanos: u32,
}

impl Timestamp {
    /// A timestamp is valid when its seconds lie in the renderable range and
    /// its nanosecond part is below one billion.
    pub open spec fn wf(self) -> bool {
        0 <= self.secs <= MAX_TIMESTAMP_SECS && self.nanos < 1_000_000_000
    }

    /// Returns the timestamp with the given parts, or `None` when the parts
    /// lie outside the accepted range.
    pub fn from_parts(secs: i64, nanos: u32) -> (r: Option<Timestamp>)
        ensures
            r matches Some(t) ==> t == (Timestamp { secs, nanos }) && t.wf(),
            r is Some <==> 0 <= secs <= MAX_TIMESTAMP_SECS && nanos < 1_000_000_000,
    {
        if 0 <= secs && secs <= MAX_TIMESTAMP_SECS && nanos < 1_000_000_000 {
            Some(Timestamp { secs, nanos })
        } else {
            None
        }
    }

    /// Returns the current wall-clock time.
    ///
    /// Relies on `chrono::Utc::now`: a `DateTime<Utc>` round-trips through
    /// `timestamp` and `timestamp_subsec_nanos`, every representable instant
    /// lies within the renderable range, and the clock reads after the Unix
    /// epoch (`Utc::now` itself aborts on a pre-epoch system clock).
    #[verifier::external_body]
    pub fn now() -> (r: Timestamp)
        ensures
            r.wf(),
    {
        let dt = chrono::Utc::now();
        Timestamp { secs: dt.timestamp(), nanos: dt.timestamp_subsec_nanos() }
    }

    /// Returns the RFC 3339 form of the timestamp.
    pub fn rfc3339_string(&self) -> (r: String)
        requires
            self.wf(),
        ensures
            r@ == rfc3339_of(self.secs as int, self.nanos as int),
    {
        format_rfc3339(self.secs, self.nanos)
    }
}

/// The RFC 3339 rendering of a timestamp, as `chrono` produces it; the
/// result depends on the two parts alone.
pub uninterp spec fn rfc3339_of(secs: int, nanos: int) -> Seq<char>;

/// Relies on `chrono::DateTime::from_timestamp` and `DateTime::to_rfc3339`:
/// `from_timestamp` returns `Some` for every timestamp in the accepted
/// range, and `to_rfc3339` renders the instant as text that depends on the
/// instant alone.
#[verifier::external_body]
fn format_rfc3339(secs: i64, nanos: u32) -> (r: String)
    requires
        0 <= secs <= MAX_TIMESTAMP_SECS,
        nanos < 1_000_000_000,
    ensures
        r@ == rfc3339_of(secs as int, nanos as int),
{
    match chrono::DateTime::from_timestamp(secs, nanos) {
        Some(dt) => dt.to_rfc3339(),
        None => String::new(),
    }
}

} // verus!
