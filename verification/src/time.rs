use vstd::prelude::*;
use vstd::utf8::*;

verus! {

/// The first second that a UTC date-time can hold, counted from 1970-01-01T00:00:00Z:
/// January 1st of the year -262143, at midnight.
pub const MIN_INSTANT_SECS: i64 = -8334601228800i64;

/// The last second that a UTC date-time can hold: December 31st of the year 262142,
/// at 23:59:59.
pub const MAX_INSTANT_SECS: i64 = 8210266876799i64;

/// Nanoseconds in one second.
pub const NANOS_PER_SEC: u32 = 1_000_000_000u32;

/// The largest number of whole seconds that a signed time span can hold
/// (`i64::MAX` milliseconds, rounded down to whole seconds).
pub const MAX_SPAN_SECS: i64 = 9223372036854775i64;

/// A point in time in UTC: whole seconds since 1970-01-01T00:00:00Z, and the
/// nanoseconds past that second (from `NANOS_PER_SEC` up inside a leap second).
#[derive(Clone, Copy, Debug, PartialEq, Eq, Structural)]
pub struct Timestamp {
    pub secs: i64,
    pub nanos: u32,
}

impl Timestamp {
    /// The instant lies in the range of a UTC date-time.
    pub open spec fn in_range(self) -> bool {
        &&& MIN_INSTANT_SECS <= self.secs <= MAX_INSTANT_SECS
        &&& self.nanos < 2 * NANOS_PER_SEC
    }

    /// The instant lies in the range of a UTC date-time and not inside a leap second.
    pub open spec fn is_regular(self) -> bool {
        &&& MIN_INSTANT_SECS <= self.secs <= MAX_INSTANT_SECS
        &&& self.nanos < NANOS_PER_SEC
    }

    /// `self` comes strictly before `other` in time.
    pub open spec fn precedes(self, other: Timestamp) -> bool {
        self.secs < other.secs || (self.secs == other.secs && self.nanos < other.nanos)
    }

    /// Whether `self` comes strictly before `other`.
    pub fn is_before(&self, other: &Timestamp) -> (before: bool)
        ensures
            before == self.precedes(*other),
    {
        self.secs < other.secs || (self.secs == other.secs && self.nanos < other.nanos)
    }

    /// Whether `self` comes strictly after `other`.
    pub fn is_after(&self, other: &Timestamp) -> (after: bool)
        ensures
            after == other.precedes(*self),
    {
        other.is_before(self)
    }

    /// The instant `secs` whole seconds later, for a span that keeps it in range.
    pub open spec fn plus_secs(self, secs: int) -> Timestamp {
        Timestamp { secs: (self.secs + secs) as i64, nanos: self.nanos }
    }
}

/// The instant exactly `secs` seconds after the Unix epoch, if a UTC date-time can hold it.
pub open spec fn unix_instant(secs: int) -> Option<Timestamp> {
    if MIN_INSTANT_SECS <= secs <= MAX_INSTANT_SECS {
        Some(Timestamp { secs: secs as i64, nanos: 0 })
    } else {
        None
    }
}

/// `chrono::DateTime::<Utc>::from_timestamp(secs, 0)`: the date-time `secs` seconds after
/// the Unix epoch, or `None` when that lies outside the calendar that chrono can hold
/// (years -262143 to 262142). The date-time is read back through `timestamp` and
/// `timestamp_subsec_nanos`, which round-trip with it.
#[verifier::external_body]
pub(crate) fn utc_from_unix_secs(secs: i64) -> (instant: Option<Timestamp>)
    ensures
        instant == unix_instant(secs as int),
{
    match chrono::DateTime::from_timestamp(secs, 0) {
        Some(d) => Some(Timestamp { secs: d.timestamp(), nanos: d.timestamp_subsec_nanos() }),
        None => None,
    }
}

/// What `chrono::DateTime::parse_from_rfc3339` makes of a text, converted to UTC.
pub uninterp spec fn rfc3339_instant(text: Seq<char>) -> Option<Timestamp>;

/// `chrono::DateTime::parse_from_rfc3339(text)` followed by `with_timezone(&Utc)`:
/// the instant that an RFC 3339 date-time text names, or `None` where chrono refuses
/// the text. The contract names the result and adds only that every UTC date-time
/// that chrono holds lies in its range; which texts parse is not stated.
#[verifier::external_body]
pub(crate) fn parse_rfc3339(text: &str) -> (instant: Option<Timestamp>)
    ensures
        instant == rfc3339_instant(text@),
        instant matches Some(t) ==> t.in_range(),
{
    match chrono::DateTime::parse_from_rfc3339(text) {
        Ok(d) => {
            let u = d.with_timezone(&chrono::Utc);
            Some(Timestamp { secs: u.timestamp(), nanos: u.timestamp_subsec_nanos() })
        },
        Err(_) => None,
    }
}

/// `std::str::from_utf8`: the text that the bytes encode, when they are valid UTF-8.
#[verifier::external_body]
pub(crate) fn utf8_text(bytes: &[u8]) -> (text: Option<&str>)
    ensures
        text.is_some() == valid_utf8(bytes@),
        text matches Some(t) ==> t@ == decode_utf8(bytes@),
{
    std::str::from_utf8(bytes).ok()
}

/// The time span that `chrono::TimeDelta::from_std(Duration::from_secs(secs))` gives,
/// in whole seconds, or `None` when it refuses the span as too long.
pub open spec fn span_from_secs(secs: u64) -> Option<i64> {
    if secs <= MAX_SPAN_SECS {
        Some(secs as i64)
    } else {
        None
    }
}

/// `chrono::TimeDelta::from_std(std::time::Duration::from_secs(secs))`: the same span
/// as a signed time span, refused when it exceeds `i64::MAX` milliseconds.
#[verifier::external_body]
pub(crate) fn span_from_std_secs(secs: u64) -> (span: Option<i64>)
    ensures
        span == span_from_secs(secs),
{
    match chrono::TimeDelta::from_std(std::time::Duration::from_secs(secs)) {
        Ok(d) => Some(d.num_seconds()),
        Err(_) => None,
    }
}

/// The number of whole seconds that a provider keeps its data for: the configured
/// number when a signed time span can hold it, else none at all.
pub fn cache_ttl_secs(cache_expiry: u64) -> (ttl: i64)
    ensures
        ttl == (match span_from_secs(cache_expiry) {
            Some(s) => s,
            None => 0i64,
        }),
        0 <= ttl <= MAX_SPAN_SECS,
{
    match span_from_std_secs(cache_expiry) {
        Some(s) => s,
        None => 0,
    }
}

/// `DateTime<Utc> + TimeDelta::seconds(secs)` in chrono: the instant that many seconds
/// later. The addition panics when the result leaves the calendar, which `requires`
/// leaves out; for an instant outside a leap second the result keeps its nanoseconds.
#[verifier::external_body]
pub(crate) fn utc_plus_secs(instant: Timestamp, secs: i64) -> (later: Timestamp)
    requires
        instant.is_regular(),
        -MAX_SPAN_SECS <= secs <= MAX_SPAN_SECS,
        MIN_INSTANT_SECS <= instant.secs + secs <= MAX_INSTANT_SECS,
    ensures
        later == instant.plus_secs(secs as int),
{
    let d = chrono::DateTime::from_timestamp(instant.secs, instant.nanos).unwrap();
    let l = d + chrono::TimeDelta::seconds(secs);
    Timestamp { secs: l.timestamp(), nanos: l.timestamp_subsec_nanos() }
}

/// The instant `ttl_secs` seconds after `now`: when a cached value stops being fresh.
pub fn expiry_after(now: Timestamp, ttl_secs: i64) -> (expires_at: Timestamp)
    requires
        now.is_regular(),
        0 <= ttl_secs <= MAX_SPAN_SECS,
        now.secs + ttl_secs <= MAX_INSTANT_SECS,
    ensures
        expires_at == now.plus_secs(ttl_secs as int),
        expires_at.is_regular(),
{
    utc_plus_secs(now, ttl_secs)
}

} // verus!
