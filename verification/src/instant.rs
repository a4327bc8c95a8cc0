//! Moments in time.
use chrono::{DateTime, TimeDelta, Utc};
use vstd::prelude::*;

verus! {

/// The first second that `chrono` can express, counted from 1970.
pub const MIN_SECONDS: i64 = -8334601228800;

/// The last second that `chrono` can express, counted from 1970.
pub const MAX_SECONDS: i64 = 8210266876799;

/// The longest span that `chrono` can express, in seconds.
pub const MAX_SPAN_SECONDS: u64 = 9223372036854775;

/// A moment in UTC: whole seconds since 1970, leap seconds not counted, and the nanoseconds
/// since then. A leap second is the last second of a minute with a billion nanoseconds or more.
#[derive(Debug, Clone, Copy, PartialEq, Eq, Structural)]
pub struct UtcInstant {
    pub seconds: i64,
    pub nanos: u32,
}

impl UtcInstant {
    /// Whether this is a moment that `chrono` can express.
    pub open spec fn wf(self) -> bool {
        &&& MIN_SECONDS <= self.seconds <= MAX_SECONDS
        &&& self.nanos < 1000000000 || (self.nanos < 2000000000 && self.seconds % 60 == 59)
    }

    /// Whether this is a moment outside leap seconds, as clocks give it.
    pub open spec fn is_clock_time(self) -> bool {
        &&& MIN_SECONDS <= self.seconds <= MAX_SECONDS
        &&& self.nanos < 1000000000
    }

    /// Whether this moment comes before another or is the same.
    pub open spec fn no_later_than(self, other: UtcInstant) -> bool {
        ||| self.seconds < other.seconds
        ||| self.seconds == other.seconds && self.nanos <= other.nanos
    }

    /// The moment some seconds later.
    pub open spec fn plus(self, seconds: int) -> UtcInstant {
        UtcInstant { seconds: (self.seconds + seconds) as i64, nanos: self.nanos }
    }

    /// Whether this moment comes before another or is the same.
    pub fn is_no_later_than(&self, other: &UtcInstant) -> (r: bool)
        ensures
            r == self.no_later_than(*other),
    {
        self.seconds < other.seconds || (self.seconds == other.seconds && self.nanos
            <= other.nanos)
    }
}

/// `DateTime::<Utc>::from_timestamp`, then `DateTime + TimeDelta` with `TimeDelta::seconds`:
/// adds seconds to a moment outside leap seconds. Sums that `chrono` cannot express, on which
/// the addition panics, are left out.
#[verifier::external_body]
fn add_seconds(at: UtcInstant, seconds: i64) -> (r: UtcInstant)
    requires
        at.is_clock_time(),
        -MAX_SPAN_SECONDS <= seconds <= MAX_SPAN_SECONDS,
        MIN_SECONDS <= at.seconds + seconds <= MAX_SECONDS,
    ensures
        r == at.plus(seconds as int),
{
    let start: DateTime<Utc> = DateTime::from_timestamp(at.seconds, at.nanos).unwrap();
    let sum = start + TimeDelta::seconds(seconds);
    UtcInstant { seconds: sum.timestamp(), nanos: sum.timestamp_subsec_nanos() }
}

/// The type `chrono::OutOfRangeError`: a span is too long.
#[verifier::external_type_specification]
#[verifier::external_body]
pub struct ExOutOfRangeError(chrono::OutOfRangeError);

/// `TimeDelta::from_std` of a whole number of seconds: the span in seconds, or an error where it
/// is longer than `chrono` can express.
#[verifier::external_body]
fn span_of(seconds: u64) -> (r: Result<i64, chrono::OutOfRangeError>)
    ensures
        r is Ok <==> seconds <= MAX_SPAN_SECONDS,
        r matches Ok(span) ==> span == seconds,
{
    Ok(TimeDelta::from_std(std::time::Duration::from_secs(seconds))?.num_seconds())
}

/// What `DateTime::parse_from_rfc3339` reads in a text, turned to UTC: seconds since 1970 and
/// nanoseconds.
pub uninterp spec fn rfc3339_moment(s: Seq<char>) -> Option<(int, int)>;

/// `DateTime::parse_from_rfc3339`, then `with_timezone(&Utc)`: the moment that an RFC 3339 text
/// names, if it is one. Which texts are accepted, and the moment each names, is not spelled out;
/// the moment is one that `chrono` can express.
#[verifier::external_body]
fn parse_rfc3339(s: &str) -> (r: Option<UtcInstant>)
    ensures
        r is Some <==> rfc3339_moment(s@) is Some,
        r matches Some(at) ==> at.wf() && rfc3339_moment(s@) == Some(
            (at.seconds as int, at.nanos as int),
        ),
{
    let at = DateTime::parse_from_rfc3339(s).ok()?.with_timezone(&Utc);
    Some(UtcInstant { seconds: at.timestamp(), nanos: at.timestamp_subsec_nanos() })
}

/// The moment that an RFC 3339 text names.
pub open spec fn moment_of(s: Seq<char>) -> Option<UtcInstant> {
    match rfc3339_moment(s) {
        Some((seconds, nanos)) => Some(UtcInstant { seconds: seconds as i64, nanos: nanos as u32 }),
        None => None,
    }
}

/// Reads an RFC 3339 text.
pub fn read_rfc3339(s: &str) -> (r: Option<UtcInstant>)
    ensures
        r == moment_of(s@),
        r matches Some(at) ==> at.wf(),
{
    parse_rfc3339(s)
}

/// How many seconds a lifetime counts for: too long a one counts for nothing.
pub open spec fn effective_span(seconds: u64) -> int {
    if seconds <= MAX_SPAN_SECONDS {
        seconds as int
    } else {
        0
    }
}

/// Whether the end of a lifetime that starts now can be expressed.
pub open spec fn can_expire(now: UtcInstant, lifetime: Option<u64>) -> bool {
    lifetime matches Some(seconds) ==> now.seconds + effective_span(seconds) <= MAX_SECONDS
}

/// The end of a lifetime that starts now.
pub open spec fn expiry(now: UtcInstant, lifetime: Option<u64>) -> Option<UtcInstant> {
    match lifetime {
        Some(seconds) => Some(now.plus(effective_span(seconds))),
        None => None,
    }
}

/// The end of a lifetime, in seconds, that starts now.
pub fn expires_at(now: UtcInstant, lifetime: Option<u64>) -> (r: Option<UtcInstant>)
    requires
        now.is_clock_time(),
        can_expire(now, lifetime),
    ensures
        r == expiry(now, lifetime),
{
    match lifetime {
        Some(seconds) => {
            let span: i64 = match span_of(seconds) {
                Ok(span) => span,
                Err(_) => 0,
            };
            Some(add_seconds(now, span))
        },
        None => None,
    }
}

/// Whether the end of a lifetime that starts now can be expressed.
pub fn check_lifetime(now: &UtcInstant, lifetime: Option<u64>) -> (r: bool)
    requires
        now.is_clock_time(),
    ensures
        r == can_expire(*now, lifetime),
{
    match lifetime {
        Some(seconds) => seconds > MAX_SPAN_SECONDS || now.seconds as i128 + seconds as i128
            <= MAX_SECONDS as i128,
        None => true,
    }
}

/// The moment some seconds from now.
pub fn later(now: UtcInstant, seconds: u32) -> (r: UtcInstant)
    requires
        now.is_clock_time(),
        now.seconds + seconds <= MAX_SECONDS,
    ensures
        r == now.plus(seconds as int),
{
    add_seconds(now, seconds as i64)
}

/// Moments on clocks are ordered as their nanoseconds since 1970 are; a leap second comes after
/// the second it belongs to and before the next one.
pub proof fn law_order(a: UtcInstant, b: UtcInstant)
    requires
        a.wf(),
        b.wf(),
    ensures
        a.is_clock_time() && b.is_clock_time() ==> (a.no_later_than(b) <==> a.seconds * 1000000000
            + a.nanos <= b.seconds * 1000000000 + b.nanos),
        a.seconds < b.seconds ==> a.no_later_than(b) && !b.no_later_than(a),
        a.seconds == b.seconds ==> (a.no_later_than(b) <==> a.nanos <= b.nanos),
        a.no_later_than(b) || b.no_later_than(a),
        a.no_later_than(b) && b.no_later_than(a) ==> a == b,
{
}

/// A lifetime ends as many seconds from now as it has; one that is longer than can be expressed
/// ends now, and without a lifetime there is no end.
pub proof fn law_expiry(now: UtcInstant, lifetime: Option<u64>)
    requires
        now.is_clock_time(),
        can_expire(now, lifetime),
    ensures
        lifetime is None ==> expiry(now, lifetime) is None,
        lifetime matches Some(seconds) ==> (expiry(now, lifetime) matches Some(end) && {
            &&& end.seconds - now.seconds == if seconds <= 9223372036854775 {
                seconds as int
            } else {
                0
            }
            &&& end.nanos == now.nanos
        }),
{
}

/// Exactly those lifetimes cannot be reckoned with that end after the last moment that can be
/// expressed, and of these not the ones that count for nothing. So every lifetime of up to a
/// thousand years can be, from any moment before the year 249000.
pub proof fn law_can_expire(now: UtcInstant, seconds: u64)
    requires
        now.seconds <= 7800000000000,
        seconds <= 31600000000,
    ensures
        can_expire(now, Some(seconds)),
        can_expire(now, None),
        forall|lifetime: u64|
            #[trigger] can_expire(now, Some(lifetime)) <==> lifetime > 9223372036854775
                || now.seconds + lifetime <= 8210266876799,
{
}

/// A text names the moment that is read in it.
pub proof fn law_moment(s: Seq<char>)
    ensures
        rfc3339_moment(s) is None <==> moment_of(s) is None,
        rfc3339_moment(s) matches Some((seconds, nanos)) ==> (i64::MIN <= seconds <= i64::MAX && 0
            <= nanos <= u32::MAX ==> (moment_of(s) matches Some(at) && at.seconds == seconds
            && at.nanos == nanos)),
{
}

/// Some seconds later is later by so many seconds and not by a nanosecond more, and seconds can be
/// added one after another.
pub proof fn law_plus(at: UtcInstant, a: int, b: int)
    requires
        i64::MIN <= at.seconds + a <= i64::MAX,
        i64::MIN <= at.seconds + a + b <= i64::MAX,
    ensures
        at.plus(a).seconds - at.seconds == a,
        at.plus(a).nanos == at.nanos,
        at.plus(a).plus(b) == at.plus(a + b),
{
}

} // verus!
