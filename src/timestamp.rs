//! Points in time, held as whole seconds of the Unix epoch within the range
//! that `chrono::DateTime<Utc>` can represent.
use vstd::prelude::*;

verus! {

/// `DateTime::<Utc>::MIN_UTC` in seconds: January 1 of 262144 BCE.
pub const MIN_SECONDS: i64 = -8334601228800;

/// `DateTime::<Utc>::MAX_UTC` in whole seconds: December 31 of 262142 CE,
/// 23:59:59.
pub const MAX_SECONDS: i64 = 8210266876799;

pub open spec fn in_range(secs: int) -> bool {
    MIN_SECONDS <= secs <= MAX_SECONDS
}

#[verifier::external_type_specification]
#[verifier::external_body]
pub struct ExParseError(chrono::ParseError);

/// Relies on `chrono::Utc::now` and `DateTime::timestamp`: the current time,
/// which as a `DateTime<Utc>` lies between `MIN_UTC` and `MAX_UTC`.
#[verifier::external_body]
fn clock_seconds() -> (r: i64)
    ensures
        in_range(r as int),
{
    chrono::Utc::now().timestamp()
}

/// The instant, in whole seconds, that `DateTime::parse_from_rfc3339` reads
/// from a text, or `None` where it refuses the text.
pub uninterp spec fn rfc3339_instant(s: Seq<char>) -> Option<int>;

/// Relies on `chrono::DateTime::parse_from_rfc3339` and `DateTime::timestamp`:
/// the instant that an RFC 3339 text names; a parsed `DateTime` lies between
/// `MIN_UTC` and `MAX_UTC`.
#[verifier::external_body]
fn parse_rfc3339_seconds(s: &str) -> (r: Result<i64, chrono::ParseError>)
    ensures
        r is Ok <==> rfc3339_instant(s@) is Some,
        r is Ok ==> r->Ok_0 == rfc3339_instant(s@)->0 && in_range(r->Ok_0 as int),
{
    chrono::DateTime::parse_from_rfc3339(s).map(|d| d.timestamp())
}

/// The text that `DateTime::to_rfc3339` writes for an instant in UTC.
pub uninterp spec fn rfc3339_text(secs: int) -> Seq<char>;

/// Relies on `chrono::DateTime::from_timestamp`, which accepts every second
/// between `MIN_UTC` and `MAX_UTC`, and on `DateTime::to_rfc3339`.
#[verifier::external_body]
fn format_rfc3339(secs: i64) -> (r: Option<String>)
    requires
        in_range(secs as int),
    ensures
        r is Some,
        r->0@ == rfc3339_text(secs as int),
{
    chrono::DateTime::from_timestamp(secs, 0).map(|d| d.to_rfc3339())
}

#[derive(Clone, Copy, Debug, PartialEq, Eq, PartialOrd, Ord, Hash)]
pub struct Timestamp {
    secs: i64,
}

impl Timestamp {
    #[verifier::type_invariant]
    spec fn representable(self) -> bool {
        in_range(self.secs as int)
    }

    pub closed spec fn at(self) -> int {
        self.secs as int
    }

    /// The current time.
    pub fn now() -> (r: Timestamp) {
        Timestamp { secs: clock_seconds() }
    }

    /// The instant `secs` seconds after the epoch, where representable.
    pub fn from_seconds(secs: i64) -> (r: Option<Timestamp>)
        ensures
            r is Some <==> in_range(secs as int),
            r is Some ==> r->0.at() == secs,
    {
        if MIN_SECONDS <= secs && secs <= MAX_SECONDS {
            Some(Timestamp { secs })
        } else {
            None
        }
    }

    /// Reads an RFC 3339 text; fractions of a second are dropped.
    pub fn from_iso_string(iso_string: &str) -> (r: Result<Timestamp, chrono::ParseError>)
        ensures
            r is Ok <==> rfc3339_instant(iso_string@) is Some,
            r is Ok ==> r->Ok_0.at() == rfc3339_instant(iso_string@)->0,
    {
        let secs = parse_rfc3339_seconds(iso_string)?;
        Ok(Timestamp { secs })
    }

    /// Seconds since the epoch.
    pub fn seconds(&self) -> (r: i64)
        ensures
            r == self.at(),
            in_range(r as int),
    {
        proof {
            use_type_invariant(*self);
        }
        self.secs
    }

    /// The RFC 3339 text of this instant, in UTC.
    pub fn to_iso_string(&self) -> (r: String)
        ensures
            r@ == rfc3339_text(self.at()),
    {
        proof {
            use_type_invariant(*self);
        }
        format_rfc3339(self.secs).unwrap()
    }

    pub fn is_before(&self, other: &Timestamp) -> (r: bool)
        ensures
            r == (self.at() < other.at()),
    {
        self.secs < other.secs
    }

    pub fn is_after(&self, other: &Timestamp) -> (r: bool)
        ensures
            r == (self.at() > other.at()),
    {
        self.secs > other.secs
    }

    /// This instant moved by `seconds`; the result must be representable.
    pub fn add_seconds(&self, seconds: i64) -> (r: Timestamp)
        requires
            in_range(self.at() + seconds),
        ensures
            r.at() == self.at() + seconds,
    {
        Timestamp { secs: self.secs + seconds }
    }

    pub fn add_minutes(&self, minutes: i64) -> (r: Timestamp)
        requires
            in_range(self.at() + minutes * 60),
        ensures
            r.at() == self.at() + minutes * 60,
    {
        proof {
            use_type_invariant(*self);
        }
        self.add_seconds(minutes * 60)
    }

    pub fn add_hours(&self, hours: i64) -> (r: Timestamp)
        requires
            in_range(self.at() + hours * 3600),
        ensures
            r.at() == self.at() + hours * 3600,
    {
        proof {
            use_type_invariant(*self);
        }
        self.add_seconds(hours * 3600)
    }

    pub fn add_days(&self, days: i64) -> (r: Timestamp)
        requires
            in_range(self.at() + days * 86400),
        ensures
            r.at() == self.at() + days * 86400,
    {
        proof {
            use_type_invariant(*self);
        }
        self.add_seconds(days * 86400)
    }

    /// Seconds from `other` to this instant.
    pub fn seconds_since(&self, other: &Timestamp) -> (r: i64)
        ensures
            r == self.at() - other.at(),
    {
        proof {
            use_type_invariant(*self);
            use_type_invariant(*other);
        }
        self.secs - other.secs
    }

    /// Whether this instant is already past.
    pub fn is_expired(&self) -> (r: bool) {
        let now = Timestamp::now();
        self.is_before(&now)
    }
}

} // verus!
