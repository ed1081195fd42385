use vstd::prelude::*;

verus! {

/// An instant in UTC: whole seconds since the Unix epoch, and the nanoseconds
/// past that second (more than 999_999_999 only inside a leap second).
#[derive(Clone, Copy, Debug, PartialEq, Eq, Structural)]
pub struct Timestamp {
    pub secs: i64,
    pub nanos: u32,
}

impl Timestamp {
    /// `self` is not later than `other`: seconds first, then nanoseconds.
    pub open spec fn spec_le(self, other: Timestamp) -> bool {
        self.secs < other.secs || (self.secs == other.secs && self.nanos <= other.nanos)
    }

    /// `self` lies in the closed interval from `start` to `end`.
    pub open spec fn within(self, start: Timestamp, end: Timestamp) -> bool {
        start.spec_le(self) && self.spec_le(end)
    }

    pub fn le(&self, other: &Timestamp) -> (r: bool)
        ensures
            r == self.spec_le(*other),
    {
        self.secs < other.secs || (self.secs == other.secs && self.nanos <= other.nanos)
    }

    pub fn is_within(&self, start: &Timestamp, end: &Timestamp) -> (r: bool)
        ensures
            r == self.within(*start, *end),
    {
        start.le(self) && self.le(end)
    }
}

/// The instant that an RFC 3339 text denotes, taken to UTC; `None` where the
/// text is no valid RFC 3339 date and time.
pub uninterp spec fn rfc3339_instant(s: Seq<char>) -> Option<Timestamp>;

/// The RFC 3339 text of an instant in UTC; `None` where the instant is out of
/// the representable range.
pub uninterp spec fn rfc3339_text(t: Timestamp) -> Option<Seq<char>>;

#[verifier::external_type_specification]
#[verifier::external_body]
pub struct ExParseError(chrono::format::ParseError);

/// Relies on chrono's `DateTime::parse_from_rfc3339`, with the result taken to
/// UTC by `with_timezone(&Utc)` and read back by `timestamp` and
/// `timestamp_subsec_nanos`: the outcome depends on the text alone.
#[verifier::external_body]
pub(crate) fn parse_rfc3339(s: &str) -> (r: Result<Timestamp, chrono::format::ParseError>)
    ensures
        r is Ok <==> rfc3339_instant(s@) is Some,
        r is Ok ==> rfc3339_instant(s@) == Some(r->Ok_0),
{
    match chrono::DateTime::parse_from_rfc3339(s) {
        Ok(d) => {
            let u = d.with_timezone(&chrono::Utc);
            Ok(Timestamp { secs: u.timestamp(), nanos: u.timestamp_subsec_nanos() })
        },
        Err(e) => Err(e),
    }
}

/// Relies on the `Display` impl of chrono's `ParseError`: a sentence that says
/// why a text was refused.
#[verifier::external_body]
pub(crate) fn parse_error_text(e: &chrono::format::ParseError) -> (r: String) {
    e.to_string()
}

/// Relies on chrono's `DateTime::from_timestamp`, which gives `None` out of
/// range, and on `DateTime::<Utc>::to_rfc3339`: the text depends on the
/// instant alone.
#[verifier::external_body]
pub(crate) fn format_rfc3339(t: &Timestamp) -> (r: Option<String>)
    ensures
        r is Some <==> rfc3339_text(*t) is Some,
        r is Some ==> rfc3339_text(*t) == Some(r->0@),
{
    match chrono::DateTime::from_timestamp(t.secs, t.nanos) {
        Some(d) => Some(d.to_rfc3339()),
        None => None,
    }
}

} // verus!
