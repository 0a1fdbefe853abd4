//! Points in time, as the agent stores and compares them.
use vstd::prelude::*;

verus! {

/// A point in time: whole seconds since the Unix epoch, and the nanoseconds
/// into that second.
#[derive(Clone, Copy, Debug, PartialEq, Eq, Structural)]
pub struct Timestamp {
    pub secs: i64,
    pub nanos: u32,
}

/// The first and the last second that a calendar date can name.
pub const MIN_SECS: i64 = -8334601228800;

pub const MAX_SECS: i64 = 8210266876799;

impl Timestamp {
    /// A point that has a calendar date.
    pub open spec fn wf(self) -> bool {
        MIN_SECS <= self.secs <= MAX_SECS && self.nanos < 1_000_000_000
    }

    /// Nanoseconds since the Unix epoch.
    pub open spec fn at(self) -> int {
        self.secs * 1_000_000_000 + self.nanos
    }

    /// Nanoseconds since the Unix epoch.
    pub fn unix_nanos(self) -> (r: i128)
        ensures
            r == self.at(),
    {
        self.secs as i128 * 1_000_000_000 + self.nanos as i128
    }

    /// Whether this point lies after `other`.
    pub fn is_after(self, other: Timestamp) -> (r: bool)
        ensures
            r == (self.at() > other.at()),
    {
        self.unix_nanos() > other.unix_nanos()
    }

    /// Whether more than `nanos` nanoseconds lie between `earlier` and this
    /// point.
    pub fn more_than_nanos_since(self, earlier: Timestamp, nanos: i128) -> (r: bool)
        ensures
            r == (self.at() - earlier.at() > nanos),
    {
        self.unix_nanos() - earlier.unix_nanos() > nanos
    }

    /// Whether fewer than `secs` seconds lie between `earlier` and this point.
    pub fn less_than_secs_since(self, earlier: Timestamp, secs: u64) -> (r: bool)
        ensures
            r == (self.at() - earlier.at() < secs * 1_000_000_000),
    {
        self.unix_nanos() - earlier.unix_nanos() < secs as i128 * 1_000_000_000
    }

    /// The point `secs` seconds later.
    pub fn plus_secs(self, secs: u64) -> (r: Timestamp)
        requires
            self.secs + secs <= MAX_SECS,
        ensures
            r == (Timestamp { secs: (self.secs + secs) as i64, nanos: self.nanos }),
            r.at() == self.at() + secs * 1_000_000_000,
    {
        Timestamp { secs: (self.secs as i128 + secs as i128) as i64, nanos: self.nanos }
    }
}

/// The text that chrono gives for the point `secs`, `nanos`.
pub uninterp spec fn rfc3339_of(secs: i64, nanos: u32) -> Seq<char>;

/// A point in time in RFC 3339 with nanoseconds and a `Z`:
/// `chrono::DateTime::from_timestamp` and `DateTime::to_rfc3339_opts`.
///
/// Claimed of them: every point in range has a date, and the text is a
/// function of the point alone.
#[verifier::external_body]
pub(crate) fn rfc3339(secs: i64, nanos: u32) -> (r: String)
    requires
        (Timestamp { secs, nanos }).wf(),
    ensures
        r@ == rfc3339_of(secs, nanos),
{
    chrono::DateTime::<chrono::Utc>::from_timestamp(secs, nanos)
        .expect("a point in range has a date")
        .to_rfc3339_opts(chrono::SecondsFormat::Nanos, true)
}

} // verus!
