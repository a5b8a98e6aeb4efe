//! Moments in time and the two date formats that feeds use.

use crate::text;
use vstd::prelude::*;

verus! {

/// A moment: seconds since the start of 1970 in UTC, and nanoseconds within that second. During a
/// leap second the nanoseconds go on counting past one second.
pub type Moment = (i64, u32);

/// Nanoseconds in one second.
pub const SECOND: u32 = 1_000_000_000;

/// Whether one moment comes before another.
pub open spec fn before(a: Moment, b: Moment) -> bool {
    a.0 < b.0 || (a.0 == b.0 && a.1 < b.1)
}

/// Whether a moment is one that a clock shows: not inside a leap second.
pub open spec fn on_clock(m: Moment) -> bool {
    m.1 < SECOND
}

/// The nanoseconds from one moment on the clock to another.
pub open spec fn nanos_until(from: Moment, to: Moment) -> int {
    (to.0 - from.0) * 1_000_000_000 + (to.1 - from.1)
}

/// See [`before`].
pub fn is_before(a: Moment, b: Moment) -> (r: bool)
    ensures
        r == before(a, b),
{
    a.0 < b.0 || (a.0 == b.0 && a.1 < b.1)
}

/// See [`nanos_until`].
pub fn nanos_from(from: Moment, to: Moment) -> (r: i128)
    ensures
        r == nanos_until(from, to),
{
    (to.0 as i128 - from.0 as i128) * 1_000_000_000 + (to.1 as i128 - from.1 as i128)
}

/// A moment as it is shown in a place: the moment and that place's offset from UTC in seconds.
#[derive(Clone, Copy, Debug, PartialEq, Eq)]
pub struct Stamp {
    pub at: Moment,
    pub offset: i32,
}

impl Stamp {
    /// Whether the date can be written with a year of at most four digits and a valid offset. Dates
    /// inside leap seconds are left out.
    pub open spec fn printable(self) -> bool {
        &&& on_clock(self.at)
        &&& -86400 < self.offset < 86400
        &&& -62167219200 <= self.at.0 + self.offset <= 253402300799
    }

    /// See [`Stamp::printable`].
    pub fn is_printable(&self) -> (r: bool)
        ensures
            r == self.printable(),
    {
        if self.at.1 >= SECOND || self.offset <= -86400 || self.offset >= 86400 {
            return false;
        }
        let shown: i128 = self.at.0 as i128 + self.offset as i128;
        -62167219200 <= shown && shown <= 253402300799
    }
}

/// A moment, given in seconds, written as RFC 2822 asks at an offset from UTC in seconds.
pub uninterp spec fn rfc2822_text(seconds: i64, offset: i32) -> Seq<char>;

/// The moment that a text in the format of RFC 2822 stands for, or why it is none.
pub uninterp spec fn rfc2822_moment(text: Seq<char>) -> Result<Moment, Seq<char>>;

/// The moment that a text in the format of RFC 3339 stands for, or why it is none.
pub uninterp spec fn rfc3339_moment(text: Seq<char>) -> Result<Moment, Seq<char>>;

/// `chrono::DateTime::to_rfc2822`. The contract claims only that the text depends on the seconds
/// and the offset alone. The function panics on years that do not have four digits at most, which
/// are left out here.
#[verifier::external_body]
pub(crate) fn to_rfc2822(seconds: i64, offset: i32) -> (r: String)
    requires
        (Stamp { at: (seconds, 0), offset }).printable(),
    ensures
        r@ == rfc2822_text(seconds, offset),
{
    let place = chrono::FixedOffset::east_opt(offset).unwrap();
    chrono::DateTime::from_timestamp(seconds, 0).unwrap().with_timezone(&place).to_rfc2822()
}

/// `chrono::DateTime::parse_from_rfc2822`. The contract claims only that the moment, or the wording
/// of the error, depends on the text alone.
#[verifier::external_body]
pub(crate) fn parse_rfc2822(text: &str) -> (r: Result<Moment, String>)
    ensures
        text::outcome(r) == rfc2822_moment(text@),
{
    match chrono::DateTime::parse_from_rfc2822(text) {
        Ok(date) => Ok((date.timestamp(), date.timestamp_subsec_nanos())),
        Err(e) => Err(e.to_string()),
    }
}

/// `chrono::DateTime::parse_from_rfc3339`. The contract claims only that the moment, or the wording
/// of the error, depends on the text alone.
#[verifier::external_body]
pub(crate) fn parse_rfc3339(text: &str) -> (r: Result<Moment, String>)
    ensures
        text::outcome(r) == rfc3339_moment(text@),
{
    match chrono::DateTime::parse_from_rfc3339(text) {
        Ok(date) => Ok((date.timestamp(), date.timestamp_subsec_nanos())),
        Err(e) => Err(e.to_string()),
    }
}

} // verus!
