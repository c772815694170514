//! Points in time, as the audit records hold them.
//!
//! A point in time is a number of seconds since the start of 1970 in UTC and a
//! number of nanoseconds within the second. The `chrono` crate reads the
//! clock and converts between such a point and its RFC 3339 text.

use vstd::prelude::*;
use vstd::string::StringExecFns;

verus! {

/// The first second of the year 0000 in UTC.
pub const FIRST_SECOND: i64 = -62_167_219_200;

/// The last second of the year 9999 in UTC.
pub const LAST_SECOND: i64 = 253_402_300_799;

/// The number of nanoseconds in a second.
pub const NANOSECONDS_PER_SECOND: u32 = 1_000_000_000;

/// Whether the point lies in the years 0000 to 9999 of UTC and not in the
/// second half of a doubled second: the span whose RFC 3339 text can be read
/// back.
pub open spec fn is_representable(seconds: int, nanoseconds: int) -> bool {
    &&& FIRST_SECOND <= seconds <= LAST_SECOND
    &&& 0 <= nanoseconds < NANOSECONDS_PER_SECOND
}

/// The RFC 3339 text that `chrono` writes for a point in time.
pub uninterp spec fn rfc3339_text(seconds: int, nanoseconds: int) -> Seq<char>;

/// What `chrono` makes of a text: the point in time that it reads, or what it
/// says of a text that it cannot read.
pub uninterp spec fn rfc3339_reading(text: Seq<char>) -> Result<(i64, u32), Seq<char>>;

/// Reads the clock with `chrono::Utc::now` and hands out the point's seconds
/// (`DateTime::timestamp`) and nanoseconds (`DateTime::timestamp_subsec_nanos`).
///
/// Nothing is believed of the reading. The crate panics where the system's
/// clock shows a time before 1970.
#[verifier::external_body]
pub(crate) fn read_clock() -> (reading: (i64, u32)) {
    let now = chrono::Utc::now();
    (now.timestamp(), now.timestamp_subsec_nanos())
}

/// Writes a point in time with `chrono::DateTime::from_timestamp` and
/// `DateTime::to_rfc3339`.
///
/// Believed of the crate: a point in the years 0000 to 9999 can be written,
/// and `parse_from_rfc3339` reads the text back as the same point.
#[verifier::external_body]
pub(crate) fn write_rfc3339(seconds: i64, nanoseconds: u32) -> (text: Option<String>)
    ensures
        is_representable(seconds as int, nanoseconds as int) ==> text is Some,
        text matches Some(t) ==> t@ == rfc3339_text(seconds as int, nanoseconds as int),
        text matches Some(t) ==> is_representable(seconds as int, nanoseconds as int) ==> (
        rfc3339_reading(t@) matches Ok(point) && point.0 == seconds && point.1 == nanoseconds),
{
    match chrono::DateTime::from_timestamp(seconds, nanoseconds) {
        Some(point) => Some(point.to_rfc3339()),
        None => None,
    }
}

/// Reads a text with `chrono::DateTime::parse_from_rfc3339`, moves the point
/// to UTC (`DateTime::with_timezone`) and hands out its seconds and
/// nanoseconds, or the text of the crate's error.
#[verifier::external_body]
pub(crate) fn read_rfc3339(text: &str) -> (reading: Result<(i64, u32), String>)
    ensures
        reading matches Ok(point) ==> (rfc3339_reading(text@) matches Ok(read) && read == point),
        reading matches Err(message) ==> (rfc3339_reading(text@) matches Err(said) && said
            == message@),
{
    match chrono::DateTime::parse_from_rfc3339(text) {
        Ok(point) => {
            let utc = point.with_timezone(&chrono::Utc);
            Ok((utc.timestamp(), utc.timestamp_subsec_nanos()))
        },
        Err(err) => Err(err.to_string()),
    }
}

/// What is said of a point in time that cannot be recorded: one outside the
/// years 0000 to 9999 of UTC, or one in the second half of a doubled second.
pub const OUT_OF_RANGE_MESSAGE: &'static str = "timestamp outside the range that is recorded";

/// A point in time in the years 0000 to 9999 of UTC.
#[derive(Clone, Copy, Debug, PartialEq, Eq)]
pub struct Timestamp {
    seconds: i64,
    nanoseconds: u32,
}

impl Timestamp {
    #[verifier::type_invariant]
    spec fn in_range(self) -> bool {
        is_representable(self.seconds as int, self.nanoseconds as int)
    }

    /// Seconds since the start of 1970 in UTC.
    pub closed spec fn seconds(self) -> int {
        self.seconds as int
    }

    /// Nanoseconds within the second.
    pub closed spec fn nanoseconds(self) -> int {
        self.nanoseconds as int
    }

    /// Whether the point lies in the span that this type admits. Every value
    /// that executable code holds does.
    pub open spec fn is_valid(self) -> bool {
        is_representable(self.seconds(), self.nanoseconds())
    }

    /// The point with the given seconds and nanoseconds.
    pub closed spec fn at(seconds: int, nanoseconds: int) -> Timestamp {
        Timestamp { seconds: seconds as i64, nanoseconds: nanoseconds as u32 }
    }

    /// Whether `self` is no later than `other`.
    pub open spec fn is_at_or_before(self, other: Timestamp) -> bool {
        self.seconds() < other.seconds() || (self.seconds() == other.seconds()
            && self.nanoseconds() <= other.nanoseconds())
    }

    /// Whether `self` is earlier than `other`.
    pub open spec fn is_before(self, other: Timestamp) -> bool {
        self.seconds() < other.seconds() || (self.seconds() == other.seconds()
            && self.nanoseconds() < other.nanoseconds())
    }

    /// The later of `self` and `other`.
    pub open spec fn later(self, other: Timestamp) -> Timestamp {
        if self.is_at_or_before(other) {
            other
        } else {
            self
        }
    }

    /// The RFC 3339 text of the point.
    pub open spec fn text(self) -> Seq<char> {
        rfc3339_text(self.seconds(), self.nanoseconds())
    }

    /// Whether the text of the point is read back as the point. `chrono`
    /// is believed to do so for every valid point, one point at a time: the
    /// fact is known of a point once its text has been written.
    pub open spec fn reads_back(self) -> bool {
        Timestamp::of_text(self.text()) == Ok::<Timestamp, Seq<char>>(self)
    }

    /// The point that a text stands for, or why it stands for none.
    pub open spec fn of_text(text: Seq<char>) -> Result<Timestamp, Seq<char>> {
        match rfc3339_reading(text) {
            Ok(point) => if is_representable(point.0 as int, point.1 as int) {
                Ok(Timestamp::at(point.0 as int, point.1 as int))
            } else {
                Err(OUT_OF_RANGE_MESSAGE@)
            },
            Err(message) => Err(message),
        }
    }

    /// The point with the given parts, where it lies in the admitted span.
    pub fn new(seconds: i64, nanoseconds: u32) -> (point: Option<Timestamp>)
        ensures
            point is Some <==> is_representable(seconds as int, nanoseconds as int),
            point matches Some(p) ==> p == Timestamp::at(seconds as int, nanoseconds as int)
                && p.seconds() == seconds && p.nanoseconds() == nanoseconds && p.is_valid(),
    {
        if FIRST_SECOND <= seconds && seconds <= LAST_SECOND && nanoseconds
            < NANOSECONDS_PER_SECOND {
            Some(Timestamp { seconds, nanoseconds })
        } else {
            None
        }
    }

    /// The present moment, unless the clock shows a time after the year 9999.
    pub fn now() -> (point: Option<Timestamp>)
        ensures
            point matches Some(p) ==> p.is_valid(),
    {
        let reading = read_clock();
        Timestamp::new(reading.0, reading.1)
    }

    /// Seconds since the start of 1970 in UTC.
    pub fn seconds_since_epoch(&self) -> (seconds: i64)
        ensures
            seconds == self.seconds(),
            self.is_valid(),
    {
        proof {
            use_type_invariant(self);
        }
        self.seconds
    }

    /// Nanoseconds within the second.
    pub fn subsecond_nanoseconds(&self) -> (nanoseconds: u32)
        ensures
            nanoseconds == self.nanoseconds(),
            self.is_valid(),
    {
        proof {
            use_type_invariant(self);
        }
        self.nanoseconds
    }

    /// Whether `self` is no later than `other`.
    pub fn at_or_before(&self, other: &Timestamp) -> (answer: bool)
        ensures
            answer == self.is_at_or_before(*other),
    {
        self.seconds < other.seconds || (self.seconds == other.seconds && self.nanoseconds
            <= other.nanoseconds)
    }

    /// The later of `self` and `other`.
    pub fn later_of(&self, other: &Timestamp) -> (point: Timestamp)
        ensures
            point == self.later(*other),
    {
        if self.at_or_before(other) {
            *other
        } else {
            *self
        }
    }

    /// The RFC 3339 text of the point.
    pub fn to_rfc3339(&self) -> (text: String)
        ensures
            text@ == self.text(),
            self.reads_back(),
            self.is_valid(),
    {
        proof {
            use_type_invariant(self);
        }
        let written = write_rfc3339(self.seconds, self.nanoseconds);
        written.unwrap()
    }

    /// Reads an RFC 3339 text. A text that `chrono` cannot read is refused
    /// with its words, a point that cannot be recorded with
    /// `OUT_OF_RANGE_MESSAGE`.
    pub fn parse_from_rfc3339(text: &str) -> (point: Result<Timestamp, String>)
        ensures
            point matches Ok(p) ==> Timestamp::of_text(text@) == Ok::<Timestamp, Seq<char>>(p)
                && p.is_valid(),
            point matches Err(message) ==> Timestamp::of_text(text@) == Err::<
                Timestamp,
                Seq<char>,
            >(message@),
    {
        match read_rfc3339(text) {
            Ok(reading) => match Timestamp::new(reading.0, reading.1) {
                Some(point) => Ok(point),
                None => Err(String::from_str(OUT_OF_RANGE_MESSAGE)),
            },
            Err(message) => Err(message),
        }
    }
}

} // verus!
