//! Instants as the broker and the callers exchange them: whole seconds since
//! the Unix epoch and the nanoseconds within the second.
use vstd::prelude::*;

verus! {

/// Declares `time::OffsetDateTime`; a value of it is made, passed on and
/// never read.
#[verifier::external_type_specification]
#[verifier::external_body]
pub struct ExOffsetDateTime(time::OffsetDateTime);

/// Declares `time::error::ComponentRange`, the error of an instant that
/// `time` cannot hold.
#[verifier::external_type_specification]
#[verifier::external_body]
pub struct ExComponentRange(time::error::ComponentRange);

/// Nanoseconds in one second.
pub const NANOS_PER_SECOND: u32 = 1_000_000_000;

/// First second of the year -9999, the earliest that `time::OffsetDateTime`
/// holds where `time` is built without its large dates.
pub const OFFSET_MIN_SECONDS: i64 = -377_705_116_800;

/// Last second of the year 9999, the latest that `time::OffsetDateTime`
/// holds where `time` is built without its large dates.
pub const OFFSET_MAX_SECONDS: i64 = 253_402_300_799;

/// First second of the year -262143, the earliest that `chrono::DateTime`
/// holds.
pub const CALENDAR_MIN_SECONDS: i64 = -8_334_601_228_800;

/// Last second of the year 262142, the latest that `chrono::DateTime`
/// holds.
pub const CALENDAR_MAX_SECONDS: i64 = 8_210_266_876_799;

/// Whether `chrono` has an instant for this pair: the second lies within its
/// calendar, and the nanoseconds stay under one second, or under two within
/// the last second of a minute, where they stand for a leap second.
pub open spec fn on_calendar(seconds: int, nanoseconds: int) -> bool {
    &&& CALENDAR_MIN_SECONDS <= seconds <= CALENDAR_MAX_SECONDS
    &&& 0 <= nanoseconds < 2 * NANOS_PER_SECOND
    &&& nanoseconds >= NANOS_PER_SECOND ==> seconds % 60 == 59
}

/// Whether `time` has an instant for this pair: the second lies within the
/// years -9999 to 9999 and the nanoseconds stay under one second.
pub open spec fn in_offset_range(seconds: int, nanoseconds: int) -> bool {
    &&& OFFSET_MIN_SECONDS <= seconds <= OFFSET_MAX_SECONDS
    &&& 0 <= nanoseconds < NANOS_PER_SECOND
}

/// An instant in UTC.
#[derive(Clone, Copy, Debug, PartialEq, Eq, Structural)]
pub struct Timestamp {
    /// Whole seconds since 1970-01-01 00:00:00 UTC; negative before it.
    pub seconds: i64,
    /// Nanoseconds since the last whole second.
    pub nanoseconds: u32,
}

/// `time::OffsetDateTime::from_unix_timestamp` succeeds on exactly the
/// seconds between the first of the year -9999 and the last of the year
/// 9999, `time` being built without its large dates. Nothing is claimed of
/// the value it makes.
pub assume_specification[ time::OffsetDateTime::from_unix_timestamp ](timestamp: i64) -> (r: Result<
    time::OffsetDateTime,
    time::error::ComponentRange,
>)
    ensures
        r.is_ok() <==> OFFSET_MIN_SECONDS <= timestamp <= OFFSET_MAX_SECONDS,
;

/// `time::OffsetDateTime::replace_nanosecond` succeeds on exactly the
/// nanoseconds below one second. Nothing is claimed of the value it makes.
pub assume_specification[ time::OffsetDateTime::replace_nanosecond ](
    this: time::OffsetDateTime,
    nanosecond: u32,
) -> (r: Result<time::OffsetDateTime, time::error::ComponentRange>)
    ensures
        r.is_ok() <==> nanosecond < NANOS_PER_SECOND,
;

/// Calls `chrono::DateTime::from_timestamp` and says whether it made an
/// instant. The contract claims that `chrono` makes one of exactly the pairs
/// that are `on_calendar`.
#[verifier::external_body]
fn calendar_has(seconds: i64, nanoseconds: u32) -> (r: bool)
    ensures
        r == on_calendar(seconds as int, nanoseconds as int),
{
    chrono::DateTime::from_timestamp(seconds, nanoseconds).is_some()
}

impl Timestamp {
    /// Whether the broker's clock holds this instant.
    pub open spec fn on_offset(self) -> bool {
        in_offset_range(self.seconds as int, self.nanoseconds as int)
    }

    /// The first instant that the broker's clock holds.
    pub open spec fn first_on_offset() -> Timestamp {
        Timestamp { seconds: OFFSET_MIN_SECONDS, nanoseconds: 0 }
    }

    /// The instant from which a cursor reads that is to yield what the
    /// broker took at `self` or later: the earliest instant of the broker's
    /// clock that is `self` or later, and none where `self` lies after all
    /// of them. An instant before the broker's first reads from the first; a
    /// second that is full, as a leap second makes it, reads from the next.
    pub open spec fn reads_from(self) -> Option<Timestamp> {
        if self.on_offset() {
            Some(self)
        } else if self.seconds < OFFSET_MIN_SECONDS {
            Some(Timestamp::first_on_offset())
        } else if self.seconds >= OFFSET_MAX_SECONDS {
            None
        } else {
            Some(Timestamp { seconds: (self.seconds + 1) as i64, nanoseconds: 0 })
        }
    }

    /// `self` is strictly later than `other`.
    pub open spec fn later_than(self, other: Timestamp) -> bool {
        self.seconds > other.seconds || (self.seconds == other.seconds && self.nanoseconds
            > other.nanoseconds)
    }

    /// `self` is `other` or later.
    pub open spec fn at_or_after(self, other: Timestamp) -> bool {
        !other.later_than(self)
    }

    /// The instant `seconds` and `nanoseconds` after the epoch, where the
    /// calendar has one.
    pub fn from_timestamp(seconds: i64, nanoseconds: u32) -> (r: Option<Timestamp>)
        ensures
            r == (if on_calendar(seconds as int, nanoseconds as int) {
                Some(Timestamp { seconds, nanoseconds })
            } else {
                None
            }),
    {
        if calendar_has(seconds, nanoseconds) {
            Some(Timestamp { seconds, nanoseconds })
        } else {
            None
        }
    }

    /// Whether `self` is strictly later than `other`.
    pub fn is_after(&self, other: &Timestamp) -> (r: bool)
        ensures
            r == self.later_than(*other),
    {
        self.seconds > other.seconds || (self.seconds == other.seconds && self.nanoseconds
            > other.nanoseconds)
    }

    /// The instant from which a cursor reads that is to yield what the
    /// broker took at `self` or later; see `reads_from`.
    pub fn cursor_start(&self) -> (from: Option<Timestamp>)
        ensures
            from == self.reads_from(),
    {
        match self.checked_offset() {
            Ok(at) => Some(at),
            Err(_) => {
                if self.seconds < OFFSET_MIN_SECONDS {
                    Some(Timestamp { seconds: OFFSET_MIN_SECONDS, nanoseconds: 0 })
                } else if self.seconds >= OFFSET_MAX_SECONDS {
                    None
                } else {
                    Some(Timestamp { seconds: self.seconds + 1, nanoseconds: 0 })
                }
            },
        }
    }

    /// This instant, checked to be one that the broker's clock can hold, as
    /// a start time handed to the broker must be.
    pub fn checked_offset(&self) -> (r: Result<Timestamp, time::error::ComponentRange>)
        ensures
            r.is_ok() <==> in_offset_range(self.seconds as int, self.nanoseconds as int),
            r matches Ok(at) ==> at == *self,
    {
        match time::OffsetDateTime::from_unix_timestamp(self.seconds) {
            Err(e) => Err(e),
            Ok(whole) => match whole.replace_nanosecond(self.nanoseconds) {
                Err(e) => Err(e),
                Ok(_) => Ok(*self),
            },
        }
    }
}

/// `reads_from` gives an instant that the broker's clock holds and that is
/// `start` or later.
pub proof fn lemma_reads_from_is_held(start: Timestamp)
    ensures
        start.reads_from() matches Some(from) ==> from.on_offset() && from.at_or_after(start),
{
}

/// Reading from `reads_from` loses nothing and adds nothing: an instant
/// that the broker's clock holds is `start` or later exactly where
/// `reads_from` gives an instant and it is that or later.
pub proof fn lemma_reads_from_is_earliest(start: Timestamp, at: Timestamp)
    requires
        at.on_offset(),
    ensures
        at.at_or_after(start) <==> (start.reads_from() matches Some(from) && at.at_or_after(from)),
{
}

} // verus!
