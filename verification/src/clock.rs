//! Instants of time, and the two text forms that records carry.

use vstd::prelude::*;

verus! {

/// The earliest second that a [`Timestamp`] can hold, counted from the start
/// of 1970 in UTC.
pub const MIN_SECONDS: i64 = -8_334_601_228_800;

/// The latest second that a [`Timestamp`] can hold.
pub const MAX_SECONDS: i64 = 8_210_266_876_799;

/// The nanoseconds of a [`Timestamp`] stay below one second.
pub const NANOS_PER_SECOND: u32 = 1_000_000_000;

/// An offset from UTC stays within one day, both ends left out.
pub const SECONDS_PER_DAY: i32 = 86_400;

/// Whether the three numbers describe an instant that a [`Timestamp`] can
/// hold.
pub open spec fn in_range(seconds: int, nanos: int, offset: int) -> bool {
    &&& MIN_SECONDS <= seconds <= MAX_SECONDS
    &&& 0 <= nanos < NANOS_PER_SECOND
    &&& -SECONDS_PER_DAY < offset < SECONDS_PER_DAY
}

/// The RFC 3339 form of the instant `seconds` and `nanos` after the start of
/// 1970 in UTC, written as local time `offset` seconds east of UTC.
pub uninterp spec fn rfc3339_text(seconds: int, nanos: int, offset: int) -> Seq<char>;

/// The same instant's local date and time as `chrono` writes them for the
/// pattern `%Y%m%d_%H%M%S`: `YYYYMMDD_HHMMSS` for a year of four digits.
pub uninterp spec fn compact_text(seconds: int, nanos: int, offset: int) -> Seq<char>;

/// Whether `text` is the RFC 3339 form of an instant in range.
pub open spec fn is_clock_text(text: Seq<char>) -> bool {
    exists|seconds: int, nanos: int, offset: int|
        in_range(seconds, nanos, offset) && text == #[trigger] rfc3339_text(
            seconds,
            nanos,
            offset,
        )
}

/// An instant with the offset of the local time zone from UTC.
#[derive(Debug, Clone, Copy)]
pub struct Timestamp {
    seconds: i64,
    nanos: u32,
    offset: i32,
}

/// `chrono::Local::now`, taken apart into seconds since the start of 1970 in
/// UTC, nanoseconds within the second and the local offset in seconds east.
/// Nothing is claimed of the instant but the ranges that every `DateTime`
/// read from the system clock keeps.
#[verifier::external_body]
fn read_local_clock() -> (r: (i64, u32, i32))
    ensures
        in_range(r.0 as int, r.1 as int, r.2 as int),
{
    let now = chrono::Local::now();
    (now.timestamp(), now.timestamp_subsec_nanos(), now.offset().local_minus_utc())
}

/// `chrono::DateTime::to_rfc3339` for the instant that the three numbers
/// describe, in the time zone `offset` seconds east of UTC.
#[verifier::external_body]
fn chrono_rfc3339(seconds: i64, nanos: u32, offset: i32) -> (r: String)
    requires
        in_range(seconds as int, nanos as int, offset as int),
    ensures
        r@ == rfc3339_text(seconds as int, nanos as int, offset as int),
{
    let zone = chrono::FixedOffset::east_opt(offset).unwrap();
    let utc = chrono::DateTime::from_timestamp(seconds, nanos).unwrap();
    utc.with_timezone(&zone).to_rfc3339()
}

/// `chrono::DateTime::format` with the pattern `%Y%m%d_%H%M%S` for the
/// instant that the three numbers describe, in the time zone `offset`
/// seconds east of UTC.
#[verifier::external_body]
fn chrono_compact(seconds: i64, nanos: u32, offset: i32) -> (r: String)
    requires
        in_range(seconds as int, nanos as int, offset as int),
    ensures
        r@ == compact_text(seconds as int, nanos as int, offset as int),
{
    let zone = chrono::FixedOffset::east_opt(offset).unwrap();
    let utc = chrono::DateTime::from_timestamp(seconds, nanos).unwrap();
    utc.with_timezone(&zone).format("%Y%m%d_%H%M%S").to_string()
}

impl Timestamp {
    /// Seconds since the start of 1970 in UTC.
    pub closed spec fn seconds(self) -> int {
        self.seconds as int
    }

    /// Nanoseconds since the last full second.
    pub closed spec fn nanos(self) -> int {
        self.nanos as int
    }

    /// Seconds that local time is ahead of UTC.
    pub closed spec fn offset(self) -> int {
        self.offset as int
    }

    /// Every timestamp keeps its numbers in range.
    #[verifier::type_invariant]
    pub open spec fn valid(self) -> bool {
        in_range(self.seconds(), self.nanos(), self.offset())
    }

    /// The RFC 3339 form of this instant.
    pub open spec fn rfc3339(self) -> Seq<char> {
        rfc3339_text(self.seconds(), self.nanos(), self.offset())
    }

    /// This instant's local date and time in the form `YYYYMMDD_HHMMSS`.
    pub open spec fn compact(self) -> Seq<char> {
        compact_text(self.seconds(), self.nanos(), self.offset())
    }

    /// The instant `seconds` and `nanos` after the start of 1970 in UTC, in a
    /// zone `offset` seconds east of UTC; `None` when a number is out of
    /// range.
    pub fn new(seconds: i64, nanos: u32, offset: i32) -> (r: Option<Timestamp>)
        ensures
            r is Some <==> in_range(seconds as int, nanos as int, offset as int),
            r matches Some(t) ==> t.seconds() == seconds && t.nanos() == nanos && t.offset()
                == offset,
    {
        if MIN_SECONDS <= seconds && seconds <= MAX_SECONDS && nanos < NANOS_PER_SECOND
            && -SECONDS_PER_DAY < offset && offset < SECONDS_PER_DAY {
            Some(Timestamp { seconds, nanos, offset })
        } else {
            None
        }
    }

    /// Reads the system clock and the local time zone. Which instant comes
    /// back is the clock's affair.
    pub fn now() -> (r: Timestamp)
        ensures
            r.valid(),
    {
        let (seconds, nanos, offset) = read_local_clock();
        Timestamp { seconds, nanos, offset }
    }

    /// Writes this instant in RFC 3339 form, such as
    /// `2024-01-15T10:30:45.250+01:00`.
    pub fn to_rfc3339(&self) -> (r: String)
        ensures
            r@ == self.rfc3339(),
            is_clock_text(r@),
    {
        proof {
            use_type_invariant(self);
        }
        chrono_rfc3339(self.seconds, self.nanos, self.offset)
    }

    /// Writes this instant's local date and time as `YYYYMMDD_HHMMSS`.
    pub fn to_compact(&self) -> (r: String)
        ensures
            r@ == self.compact(),
    {
        proof {
            use_type_invariant(self);
        }
        chrono_compact(self.seconds, self.nanos, self.offset)
    }
}

} // verus!
