//! Points in time, as the mock client and the chain's messages write them.
//!
//! A [`MockTime`] is an instant of UTC. The calendar is chrono's: its range is
//! chrono's range, a leap second is written the way chrono writes it, and the
//! text forms are read and written by chrono and by tendermint-proto.

use std::str::FromStr;
use std::time::Duration;
use std::time::SystemTime;
use std::time::UNIX_EPOCH;
use chrono::format::ParseError;
use chrono::DateTime;
use chrono::Utc;
use vstd::prelude::*;
use crate::protobuf::Timestamp;

verus! {

/// Seconds from the Unix epoch to the first instant that the calendar holds:
/// the start of the year 262144 BCE.
pub const MIN_SECONDS: i64 = -8_334_601_228_800;

/// Seconds from the Unix epoch to the last second that the calendar holds:
/// the end of the year 262142 CE.
pub const MAX_SECONDS: i64 = 8_210_266_876_799;

/// The nanoseconds of one second.
pub const NANOS_PER_SECOND: u32 = 1_000_000_000;

/// The parse error of chrono, which says why a text is no date and time.
#[verifier::external_type_specification]
#[verifier::external_body]
pub struct ExParseError(ParseError);

/// The system clock's point in time.
#[verifier::external_type_specification]
#[verifier::external_body]
pub struct ExSystemTime(SystemTime);

/// Why an operation on a time failed.
#[derive(Copy, Clone, Debug, PartialEq, Eq)]
pub enum TimeError {
    /// The text is not a date and time of RFC 3339.
    Parse(ParseError),
    /// The time, or the distance between two times, cannot be represented.
    OutOfRange,
}

/// The pair of seconds and nanoseconds denotes an instant of the calendar.
///
/// The seconds count from the Unix epoch and lie in the calendar's range. The
/// nanoseconds count from the start of that second. They stay below one
/// second, but for a leap second: that is written as the last second of a
/// minute with a further second's worth of nanoseconds on top.
pub open spec fn valid_instant(seconds: int, nanos: int) -> bool {
    &&& MIN_SECONDS <= seconds <= MAX_SECONDS
    &&& 0 <= nanos < 2 * NANOS_PER_SECOND
    &&& nanos >= NANOS_PER_SECOND ==> seconds % 60 == 59
}

/// The second of its day at which an instant lies.
pub open spec fn second_of_day(seconds: int) -> int {
    seconds % 86_400
}

/// The nanoseconds from the instant `b` to the instant `a`; negative where
/// `a` is the earlier one.
///
/// This is the difference of the two pairs, with the correction that chrono
/// makes for a leap second: where `b` lies in a leap second and `a` at a
/// later second of the day, one second is added; where `a` lies in a leap
/// second and `b` at a later second of the day, one second is taken away.
pub open spec fn nanos_between(a_seconds: int, a_nanos: int, b_seconds: int, b_nanos: int) -> int {
    let leap = if second_of_day(a_seconds) > second_of_day(b_seconds) && b_nanos
        >= NANOS_PER_SECOND {
        1int
    } else if second_of_day(a_seconds) < second_of_day(b_seconds) && a_nanos >= NANOS_PER_SECOND {
        -1int
    } else {
        0int
    };
    (a_seconds - b_seconds + leap) * NANOS_PER_SECOND + (a_nanos - b_nanos)
}

/// The duration of so many seconds and nanoseconds.
pub uninterp spec fn duration_of(seconds: int, nanos: int) -> Duration;

/// The instant that a text denotes by RFC 3339, as seconds and nanoseconds;
/// none where the text is no date and time of RFC 3339.
pub uninterp spec fn rfc3339_instant(text: Seq<char>) -> Option<(int, int)>;

/// The text of an instant by RFC 3339 in UTC, with the fraction of the second
/// written without trailing zeros.
pub uninterp spec fn rfc3339_text(seconds: int, nanos: int) -> Seq<char>;

/// An instant of UTC, to the nanosecond.
#[derive(Copy, Clone, Debug, PartialEq, Eq, PartialOrd, Ord, Hash, Structural)]
pub struct MockTime {
    seconds: i64,
    nanos: u32,
}

/// Parse a time from a type.
pub trait ParseTimestamp {
    /// Parse the time, or say why the value holds none.
    fn parse_timestamp(&self) -> Result<MockTime, TimeError>;
}

/// Chrono's `Utc::now`: the reading of the system clock as an instant of the
/// calendar. Chrono builds the value from seconds and nanoseconds below one
/// second and refuses what the calendar does not hold, so the pair is a valid
/// instant. It does not return on a machine whose clock stands before the
/// Unix epoch.
#[verifier::external_body]
fn utc_now() -> (parts: (i64, u32))
    ensures
        valid_instant(parts.0 as int, parts.1 as int),
{
    let now = Utc::now();
    (now.timestamp(), now.timestamp_subsec_nanos())
}

/// Chrono's `DateTime::parse_from_rfc3339`: reads a date and time with its
/// offset and gives the instant in UTC, or the error that chrono reports. The
/// result depends on the text alone.
#[verifier::external_body]
fn parse_rfc3339(text: &str) -> (parsed: Result<(i64, u32), ParseError>)
    ensures
        match parsed {
            Ok(parts) => rfc3339_instant(text@) == Some((parts.0 as int, parts.1 as int)),
            Err(_) => rfc3339_instant(text@) is None,
        },
{
    match DateTime::parse_from_rfc3339(text) {
        Ok(parsed) => Ok((parsed.timestamp(), parsed.timestamp_subsec_nanos())),
        Err(e) => Err(e),
    }
}

/// Chrono's `DateTime::signed_duration_since`: the time from `b` to `a`, as
/// whole seconds and the nanoseconds beyond them, both of the sign of the
/// difference. Chrono subtracts days, seconds of the day and nanoseconds, and
/// corrects the seconds by one where an instant lies in a leap second and the
/// other later in the day, as `nanos_between` writes out. Two instants of
/// the calendar are never too far apart for the result.
#[verifier::external_body]
fn signed_duration_since(a_seconds: i64, a_nanos: u32, b_seconds: i64, b_nanos: u32) -> (d: (
    i64,
    i32,
))
    requires
        valid_instant(a_seconds as int, a_nanos as int),
        valid_instant(b_seconds as int, b_nanos as int),
    ensures
        d.0 * 1_000_000_000 + d.1 == nanos_between(
            a_seconds as int,
            a_nanos as int,
            b_seconds as int,
            b_nanos as int,
        ),
        -1_000_000_000 < d.1 < 1_000_000_000,
        d.0 > 0 ==> d.1 >= 0,
        d.0 < 0 ==> d.1 <= 0,
{
    let a = DateTime::from_timestamp(a_seconds, a_nanos).unwrap();
    let b = DateTime::from_timestamp(b_seconds, b_nanos).unwrap();
    let d = a.signed_duration_since(b);
    (d.num_seconds(), d.subsec_nanos())
}

/// `Duration::new`: the duration of so many seconds and nanoseconds. With the
/// nanoseconds below one second nothing is carried and the call returns.
#[verifier::external_body]
fn duration_new(seconds: u64, nanos: u32) -> (d: Duration)
    requires
        nanos < NANOS_PER_SECOND,
    ensures
        d == duration_of(seconds as int, nanos as int),
{
    Duration::new(seconds, nanos)
}

/// The `to_rfc3339_nanos` of tendermint-proto's timestamp serialiser: the
/// RFC 3339 text of an instant in UTC, ending in `Z`, with as many digits of
/// the fraction as are needed and none where it is zero.
#[verifier::external_body]
fn rfc3339_nanos(seconds: i64, nanos: u32) -> (text: String)
    requires
        valid_instant(seconds as int, nanos as int),
    ensures
        text@ == rfc3339_text(seconds as int, nanos as int),
{
    let time = DateTime::from_timestamp(seconds, nanos).unwrap();
    tendermint_proto::serializers::timestamp::to_rfc3339_nanos(&time)
}

/// `SystemTime::checked_add` on the Unix epoch: the system clock's point in
/// time that lies a duration after the epoch, or none where the system
/// clock's type cannot hold it. Which durations it can hold depends on the
/// platform.
#[verifier::external_body]
fn epoch_plus(d: Duration) -> (t: Option<SystemTime>) {
    UNIX_EPOCH.checked_add(d)
}

impl MockTime {
    #[verifier::type_invariant]
    spec fn well_formed(self) -> bool {
        valid_instant(self.seconds as int, self.nanos as int)
    }

    /// The whole seconds from the Unix epoch to this instant.
    pub closed spec fn seconds(self) -> int {
        self.seconds as int
    }

    /// The nanoseconds from the start of the second to this instant.
    pub closed spec fn nanos(self) -> int {
        self.nanos as int
    }

    /// The nanoseconds from the instant `other` to this instant.
    pub open spec fn nanos_since(self, other: MockTime) -> int {
        nanos_between(self.seconds(), self.nanos(), other.seconds(), other.nanos())
    }

    /// The nanoseconds from the Unix epoch to this instant.
    pub open spec fn nanos_since_epoch(self) -> int {
        self.seconds() * NANOS_PER_SECOND + self.nanos()
    }

    /// What a protobuf timestamp denotes: the instant so many seconds and
    /// nanoseconds after the epoch, with the nanoseconds carried into the
    /// seconds; `OutOfRange` where the calendar does not hold that instant.
    pub open spec fn decode(value: Timestamp) -> Result<(int, int), TimeError> {
        let seconds = value.seconds as int + (value.nanos as int) / 1_000_000_000;
        let nanos = (value.nanos as int) % 1_000_000_000;
        if MIN_SECONDS <= seconds <= MAX_SECONDS {
            Ok((seconds, nanos))
        } else {
            Err(TimeError::OutOfRange)
        }
    }

    /// The time of so many seconds after the Unix epoch and so many
    /// nanoseconds after that second, or `OutOfRange` where the two are no
    /// valid instant.
    pub fn from_parts(seconds: i64, nanos: u32) -> (r: Result<MockTime, TimeError>)
        ensures
            valid_instant(seconds as int, nanos as int) ==> r is Ok && r->Ok_0.seconds() == seconds
                && r->Ok_0.nanos() == nanos,
            !valid_instant(seconds as int, nanos as int) ==> r == Err::<MockTime, TimeError>(
                TimeError::OutOfRange,
            ),
    {
        if seconds < MIN_SECONDS || seconds > MAX_SECONDS || nanos >= 2_000_000_000 {
            return Err(TimeError::OutOfRange);
        }
        if nanos >= NANOS_PER_SECOND {
            let shifted: u64 = (seconds - MIN_SECONDS) as u64;
            assert(shifted % 60 == seconds % 60) by {
                assert(MIN_SECONDS == 60 * (-138_910_020_480int));
                vstd::arithmetic::div_mod::lemma_mod_multiples_vanish(
                    138_910_020_480int,
                    seconds as int,
                    60,
                );
            }
            if shifted % 60 != 59 {
                return Err(TimeError::OutOfRange);
            }
        }
        Ok(MockTime { seconds, nanos })
    }

    /// The whole seconds from the Unix epoch to this instant.
    pub fn timestamp(&self) -> (seconds: i64)
        ensures
            seconds == self.seconds(),
            MIN_SECONDS <= seconds <= MAX_SECONDS,
    {
        proof {
            use_type_invariant(self);
        }
        self.seconds
    }

    /// The nanoseconds from the start of the second to this instant. In a
    /// leap second they exceed 999,999,999.
    pub fn timestamp_subsec_nanos(&self) -> (nanos: u32)
        ensures
            nanos == self.nanos(),
            valid_instant(self.seconds(), nanos as int),
    {
        proof {
            use_type_invariant(self);
        }
        self.nanos
    }

    /// The current time of the system clock. Nothing is known of it but that
    /// it is a valid instant.
    pub fn now() -> (t: MockTime)
        ensures
            valid_instant(t.seconds(), t.nanos()),
    {
        let parts = utc_now();
        MockTime { seconds: parts.0, nanos: parts.1 }
    }

    /// The Unix epoch, 1970-01-01 00:00:00 UTC.
    pub fn unix_epoch() -> (t: MockTime)
        ensures
            t.seconds() == 0,
            t.nanos() == 0,
    {
        MockTime { seconds: 0, nanos: 0 }
    }

    /// The time that has passed since `other`, or `OutOfRange` where this
    /// instant is the earlier one.
    pub fn duration_since(&self, other: MockTime) -> (r: Result<Duration, TimeError>)
        ensures
            r == if self.nanos_since(other) >= 0 {
                Ok::<Duration, TimeError>(
                    duration_of(
                        self.nanos_since(other) / 1_000_000_000,
                        self.nanos_since(other) % 1_000_000_000,
                    ),
                )
            } else {
                Err::<Duration, TimeError>(TimeError::OutOfRange)
            },
    {
        proof {
            use_type_invariant(self);
            use_type_invariant(other);
        }
        let d = signed_duration_since(self.seconds, self.nanos, other.seconds, other.nanos);
        if d.0 < 0 || d.1 < 0 {
            Err(TimeError::OutOfRange)
        } else {
            proof {
                vstd::arithmetic::div_mod::lemma_fundamental_div_mod_converse(
                    self.nanos_since(other),
                    1_000_000_000,
                    d.0 as int,
                    d.1 as int,
                );
            }
            Ok(duration_new(d.0 as u64, d.1 as u32))
        }
    }

    /// What a parse gives: the time of the parsed instant, the parse error,
    /// or `OutOfRange` where the parsed pair is no valid instant.
    pub fn from_parsed(parsed: Result<(i64, u32), ParseError>) -> (r: Result<MockTime, TimeError>)
        ensures
            match parsed {
                Ok(parts) => if valid_instant(parts.0 as int, parts.1 as int) {
                    r is Ok && r->Ok_0.seconds() == parts.0 && r->Ok_0.nanos() == parts.1
                } else {
                    r == Err::<MockTime, TimeError>(TimeError::OutOfRange)
                },
                Err(e) => r == Err::<MockTime, TimeError>(TimeError::Parse(e)),
            },
    {
        match parsed {
            Ok(parts) => MockTime::from_parts(parts.0, parts.1),
            Err(e) => Err(TimeError::Parse(e)),
        }
    }

    /// Parse a time from a date and time of RFC 3339.
    ///
    /// The result is the instant that the text denotes. A text that is no
    /// date and time of RFC 3339 gives the parse error.
    pub fn parse_from_rfc3339(s: &str) -> (r: Result<MockTime, TimeError>)
        ensures
            match rfc3339_instant(s@) {
                Some(parts) => if valid_instant(parts.0, parts.1) {
                    r is Ok && r->Ok_0.seconds() == parts.0 && r->Ok_0.nanos() == parts.1
                } else {
                    r == Err::<MockTime, TimeError>(TimeError::OutOfRange)
                },
                None => r matches Err(TimeError::Parse(_)),
            },
    {
        MockTime::from_parsed(parse_rfc3339(s))
    }

    /// The date and time in the form of RFC 3339, in UTC and with the
    /// fraction of the second written without trailing zeros.
    pub fn to_rfc3339(&self) -> (text: String)
        ensures
            text@ == rfc3339_text(self.seconds(), self.nanos()),
    {
        proof {
            use_type_invariant(self);
        }
        rfc3339_nanos(self.seconds, self.nanos)
    }

    /// What adding to the epoch gives: the point in time, or `OutOfRange`
    /// where the system clock's type could not hold it.
    pub fn from_epoch_sum(sum: Option<SystemTime>) -> (r: Result<SystemTime, TimeError>)
        ensures
            r == match sum {
                Some(t) => Ok::<SystemTime, TimeError>(t),
                None => Err::<SystemTime, TimeError>(TimeError::OutOfRange),
            },
    {
        match sum {
            Some(t) => Ok(t),
            None => Err(TimeError::OutOfRange),
        }
    }

    /// The same instant as a point in time of the system clock.
    ///
    /// An instant before the Unix epoch gives `OutOfRange`. A later one gives
    /// the point in time that lies the duration since the epoch after the
    /// epoch, or `OutOfRange` where the system clock's type cannot hold that
    /// point, which depends on the platform.
    pub fn to_system_time(&self) -> (r: Result<SystemTime, TimeError>)
        ensures
            self.nanos_since_epoch() < 0 ==> r == Err::<SystemTime, TimeError>(
                TimeError::OutOfRange,
            ),
            r is Err ==> r == Err::<SystemTime, TimeError>(TimeError::OutOfRange),
    {
        proof {
            use_type_invariant(self);
            lemma_nanos_since_epoch(*self);
        }
        match self.duration_since(MockTime::unix_epoch()) {
            Ok(d) => MockTime::from_epoch_sum(epoch_plus(d)),
            Err(e) => Err(e),
        }
    }

    /// Reads a time from a protobuf timestamp.
    ///
    /// Nanoseconds outside `0..1_000_000_000` are carried into the seconds.
    /// The result is the instant so described, or `OutOfRange` where the
    /// calendar does not hold it.
    pub fn try_from(value: Timestamp) -> (r: Result<MockTime, TimeError>)
        ensures
            match MockTime::decode(value) {
                Ok(parts) => r is Ok && r->Ok_0.seconds() == parts.0 && r->Ok_0.nanos() == parts.1,
                Err(e) => r == Err::<MockTime, TimeError>(e),
            },
    {
        if value.seconds < MIN_SECONDS - 3 || value.seconds > MAX_SECONDS + 3 {
            return Err(TimeError::OutOfRange);
        }
        let carry: i64 = (value.nanos / 1_000_000_000) as i64;
        let rest: i32 = value.nanos % 1_000_000_000;
        let (seconds, nanos): (i64, u32) = if rest < 0 {
            (value.seconds + carry - 1, (rest + 1_000_000_000) as u32)
        } else {
            (value.seconds + carry, rest as u32)
        };
        assert(seconds == value.seconds + (value.nanos as int) / 1_000_000_000 && nanos == (
        value.nanos as int) % 1_000_000_000) by {
            vstd::arithmetic::div_mod::lemma_fundamental_div_mod_converse(
                value.nanos as int,
                1_000_000_000,
                seconds - value.seconds,
                nanos as int,
            );
        }
        if seconds < MIN_SECONDS || seconds > MAX_SECONDS {
            return Err(TimeError::OutOfRange);
        }
        Ok(MockTime { seconds, nanos })
    }
}

impl Timestamp {
    /// The protobuf timestamp of a time: the seconds and nanoseconds since
    /// the Unix epoch, a leap second counted as the second that follows.
    pub open spec fn encode(value: MockTime) -> Timestamp {
        Timestamp {
            seconds: (value.nanos_since_epoch() / 1_000_000_000) as i64,
            nanos: (value.nanos_since_epoch() % 1_000_000_000) as i32,
        }
    }

    /// Writes a time as a protobuf timestamp. The time must not lie before
    /// the Unix epoch.
    pub fn from(value: MockTime) -> (t: Timestamp)
        requires
            value.nanos_since_epoch() >= 0,
        ensures
            t == Timestamp::encode(value),
            t.seconds == value.nanos_since_epoch() / 1_000_000_000,
            t.nanos == value.nanos_since_epoch() % 1_000_000_000,
    {
        proof {
            use_type_invariant(value);
        }
        let (seconds, nanos): (i64, u32) = if value.nanos >= NANOS_PER_SECOND {
            (value.seconds + 1, value.nanos - NANOS_PER_SECOND)
        } else {
            (value.seconds, value.nanos)
        };
        assert(seconds == value.nanos_since_epoch() / 1_000_000_000 && nanos
            == value.nanos_since_epoch() % 1_000_000_000) by {
            vstd::arithmetic::div_mod::lemma_fundamental_div_mod_converse(
                value.nanos_since_epoch(),
                1_000_000_000,
                seconds as int,
                nanos as int,
            );
        }
        Timestamp { seconds, nanos: nanos as i32 }
    }
}

impl FromStr for MockTime {
    type Err = TimeError;

    fn from_str(s: &str) -> (r: Result<MockTime, TimeError>)
        ensures
            match rfc3339_instant(s@) {
                Some(parts) => if valid_instant(parts.0, parts.1) {
                    r is Ok && r->Ok_0.seconds() == parts.0 && r->Ok_0.nanos() == parts.1
                } else {
                    r == Err::<MockTime, TimeError>(TimeError::OutOfRange)
                },
                None => r matches Err(TimeError::Parse(_)),
            },
    {
        MockTime::parse_from_rfc3339(s)
    }
}

/// The nanoseconds from the Unix epoch to an instant are its seconds and
/// nanoseconds put together: no leap second lies at the epoch.
pub proof fn lemma_nanos_since_epoch(t: MockTime)
    requires
        valid_instant(t.seconds(), t.nanos()),
    ensures
        nanos_between(t.seconds(), t.nanos(), 0, 0) == t.nanos_since_epoch(),
{
}

/// The time from one instant to another is the opposite of the time back.
pub proof fn lemma_nanos_between_is_antisymmetric(a: MockTime, b: MockTime)
    ensures
        a.nanos_since(b) == -b.nanos_since(a),
        a.nanos_since(a) == 0,
{
}

/// Writing a time as a protobuf timestamp and reading it back gives the same
/// time, where the time does not lie before the Unix epoch and not in a leap
/// second.
pub proof fn lemma_timestamp_roundtrip(t: MockTime)
    requires
        valid_instant(t.seconds(), t.nanos()),
        t.nanos_since_epoch() >= 0,
        t.nanos() < NANOS_PER_SECOND,
    ensures
        MockTime::decode(Timestamp::encode(t)) == Ok::<(int, int), TimeError>(
            (t.seconds(), t.nanos()),
        ),
{
    vstd::arithmetic::div_mod::lemma_fundamental_div_mod_converse(
        t.nanos_since_epoch(),
        1_000_000_000,
        t.seconds(),
        t.nanos(),
    );
}

} // verus!
