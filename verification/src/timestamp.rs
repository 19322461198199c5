//! Points in time with an explicit offset from UTC, and the form in which a
//! config file stores them.
//!
//! A stored timestamp always names its date, its time of day and its offset.
//! One without an offset would mean a different moment on every machine, so
//! reading one is an error.

use vstd::prelude::*;
use crate::text::{four_digits, three_digits, two_digits};
use crate::text::{push_four_digits, push_three_digits, push_two_digits};

verus! {

/// The date part of a stored datetime.
#[derive(Debug, Clone, Copy, PartialEq, Eq, Structural)]
pub struct Date {
    pub year: u16,
    pub month: u8,
    pub day: u8,
}

/// The time-of-day part of a stored datetime.
#[derive(Debug, Clone, Copy, PartialEq, Eq, Structural)]
pub struct Time {
    pub hour: u8,
    pub minute: u8,
    pub second: u8,
    pub nanosecond: u32,
}

/// The offset part of a stored datetime.
#[derive(Debug, Clone, Copy, PartialEq, Eq, Structural)]
pub enum Offset {
    /// UTC itself.
    Z,
    /// Hours and minutes from UTC; the minutes count away from zero, in the
    /// direction of the hours.
    Custom { hours: i8, minutes: u8 },
}

/// A datetime as a config file holds it: any of its three parts may be
/// missing.
#[derive(Debug, Clone, Copy, PartialEq, Eq, Structural)]
pub struct Datetime {
    pub date: Option<Date>,
    pub time: Option<Time>,
    pub offset: Option<Offset>,
}

/// Why a datetime and a timestamp could not be turned into one another.
#[derive(Debug, Clone, Copy, PartialEq, Eq, Structural)]
pub enum TimestampError {
    /// The date, the time or the offset is missing.
    Incomplete,
    /// The month is not one of the twelve.
    BadMonth,
    /// The year is out of range or the month has no such day.
    BadDate,
    /// The hour, minute, second or nanosecond is out of range.
    BadTime,
    /// The offset's minutes cannot be stored or read.
    BadMinutes,
    /// The offset is out of range, or its parts point in different directions.
    BadOffset,
    /// The year cannot be stored.
    BadYear,
    /// The machine could not tell its offset from UTC.
    IndeterminateOffset,
}

/// A calendar date, a time of day and an offset from UTC, as plain numbers.
#[derive(Debug, Clone, Copy, PartialEq, Eq, Structural)]
pub struct Civil {
    pub year: i32,
    pub month: u8,
    pub day: u8,
    pub hour: u8,
    pub minute: u8,
    pub second: u8,
    pub nanosecond: u32,
    pub offset_hours: i8,
    pub offset_minutes: i8,
    pub offset_seconds: i8,
}

/// Leap years of the proleptic Gregorian calendar.
pub open spec fn is_leap_year(year: int) -> bool {
    year % 4 == 0 && (year % 100 != 0 || year % 400 == 0)
}

/// The number of days of a month, for months 1 to 12.
pub open spec fn days_in_month(year: int, month: int) -> int {
    if month == 2 {
        if is_leap_year(year) {
            29
        } else {
            28
        }
    } else if month == 4 || month == 6 || month == 9 || month == 11 {
        30
    } else {
        31
    }
}

/// A day that exists, in a year between -9999 and 9999.
pub open spec fn valid_date(year: int, month: int, day: int) -> bool {
    &&& -9999 <= year <= 9999
    &&& 1 <= month <= 12
    &&& 1 <= day <= days_in_month(year, month)
}

/// A time of day on a 24-hour clock.
pub open spec fn valid_time(hour: int, minute: int, second: int, nanosecond: int) -> bool {
    &&& 0 <= hour < 24
    &&& 0 <= minute < 60
    &&& 0 <= second < 60
    &&& 0 <= nanosecond < 1_000_000_000
}

/// An offset of at most 25:59:59 either way, whose parts all point the same
/// way.
pub open spec fn valid_offset(hours: int, minutes: int, seconds: int) -> bool {
    &&& -25 <= hours <= 25
    &&& -59 <= minutes <= 59
    &&& -59 <= seconds <= 59
    &&& ((hours >= 0 && minutes >= 0 && seconds >= 0) || (hours <= 0 && minutes <= 0 && seconds
        <= 0))
}

impl Civil {
    /// What is wrong with the numbers, if anything: the date is judged
    /// first, then the time, then the offset.
    pub open spec fn judged(self) -> Result<Civil, TimestampError> {
        if !valid_date(self.year as int, self.month as int, self.day as int) {
            Err(TimestampError::BadDate)
        } else if !valid_time(
            self.hour as int,
            self.minute as int,
            self.second as int,
            self.nanosecond as int,
        ) {
            Err(TimestampError::BadTime)
        } else if !valid_offset(
            self.offset_hours as int,
            self.offset_minutes as int,
            self.offset_seconds as int,
        ) {
            Err(TimestampError::BadOffset)
        } else {
            Ok(self)
        }
    }

    /// The numbers name a moment that exists.
    pub open spec fn valid(self) -> bool {
        &&& valid_date(self.year as int, self.month as int, self.day as int)
        &&& valid_time(
            self.hour as int,
            self.minute as int,
            self.second as int,
            self.nanosecond as int,
        )
        &&& valid_offset(
            self.offset_hours as int,
            self.offset_minutes as int,
            self.offset_seconds as int,
        )
    }
}

/// What reading a stored datetime gives. All three parts must be there. The
/// date is judged first, then the time, then the offset. Fractions of a
/// second are not read.
pub open spec fn read_datetime(dt: Datetime) -> Result<Civil, TimestampError> {
    if dt.date is None || dt.time is None || dt.offset is None {
        Err(TimestampError::Incomplete)
    } else {
        let date = dt.date->Some_0;
        let time = dt.time->Some_0;
        if !(1 <= date.month <= 12) {
            Err(TimestampError::BadMonth)
        } else if !valid_date(date.year as int, date.month as int, date.day as int) {
            Err(TimestampError::BadDate)
        } else if !valid_time(time.hour as int, time.minute as int, time.second as int, 0) {
            Err(TimestampError::BadTime)
        } else {
            match dt.offset->Some_0 {
                Offset::Z => Ok(
                    Civil {
                        year: date.year as i32,
                        month: date.month,
                        day: date.day,
                        hour: time.hour,
                        minute: time.minute,
                        second: time.second,
                        nanosecond: 0,
                        offset_hours: 0,
                        offset_minutes: 0,
                        offset_seconds: 0,
                    },
                ),
                Offset::Custom { hours, minutes } => if minutes > 127 {
                    Err(TimestampError::BadMinutes)
                } else if !(-25 <= hours <= 25 && minutes <= 59) {
                    Err(TimestampError::BadOffset)
                } else {
                    Ok(
                        Civil {
                            year: date.year as i32,
                            month: date.month,
                            day: date.day,
                            hour: time.hour,
                            minute: time.minute,
                            second: time.second,
                            nanosecond: 0,
                            offset_hours: hours,
                            offset_minutes: if hours < 0 {
                                (-(minutes as int)) as i8
                            } else {
                                minutes as i8
                            },
                            offset_seconds: 0,
                        },
                    )
                },
            }
        }
    }
}

/// What storing a moment gives. Years before 0 and offsets whose minutes
/// point west cannot be stored. Fractions of a second and the seconds of
/// the offset are left out.
pub open spec fn stored_datetime(c: Civil) -> Result<Datetime, TimestampError> {
    if c.year < 0 || c.year > 65535 {
        Err(TimestampError::BadYear)
    } else if c.offset_minutes < 0 {
        Err(TimestampError::BadMinutes)
    } else {
        Ok(
            Datetime {
                date: Some(Date { year: c.year as u16, month: c.month, day: c.day }),
                time: Some(
                    Time { hour: c.hour, minute: c.minute, second: c.second, nanosecond: 0 },
                ),
                offset: Some(
                    Offset::Custom { hours: c.offset_hours, minutes: c.offset_minutes as u8 },
                ),
            },
        )
    }
}

/// What is left of a moment once it has been stored: whole seconds, and an
/// offset of whole minutes.
pub open spec fn truncated(c: Civil) -> Civil {
    Civil { nanosecond: 0, offset_seconds: 0, ..c }
}

/// Where a moment lies on the one timeline that all offsets share:
/// nanoseconds since 1970-01-01T00:00:00Z, as the `time` crate counts them.
pub uninterp spec fn unix_nanos(c: Civil) -> int;

/// `time::OffsetDateTime::unix_timestamp_nanos`, on the moment that the
/// numbers name. Not proved: that the result is the count that `unix_nanos`
/// stands for, and that building the moment from valid numbers does not
/// panic.
#[verifier::external_body]
fn unix_timestamp_nanos(c: &Civil) -> (r: i128)
    requires
        c.valid(),
    ensures
        r == unix_nanos(*c),
{
    let month = time::Month::try_from(c.month).unwrap();
    let date = time::Date::from_calendar_date(c.year, month, c.day).unwrap();
    let clock = time::Time::from_hms_nano(c.hour, c.minute, c.second, c.nanosecond).unwrap();
    let offset = time::UtcOffset::from_hms(c.offset_hours, c.offset_minutes, c.offset_seconds)
        .unwrap();
    time::PrimitiveDateTime::new(date, clock).assume_offset(offset).unix_timestamp_nanos()
}

/// `time::error::IndeterminateOffset`: what `time` answers where it cannot
/// tell the offset of the machine. Nothing is known of its inside.
#[verifier::external_type_specification]
#[verifier::external_body]
pub struct ExIndeterminateOffset(time::error::IndeterminateOffset);

/// `time::OffsetDateTime::now_local`, read out as plain numbers. Nothing is
/// claimed of what comes back.
#[verifier::external_body]
fn now_local() -> Result<Civil, time::error::IndeterminateOffset> {
    let now = time::OffsetDateTime::now_local()?;
    let (year, month, day) = (now.year(), u8::from(now.month()), now.day());
    let (hour, minute, second, nanosecond) = now.time().as_hms_nano();
    let (offset_hours, offset_minutes, offset_seconds) = now.offset().as_hms();
    Ok(Civil {
        year, month, day,
        hour, minute, second, nanosecond,
        offset_hours, offset_minutes, offset_seconds,
    })
}

fn leap_year(year: i32) -> (r: bool)
    requires
        -9999 <= year <= 9999,
    ensures
        r == is_leap_year(year as int),
{
    // 10000 is a multiple of 400, so the shifted year is a leap year when
    // the year itself is one.
    let shifted: u32 = (year + 10000) as u32;
    shifted % 4 == 0 && (shifted % 100 != 0 || shifted % 400 == 0)
}

fn month_length(year: i32, month: u8) -> (r: u8)
    requires
        -9999 <= year <= 9999,
        1 <= month <= 12,
    ensures
        r == days_in_month(year as int, month as int),
{
    if month == 2 {
        if leap_year(year) {
            29
        } else {
            28
        }
    } else if month == 4 || month == 6 || month == 9 || month == 11 {
        30
    } else {
        31
    }
}

fn date_exists(year: i32, month: u8, day: u8) -> (r: bool)
    ensures
        r == valid_date(year as int, month as int, day as int),
{
    -9999 <= year && year <= 9999 && 1 <= month && month <= 12 && 1 <= day && day
        <= month_length(year, month)
}

fn offset_exists(hours: i8, minutes: i8, seconds: i8) -> (r: bool)
    ensures
        r == valid_offset(hours as int, minutes as int, seconds as int),
{
    -25 <= hours && hours <= 25 && -59 <= minutes && minutes <= 59 && -59 <= seconds && seconds
        <= 59 && ((hours >= 0 && minutes >= 0 && seconds >= 0) || (hours <= 0 && minutes <= 0
        && seconds <= 0))
}

/// A moment in time, with the offset from UTC in which it was written down.
#[derive(Debug, Clone, Copy)]
pub struct Timestamp {
    civil: Civil,
}

impl View for Timestamp {
    type V = Civil;

    closed spec fn view(&self) -> Civil {
        self.civil
    }
}

impl Timestamp {
    #[verifier::type_invariant]
    spec fn well_formed(self) -> bool {
        self.civil.valid()
    }

    /// The moment that the numbers name, where there is one.
    pub fn new(civil: Civil) -> (r: Result<Timestamp, TimestampError>)
        ensures
            match civil.judged() {
                Ok(_) => r is Ok && r->Ok_0@ == civil,
                Err(e) => r == Err::<Timestamp, TimestampError>(e),
            },
            r is Ok <==> civil.valid(),
    {
        if !date_exists(civil.year, civil.month, civil.day) {
            Err(TimestampError::BadDate)
        } else if !(civil.hour < 24 && civil.minute < 60 && civil.second < 60 && civil.nanosecond
            < 1_000_000_000) {
            Err(TimestampError::BadTime)
        } else if !offset_exists(civil.offset_hours, civil.offset_minutes, civil.offset_seconds) {
            Err(TimestampError::BadOffset)
        } else {
            Ok(Timestamp { civil })
        }
    }

    /// The date, time and offset of this moment. They always name a moment
    /// that exists.
    pub fn civil(&self) -> (r: Civil)
        ensures
            r == self@,
            r.valid(),
    {
        proof {
            use_type_invariant(self);
        }
        self.civil
    }

    /// The current moment in the machine's own offset. Fails where the
    /// machine cannot tell its offset, and would fail if its clock told a
    /// moment that does not exist.
    pub fn now() -> (r: Result<Timestamp, TimestampError>)
        ensures
            r is Ok ==> r->Ok_0@.valid(),
            r is Err ==> r->Err_0 is IndeterminateOffset || r->Err_0 is BadDate || r->Err_0
                is BadTime || r->Err_0 is BadOffset,
    {
        match now_local() {
            Ok(civil) => Timestamp::new(civil),
            Err(_) => Err(TimestampError::IndeterminateOffset),
        }
    }

    /// Whether this moment lies after `other` on the timeline. Offsets do
    /// not matter: 12:00 at +01:00 is before 11:30 at UTC.
    pub fn is_after(&self, other: &Timestamp) -> (r: bool)
        ensures
            r == (unix_nanos(self@) > unix_nanos(other@)),
    {
        proof {
            use_type_invariant(self);
            use_type_invariant(other);
        }
        unix_timestamp_nanos(&self.civil) > unix_timestamp_nanos(&other.civil)
    }

    /// Reads a stored datetime.
    pub fn from_datetime(dt: &Datetime) -> (r: Result<Timestamp, TimestampError>)
        ensures
            match read_datetime(*dt) {
                Ok(civil) => r is Ok && r->Ok_0@ == civil,
                Err(e) => r == Err::<Timestamp, TimestampError>(e),
            },
    {
        let (date, time, offset) = match (dt.date, dt.time, dt.offset) {
            (Some(date), Some(time), Some(offset)) => (date, time, offset),
            _ => {
                return Err(TimestampError::Incomplete);
            },
        };
        if !(1 <= date.month && date.month <= 12) {
            return Err(TimestampError::BadMonth);
        }
        let year: i32 = date.year as i32;
        if !date_exists(year, date.month, date.day) {
            return Err(TimestampError::BadDate);
        }
        if !(time.hour < 24 && time.minute < 60 && time.second < 60) {
            return Err(TimestampError::BadTime);
        }
        let (offset_hours, offset_minutes): (i8, i8) = match offset {
            Offset::Z => (0, 0),
            Offset::Custom { hours, minutes } => {
                if minutes > 127 {
                    return Err(TimestampError::BadMinutes);
                }
                if !(-25 <= hours && hours <= 25 && minutes <= 59) {
                    return Err(TimestampError::BadOffset);
                }
                let minutes: i8 = minutes as i8;
                (
                    hours,
                    if hours < 0 {
                        -minutes
                    } else {
                        minutes
                    },
                )
            },
        };
        Ok(
            Timestamp {
                civil: Civil {
                    year,
                    month: date.month,
                    day: date.day,
                    hour: time.hour,
                    minute: time.minute,
                    second: time.second,
                    nanosecond: 0,
                    offset_hours,
                    offset_minutes,
                    offset_seconds: 0,
                },
            },
        )
    }

    /// The datetime to store for this moment.
    pub fn to_datetime(&self) -> (r: Result<Datetime, TimestampError>)
        ensures
            r == stored_datetime(self@),
    {
        proof {
            use_type_invariant(self);
        }
        let c = self.civil;
        if c.year < 0 {
            return Err(TimestampError::BadYear);
        }
        if c.offset_minutes < 0 {
            return Err(TimestampError::BadMinutes);
        }
        Ok(
            Datetime {
                date: Some(Date { year: c.year as u16, month: c.month, day: c.day }),
                time: Some(
                    Time { hour: c.hour, minute: c.minute, second: c.second, nanosecond: 0 },
                ),
                offset: Some(
                    Offset::Custom { hours: c.offset_hours, minutes: c.offset_minutes as u8 },
                ),
            },
        )
    }
}

/// A year as a stamp writes it: four digits, or a minus sign and at least
/// three digits.
pub open spec fn year_text(year: int) -> Seq<char> {
    if year >= 0 {
        four_digits(year)
    } else if year > -1000 {
        seq!['-'] + three_digits(-year)
    } else {
        seq!['-'] + four_digits(-year)
    }
}

/// The stamp of a moment: year, month, day, hour and minute, each right
/// after the other.
pub open spec fn stamp_text(c: Civil) -> Seq<char> {
    year_text(c.year as int) + two_digits(c.month as int) + two_digits(c.day as int) + two_digits(
        c.hour as int,
    ) + two_digits(c.minute as int)
}

/// A moment to the minute, for use in the name of a file or directory.
#[derive(Debug, Clone, Copy)]
pub struct FilenameTimestamp {
    civil: Civil,
}

impl View for FilenameTimestamp {
    type V = Civil;

    closed spec fn view(&self) -> Civil {
        self.civil
    }
}

impl FilenameTimestamp {
    #[verifier::type_invariant]
    spec fn well_formed(self) -> bool {
        self.civil.valid()
    }

    /// The stamp as text.
    pub fn to_string(&self) -> (r: String)
        ensures
            r@ == stamp_text(self@),
            self@.valid(),
    {
        proof {
            use_type_invariant(self);
        }
        let c = self.civil;
        let mut out = String::new();
        if c.year >= 0 {
            push_four_digits(&mut out, c.year as u16);
        } else {
            proof {
                reveal_strlit("-");
            }
            out.append("-");
            let positive: u16 = (-c.year) as u16;
            if positive < 1000 {
                push_three_digits(&mut out, positive);
            } else {
                push_four_digits(&mut out, positive);
            }
        }
        push_two_digits(&mut out, c.month);
        push_two_digits(&mut out, c.day);
        push_two_digits(&mut out, c.hour);
        push_two_digits(&mut out, c.minute);
        out
    }
}

impl Timestamp {
    /// This moment as a stamp for the name of a file.
    pub fn into_filename(self) -> (r: FilenameTimestamp)
        ensures
            r@ == self@,
    {
        proof {
            use_type_invariant(&self);
        }
        FilenameTimestamp { civil: self.civil }
    }
}

/// A moment that was stored reads back as the same moment, cut to whole
/// seconds and to an offset of whole minutes.
pub proof fn lemma_stored_reads_back(c: Civil)
    requires
        c.valid(),
        stored_datetime(c) is Ok,
    ensures
        read_datetime(stored_datetime(c)->Ok_0) == Ok::<Civil, TimestampError>(truncated(c)),
        truncated(c).valid(),
{
}

/// A moment of whole seconds, with an offset of whole minutes, reads back
/// unchanged.
pub proof fn lemma_whole_seconds_read_back(c: Civil)
    requires
        c.valid(),
        c.nanosecond == 0,
        c.offset_seconds == 0,
        stored_datetime(c) is Ok,
    ensures
        read_datetime(stored_datetime(c)->Ok_0) == Ok::<Civil, TimestampError>(c),
{
}

/// A moment can be stored exactly when its year is not before 0 and its
/// offset's minutes do not point west.
pub proof fn lemma_storable(c: Civil)
    requires
        c.valid(),
    ensures
        stored_datetime(c) is Ok <==> c.year >= 0 && c.offset_minutes >= 0,
{
}

} // verus!
