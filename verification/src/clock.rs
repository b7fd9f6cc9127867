use vstd::prelude::*;

use crate::calendar::{
    civil_from_timestamp, epoch_seconds, lemma_civil_unique, lemma_year_of_timestamp, valid_civil,
    CivilTime,
};

verus! {

/// The year that the year byte of a timestamp counts from.
pub const EPOCH_YEAR: i32 = 1970;

/// An instant in the calendar fields that a filesystem stores, one byte each:
/// years since 1970, month and day counted from 0, hours, minutes, seconds.
#[derive(Clone, Copy, Debug, PartialEq, Eq, Structural)]
pub struct Timestamp {
    pub year_since_1970: u8,
    pub zero_indexed_month: u8,
    pub zero_indexed_day: u8,
    pub hours: u8,
    pub minutes: u8,
    pub seconds: u8,
}

impl Timestamp {
    /// Midnight of 1 January 1970.
    pub open spec fn epoch() -> Timestamp {
        Timestamp {
            year_since_1970: 0,
            zero_indexed_month: 0,
            zero_indexed_day: 0,
            hours: 0,
            minutes: 0,
            seconds: 0,
        }
    }

    /// The fields name a day and a second of it, the year byte counted from
    /// `base_year`.
    pub open spec fn valid_from(self, base_year: int) -> bool {
        valid_civil(
            base_year + self.year_since_1970,
            self.zero_indexed_month as int,
            self.zero_indexed_day as int,
            self.hours as int,
            self.minutes as int,
            self.seconds as int,
        )
    }

    /// Seconds from 1970-01-01T00:00:00 to the instant that the fields name,
    /// the year byte counted from `base_year`.
    pub open spec fn epoch_seconds_from(self, base_year: int) -> int {
        epoch_seconds(
            base_year + self.year_since_1970,
            self.zero_indexed_month as int,
            self.zero_indexed_day as int,
            self.hours as int,
            self.minutes as int,
            self.seconds as int,
        )
    }

    /// The fields name a day between 1970 and 2225 and a second of it.
    pub open spec fn valid(self) -> bool {
        self.valid_from(1970)
    }

    /// Seconds from 1970-01-01T00:00:00 to the instant that the fields name.
    pub open spec fn epoch_seconds(self) -> int {
        self.epoch_seconds_from(1970)
    }

    /// The year byte counts from here when the instant lies `count` seconds
    /// from the epoch: from 1970, and for an instant before 1970, where the
    /// byte has wrapped, from 256 years earlier.
    pub open spec fn base_year(count: int) -> int {
        if count >= 0 {
            1970
        } else {
            1970 - 256
        }
    }

    /// The timestamp stands for the instant `count` seconds from the epoch.
    pub open spec fn denotes(self, count: int) -> bool {
        &&& self.valid_from(Self::base_year(count))
        &&& self.epoch_seconds_from(Self::base_year(count)) == count
    }

    /// The calendar fields behind the bytes, when the timestamp stands for
    /// an instant `count` seconds from the epoch.
    spec fn civil(self, count: int) -> CivilTime {
        CivilTime {
            year: (Self::base_year(count) + self.year_since_1970) as i32,
            month0: self.zero_indexed_month as u32,
            day0: self.zero_indexed_day as u32,
            hour: self.hours as u32,
            minute: self.minutes as u32,
            second: self.seconds as u32,
        }
    }

    /// The timestamp of the instant `count` seconds after
    /// 1970-01-01T00:00:00, every day taken as 86 400 seconds long.
    ///
    /// From 1970 on the fields are exact, and reading them back as seconds
    /// gives `count` again. Before 1970 only the year byte differs: the
    /// offset is negative there and wraps, so 1969 reads 255.
    pub fn from_epoch_seconds(count: i32) -> (ts: Timestamp)
        ensures
            ts.denotes(count as int),
            count >= 0 ==> ts.valid() && ts.epoch_seconds() == count,
    {
        let civil = civil_from_timestamp(count);
        proof {
            lemma_year_of_timestamp(civil);
        }
        let offset: i32 = civil.year - EPOCH_YEAR;
        let year_since_1970: u8 = if offset >= 0 {
            offset as u8
        } else {
            (offset + 256) as u8
        };
        Timestamp {
            year_since_1970,
            zero_indexed_month: civil.month0 as u8,
            zero_indexed_day: civil.day0 as u8,
            hours: civil.hour as u8,
            minutes: civil.minute as u8,
            seconds: civil.second as u8,
        }
    }
}

/// A time source for when no clock is to be had: it always answers with the
/// epoch.
#[derive(Clone, Copy, Debug)]
pub struct NullClock;

impl NullClock {
    pub fn get_timestamp(&self) -> (ts: Timestamp)
        ensures
            ts == Timestamp::epoch(),
    {
        Timestamp {
            year_since_1970: 0,
            zero_indexed_month: 0,
            zero_indexed_day: 0,
            hours: 0,
            minutes: 0,
            seconds: 0,
        }
    }
}

/// A time source that goes by the epoch counter: the seconds since 1970 that
/// the timer interrupt publishes.
#[derive(Clone, Copy, Debug)]
pub struct CountClock;

impl CountClock {
    /// The timestamp for the reading `count` of the epoch counter.
    pub fn get_timestamp(&self, count: i32) -> (ts: Timestamp)
        ensures
            ts.denotes(count as int),
            count >= 0 ==> ts.valid() && ts.epoch_seconds() == count,
    {
        Timestamp::from_epoch_seconds(count)
    }
}

/// The epoch timestamp is what the counter at zero gives.
pub proof fn lemma_epoch_is_zero()
    ensures
        Timestamp::epoch().denotes(0),
        Timestamp::epoch().epoch_seconds() == 0,
{
}

/// Two timestamps that stand for the same instant are the same: a reading of
/// the counter has one timestamp, and no two valid timestamps read back as
/// the same number of seconds.
pub proof fn lemma_timestamp_unique(a: Timestamp, b: Timestamp, count: int)
    requires
        a.denotes(count),
        b.denotes(count),
    ensures
        a == b,
{
    let ca = a.civil(count);
    let cb = b.civil(count);
    assert(ca.valid());
    assert(cb.valid());
    assert(ca.epoch_seconds() == cb.epoch_seconds());
    lemma_civil_unique(ca, cb);
}

} // verus!
