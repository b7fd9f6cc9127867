use vstd::prelude::*;

use crate::position::Degrees;

verus! {

/// Minimum time between two attempts to get a fix, in milliseconds.
pub const LOCATION_DIFF: i64 = 60_000;

/// The timestamp that a new location starts from: the earliest that there
/// is. Every clock reading from 1970 on lies more than a cooldown after it,
/// so that a fix is attempted at once, whatever the clock reads at first.
pub const NEVER_ATTEMPTED: i64 = i64::MIN;

/// Where the synchronizer stands: still trying, or holding a fix. Either way
/// the value is the clock reading, in milliseconds, of the last attempt or of
/// the last success.
#[derive(Clone, Copy, Debug, PartialEq, Eq, Structural)]
pub enum LocationState {
    Trying(i64),
    Retrieved(i64),
}

impl LocationState {
    /// The clock reading that the cooldown is measured from.
    pub open spec fn since(self) -> i64 {
        match self {
            LocationState::Trying(t) => t,
            LocationState::Retrieved(t) => t,
        }
    }
}

/// What the communication module answered to a location query. Each part may
/// be missing.
#[derive(Clone, Copy, Debug, PartialEq, Eq, Structural)]
pub struct LocationFix {
    pub lat: Option<Degrees>,
    pub lon: Option<Degrees>,
    /// Time of the position fix, in the module's epoch seconds.
    pub time: Option<u32>,
}

/// What the communication module answered to a time query.
#[derive(Clone, Copy, Debug, PartialEq, Eq, Structural)]
pub struct TimeFix {
    /// Seconds since 1970-01-01T00:00:00 UTC.
    pub time: Option<u32>,
}

/// A complete fix: position and time together. It is what the shared clock
/// is to be set from.
#[derive(Clone, Copy, Debug, PartialEq, Eq, Structural)]
pub struct Fix {
    pub lat: Degrees,
    pub lon: Degrees,
    pub position_time: u32,
    pub time: u32,
}

/// Last known position and time, and the state of the synchronizer.
#[derive(Clone, Copy, Debug, PartialEq, Eq, Structural)]
pub struct Location {
    pub lat: Degrees,
    pub lon: Degrees,
    pub position_time: u32,
    pub time: u32,
    pub state: LocationState,
}

/// The fix that two answers make together, if nothing is missing. A time
/// query that failed counts as an answer without a time.
pub open spec fn complete_fix<E>(gps: LocationFix, tm: Result<TimeFix, E>) -> Option<Fix> {
    match (gps.lat, gps.lon, gps.time, tm) {
        (Some(lat), Some(lon), Some(position_time), Ok(TimeFix { time: Some(time) })) => Some(
            Fix { lat, lon, position_time, time },
        ),
        _ => None,
    }
}

impl Location {
    /// The state before the first attempt: its timestamp lies so far back
    /// that every clock reading from 1970 on is past the cooldown.
    pub open spec fn initial() -> Location {
        Location {
            lat: Degrees::zero(),
            lon: Degrees::zero(),
            position_time: 0,
            time: 0,
            state: LocationState::Trying(NEVER_ATTEMPTED),
        }
    }

    /// The cooldown has run out at clock reading `now`.
    pub open spec fn due(self, now: i64) -> bool {
        now - self.state.since() > LOCATION_DIFF
    }

    /// The location after a fix has been taken over. The state is left as it
    /// was: it moves on once the clock has been set and read back.
    pub open spec fn with_fix(self, fix: Fix) -> Location {
        Location {
            lat: fix.lat,
            lon: fix.lon,
            position_time: fix.position_time,
            time: fix.time,
            state: self.state,
        }
    }

    /// The location with another state and everything else unchanged.
    pub open spec fn with_state(self, state: LocationState) -> Location {
        Location { state, ..self }
    }

    /// What `check_retrieve` makes of a location at clock reading `now` with
    /// the answers `gps` and `tm`, and the fix that it hands out.
    pub open spec fn checked<E>(self, now: i64, gps: LocationFix, tm: Result<TimeFix, E>) -> (
        Location,
        Option<Fix>,
    ) {
        if !self.due(now) {
            (self, None)
        } else {
            match complete_fix(gps, tm) {
                Some(fix) => (self.with_fix(fix), Some(fix)),
                None => (self.with_state(LocationState::Trying(now)), None),
            }
        }
    }

    /// A location before its first attempt: a fix is due whatever the clock
    /// reads, from 1970 on.
    pub fn new() -> (location: Location)
        ensures
            location == Location::initial(),
            forall|now: i64| now >= 0 ==> #[trigger] location.due(now),
    {
        Location {
            lat: Degrees { bits: 0 },
            lon: Degrees { bits: 0 },
            position_time: 0,
            time: 0,
            state: LocationState::Trying(NEVER_ATTEMPTED),
        }
    }

    /// Whether a fresh fix is to be asked for at clock reading `now`. The
    /// communication module is queried only when this holds.
    pub fn is_due(&self, now: i64) -> (due: bool)
        ensures
            due == self.due(now),
    {
        let since: i64 = match self.state {
            LocationState::Trying(t) => t,
            LocationState::Retrieved(t) => t,
        };
        now as i128 - since as i128 > LOCATION_DIFF as i128
    }

    /// Takes the answers of the communication module at clock reading `now`.
    ///
    /// Within the cooldown nothing changes. Past it, a complete fix is taken
    /// over and handed out, for the shared clock to be set from it; anything
    /// less schedules the next attempt one cooldown after `now`.
    pub fn check_retrieve<E>(&mut self, now: i64, gps: &LocationFix, tm: &Result<TimeFix, E>) -> (fix:
        Option<Fix>)
        ensures
            (*final(self), fix) == old(self).checked(now, *gps, *tm),
    {
        if !self.is_due(now) {
            return None;
        }
        match (gps.lat, gps.lon, gps.time, tm) {
            (Some(lat), Some(lon), Some(position_time), Ok(TimeFix { time: Some(time) })) => {
                self.lat = lat;
                self.lon = lon;
                self.position_time = position_time;
                self.time = *time;
                Some(Fix { lat, lon, position_time, time: *time })
            },
            _ => {
                self.state = LocationState::Trying(now);
                None
            },
        }
    }

    /// Records that the shared clock was set from the last fix and read
    /// `now` right after.
    pub fn retrieved(&mut self, now: i64)
        ensures
            *final(self) == old(self).with_state(LocationState::Retrieved(now)),
    {
        self.state = LocationState::Retrieved(now);
    }
}

/// Within the cooldown no fix is asked for and nothing changes, whatever
/// answers are handed in.
pub proof fn lemma_cooldown_holds<E>(
    location: Location,
    now: i64,
    gps: LocationFix,
    tm: Result<TimeFix, E>,
)
    requires
        now - location.state.since() <= LOCATION_DIFF,
    ensures
        !location.due(now),
        location.checked(now, gps, tm) == (location, None::<Fix>),
{
}

/// Past the cooldown, answers that lack the position, the time of the
/// position or the time, or a time query that failed, leave the last fix as
/// it was and put the synchronizer into `Trying(now)`: never into
/// `Retrieved`.
pub proof fn lemma_missing_data_retries<E>(
    location: Location,
    now: i64,
    gps: LocationFix,
    tm: Result<TimeFix, E>,
)
    requires
        location.due(now),
        gps.lat is None || gps.lon is None || gps.time is None || tm is Err || (tm matches Ok(t)
            && t.time is None),
    ensures
        complete_fix(gps, tm) is None,
        location.checked(now, gps, tm) == (
            location.with_state(LocationState::Trying(now)),
            None::<Fix>,
        ),
{
}

/// Past the cooldown, complete answers are taken over and handed out
/// unchanged: the clock is set to the time that the module gave. Once the
/// clock's reading after that, `read_back`, has been recorded, the state is
/// `Retrieved(read_back)`, and no attempt is due within a cooldown of it.
pub proof fn lemma_fix_retrieved<E>(
    location: Location,
    now: i64,
    gps: LocationFix,
    tm: Result<TimeFix, E>,
    read_back: i64,
    later: i64,
)
    requires
        location.due(now),
        gps.lat is Some,
        gps.lon is Some,
        gps.time is Some,
        tm matches Ok(t) && t.time is Some,
        later - read_back <= LOCATION_DIFF,
    ensures
        location.checked(now, gps, tm).1 == Some(
            Fix {
                lat: gps.lat->0,
                lon: gps.lon->0,
                position_time: gps.time->0,
                time: (tm->Ok_0).time->0,
            },
        ),
        location.checked(now, gps, tm).0 == location.with_fix(location.checked(now, gps, tm).1->0),
        location.checked(now, gps, tm).0.with_state(LocationState::Retrieved(read_back)).state
            == LocationState::Retrieved(read_back),
        !location.checked(now, gps, tm).0.with_state(LocationState::Retrieved(read_back)).due(
            later,
        ),
{
}

/// A new location is stale. It is due at every clock reading from 1970 on,
/// and at every earlier one but those within a cooldown of the earliest
/// reading that there is. So the first call past 1970 takes the answers it
/// is handed, and never falls under the cooldown.
pub proof fn lemma_first_check_is_due<E>(
    now: i64,
    gps: LocationFix,
    tm: Result<TimeFix, E>,
)
    ensures
        Location::initial().due(now) <==> now > i64::MIN + LOCATION_DIFF,
        now >= 0 ==> Location::initial().due(now),
        now >= 0 ==> Location::initial().checked(now, gps, tm) == (match complete_fix(gps, tm) {
            Some(fix) => (Location::initial().with_fix(fix), Some(fix)),
            None => (Location::initial().with_state(LocationState::Trying(now)), None::<Fix>),
        }),
{
}

} // verus!
