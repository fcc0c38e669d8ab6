//! Light or dark, from the sun times around an instant.

use vstd::prelude::*;

verus! {

/// Bound on the magnitude of the timestamps compared here, in seconds.
pub const MAX_TIMESTAMP_S: i64 = 4611686018427387903;

/// Sunrise and sunset around an instant, in seconds from the Unix epoch.
#[derive(Clone, Copy, Debug, PartialEq, Eq, Structural)]
pub struct SunTime {
    pub sunrise: i64,
    pub sunset: i64,
}

impl SunTime {
    pub open spec fn spec_valid(&self) -> bool {
        -MAX_TIMESTAMP_S <= self.sunrise <= MAX_TIMESTAMP_S && -MAX_TIMESTAMP_S <= self.sunset
            <= MAX_TIMESTAMP_S
    }

    pub fn is_valid(&self) -> (r: bool)
        ensures
            r == self.spec_valid(),
    {
        -MAX_TIMESTAMP_S <= self.sunrise && self.sunrise <= MAX_TIMESTAMP_S && -MAX_TIMESTAMP_S
            <= self.sunset && self.sunset <= MAX_TIMESTAMP_S
    }

    pub fn sunrise(&self) -> (r: i64)
        ensures
            r == self.sunrise,
    {
        self.sunrise
    }

    pub fn sunset(&self) -> (r: i64)
        ensures
            r == self.sunset,
    {
        self.sunset
    }
}

/// Why the light mode could not be told.
#[derive(Clone, Copy, Debug, PartialEq, Eq, Structural)]
pub enum LightError {
    /// The system clock reads before the Unix epoch, or too far after it.
    Clock,
    /// The sun neither rises nor sets around the instant.
    NoSunTime,
    /// The sun times are too far from the epoch to subtract.
    OutOfRange,
}

/// Seconds from the Unix epoch to now, or `None` where the system clock
/// reads before the epoch.
///
/// Relies on std's `SystemTime::now`, on `SystemTime::duration_since`, which
/// returns an error when the clock reads before `UNIX_EPOCH`, and on
/// `Duration::as_secs`. Nothing is known of the reading itself.
#[verifier::external_body]
fn system_timestamp() -> (r: Option<u64>) {
    match std::time::SystemTime::now().duration_since(std::time::UNIX_EPOCH) {
        Ok(d) => Some(d.as_secs()),
        Err(_) => None,
    }
}

/// The current Unix timestamp in seconds, if the clock can be read and the
/// reading fits the timestamps compared here.
pub fn current_timestamp() -> (r: Option<i64>)
    ensures
        r matches Some(t) ==> 0 <= t <= MAX_TIMESTAMP_S,
{
    timestamp_from(system_timestamp())
}

/// A clock reading in whole seconds, kept where it fits the timestamps compared here.
pub open spec fn spec_timestamp_from(reading: Option<u64>) -> Option<i64> {
    match reading {
        Some(s) => if s <= MAX_TIMESTAMP_S as u64 {
            Some(s as i64)
        } else {
            None
        },
        None => None,
    }
}

/// Turns a clock reading (seconds from the epoch, `None` where the clock
/// could not be read) into a timestamp, dropping readings too large to compare.
pub fn timestamp_from(reading: Option<u64>) -> (r: Option<i64>)
    ensures
        r == spec_timestamp_from(reading),
        r matches Some(t) ==> 0 <= t <= MAX_TIMESTAMP_S,
{
    match reading {
        Some(s) => {
            if s <= MAX_TIMESTAMP_S as u64 {
                Some(s as i64)
            } else {
                None
            }
        },
        None => None,
    }
}

#[derive(Clone, Copy, Debug, PartialEq, Eq, Structural)]
pub enum LightMode {
    Light,
    Dark,
}

/// Light strictly between sunrise and sunset, dark otherwise.
pub open spec fn spec_decide_mode(sun_time: SunTime, timestamp: int) -> LightMode {
    if sun_time.sunrise < timestamp && timestamp < sun_time.sunset {
        LightMode::Light
    } else {
        LightMode::Dark
    }
}

/// The mode at `now` given the sun times around it, or `NoSunTime` where there are none.
pub open spec fn spec_mode_at(now: int, sun: Option<SunTime>) -> Result<LightMode, LightError> {
    match sun {
        Some(s) => Ok(spec_decide_mode(s, now)),
        None => Err(LightError::NoSunTime),
    }
}

impl LightMode {
    /// The mode at `now`, given what the sun-time source returned for it.
    pub fn mode_at(now: i64, sun: Option<SunTime>) -> (r: Result<LightMode, LightError>)
        ensures
            r == spec_mode_at(now as int, sun),
    {
        match sun {
            Some(s) => Ok(LightMode::decide_mode(&s, now)),
            None => Err(LightError::NoSunTime),
        }
    }

    /// Whether `timestamp` falls in daylight, given the sun times around it.
    pub fn decide_mode(sun_time: &SunTime, timestamp: i64) -> (r: LightMode)
        ensures
            r == spec_decide_mode(*sun_time, timestamp as int),
    {
        if sun_time.sunrise < timestamp && timestamp < sun_time.sunset {
            LightMode::Light
        } else {
            LightMode::Dark
        }
    }

    /// The mode now, with `sun_time_at` giving the sun times around an
    /// instant (in seconds), or `None` where the sun neither rises nor sets.
    /// Fails with `Clock` where the clock cannot be read; otherwise the
    /// result is `mode_at` of the reading and of what `sun_time_at` gave for it.
    pub fn get_mode<F: Fn(i64) -> Option<SunTime>>(sun_time_at: F) -> (r: Result<LightMode, LightError>)
        requires
            forall|t: i64| sun_time_at.requires((t,)),
        ensures
            r == Err::<LightMode, LightError>(LightError::Clock) || exists|t: i64, o: Option<SunTime>|
                0 <= t <= MAX_TIMESTAMP_S && sun_time_at.ensures((t,), o) && r == spec_mode_at(t as int, o),
    {
        let now = match current_timestamp() {
            Some(t) => t,
            None => {
                return Err(LightError::Clock);
            },
        };
        let sun = sun_time_at(now);
        LightMode::mode_at(now, sun)
    }
}

} // verus!
