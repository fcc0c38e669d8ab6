//! The current light mode and the time left until it changes.

use vstd::prelude::*;
use crate::light::{current_timestamp, spec_decide_mode, LightError, LightMode, SunTime, MAX_TIMESTAMP_S};

verus! {

/// The light mode at an instant and the seconds until the sun event that ends it.
#[derive(Clone, Copy, Debug, PartialEq, Eq, Structural)]
pub struct ModeTimer {
    pub next: i64,
    pub mode: LightMode,
}

/// Until sunset in daylight, until sunrise otherwise.
pub open spec fn spec_timer(sun_time: SunTime, timestamp: int) -> ModeTimer {
    if spec_decide_mode(sun_time, timestamp) == LightMode::Light {
        ModeTimer { next: (sun_time.sunset - timestamp) as i64, mode: LightMode::Light }
    } else {
        ModeTimer { next: (sun_time.sunrise - timestamp) as i64, mode: LightMode::Dark }
    }
}

/// The timer at `now` given the sun times around it: `NoSunTime` where there
/// are none, `OutOfRange` where they are too far from the epoch to subtract.
pub open spec fn spec_timer_at(now: int, sun: Option<SunTime>) -> Result<ModeTimer, LightError> {
    match sun {
        None => Err(LightError::NoSunTime),
        Some(s) => if s.spec_valid() {
            Ok(spec_timer(s, now))
        } else {
            Err(LightError::OutOfRange)
        },
    }
}

impl ModeTimer {
    /// The timer at `now`, given what the sun-time source returned for it.
    pub fn timer_at(now: i64, sun: Option<SunTime>) -> (r: Result<ModeTimer, LightError>)
        requires
            (SunTime { sunrise: now, sunset: now }).spec_valid(),
        ensures
            r == spec_timer_at(now as int, sun),
    {
        match sun {
            Some(s) => {
                if s.is_valid() {
                    Ok(ModeTimer::get_timer(&s, now))
                } else {
                    Err(LightError::OutOfRange)
                }
            },
            None => Err(LightError::NoSunTime),
        }
    }

    pub fn next(&self) -> (r: i64)
        ensures
            r == self.next,
    {
        self.next
    }

    pub fn mode(&self) -> (r: LightMode)
        ensures
            r == self.mode,
    {
        self.mode
    }

    /// The mode at `timestamp` and the seconds left until it changes.
    pub fn get_timer(sun_time: &SunTime, timestamp: i64) -> (r: ModeTimer)
        requires
            sun_time.spec_valid(),
            (SunTime { sunrise: timestamp, sunset: timestamp }).spec_valid(),
        ensures
            r == spec_timer(*sun_time, timestamp as int),
            r.next == (if r.mode == LightMode::Light { sun_time.sunset - timestamp } else {
                sun_time.sunrise - timestamp
            }),
    {
        if LightMode::decide_mode(sun_time, timestamp) == LightMode::Light {
            ModeTimer { next: sun_time.sunset - timestamp, mode: LightMode::Light }
        } else {
            ModeTimer { next: sun_time.sunrise - timestamp, mode: LightMode::Dark }
        }
    }

    /// The timer now, with `sun_time_at` giving the sun times around an
    /// instant (in seconds). Fails with `Clock` where the clock cannot be
    /// read; otherwise the result is `timer_at` of the reading and of what
    /// `sun_time_at` gave for it.
    pub fn new<F: Fn(i64) -> Option<SunTime>>(sun_time_at: F) -> (r: Result<ModeTimer, LightError>)
        requires
            forall|t: i64| sun_time_at.requires((t,)),
        ensures
            r == Err::<ModeTimer, LightError>(LightError::Clock) || exists|t: i64, o: Option<SunTime>|
                0 <= t <= MAX_TIMESTAMP_S && sun_time_at.ensures((t,), o) && r == spec_timer_at(t as int, o),
    {
        let now = match current_timestamp() {
            Some(t) => t,
            None => {
                return Err(LightError::Clock);
            },
        };
        let sun = sun_time_at(now);
        ModeTimer::timer_at(now, sun)
    }
}

} // verus!
