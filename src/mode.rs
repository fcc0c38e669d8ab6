//! Light or dark at an instant, with the time left until it changes.

use vstd::prelude::*;
use crate::light::{current_timestamp, spec_decide_mode, LightError, SunTime, MAX_TIMESTAMP_S};
use crate::timer::{spec_timer, ModeTimer};

verus! {

/// The mode at an instant, carrying the seconds left until the sun event that ends it.
#[derive(Clone, Copy, Debug, PartialEq, Eq, Structural)]
pub enum LightMode {
    Light(i64),
    Dark(i64),
}

/// Light until sunset strictly between sunrise and sunset, dark until sunrise otherwise.
pub open spec fn spec_mode(sun_time: SunTime, timestamp: int) -> LightMode {
    let timer = spec_timer(sun_time, timestamp);
    if timer.mode == crate::light::LightMode::Light {
        LightMode::Light(timer.next)
    } else {
        LightMode::Dark(timer.next)
    }
}

/// The mode at `now` and the seconds left, given the sun times around it:
/// `NoSunTime` where there are none, `OutOfRange` where they are too far from
/// the epoch to subtract.
pub open spec fn spec_mode_at(now: int, sun: Option<SunTime>) -> Result<LightMode, LightError> {
    match sun {
        None => Err(LightError::NoSunTime),
        Some(s) => if s.spec_valid() {
            Ok(spec_mode(s, now))
        } else {
            Err(LightError::OutOfRange)
        },
    }
}

impl LightMode {
    /// The mode at `now` and the seconds left, given what the sun-time source returned for it.
    pub fn mode_at(now: i64, sun: Option<SunTime>) -> (r: Result<LightMode, LightError>)
        requires
            (SunTime { sunrise: now, sunset: now }).spec_valid(),
        ensures
            r == spec_mode_at(now as int, sun),
    {
        match sun {
            Some(s) => {
                if s.is_valid() {
                    Ok(LightMode::decide_mode(&s, now))
                } else {
                    Err(LightError::OutOfRange)
                }
            },
            None => Err(LightError::NoSunTime),
        }
    }

    /// The mode at `timestamp` and the seconds left, given the sun times around it.
    pub fn decide_mode(sun_time: &SunTime, timestamp: i64) -> (r: LightMode)
        requires
            sun_time.spec_valid(),
            (SunTime { sunrise: timestamp, sunset: timestamp }).spec_valid(),
        ensures
            r == spec_mode(*sun_time, timestamp as int),
            spec_decide_mode(*sun_time, timestamp as int) == crate::light::LightMode::Light ==> r
                == LightMode::Light((sun_time.sunset - timestamp) as i64),
            spec_decide_mode(*sun_time, timestamp as int) == crate::light::LightMode::Dark ==> r
                == LightMode::Dark((sun_time.sunrise - timestamp) as i64),
    {
        let timer = ModeTimer::get_timer(sun_time, timestamp);
        match timer.mode {
            crate::light::LightMode::Light => LightMode::Light(timer.next),
            crate::light::LightMode::Dark => LightMode::Dark(timer.next),
        }
    }

    /// The mode now and the seconds left, with `sun_time_at` giving the sun
    /// times around an instant (in seconds). Fails with `Clock` where the
    /// clock cannot be read; otherwise the result is `mode_at` of the reading
    /// and of what `sun_time_at` gave for it.
    pub fn get_mode<F: Fn(i64) -> Option<SunTime>>(sun_time_at: F) -> (r: Result<LightMode, LightError>)
        requires
            forall|t: i64| sun_time_at.requires((t,)),
        ensures
            r == Err::<LightMode, LightError>(LightError::Clock) || exists|t: i64, o: Option<SunTime>|
                0 <= t <= MAX_TIMESTAMP_S && sun_time_at.ensures((t,), o) && r == spec_mode_at(t as int, o),
    {
        let now = match current_timestamp() {
            Some(t) => t,
            None => {
                return Err(LightError::Clock);
            },
        };
        let sun = sun_time_at(now);
        LightMode::mode_at(now, sun)
    }
}

} // verus!
