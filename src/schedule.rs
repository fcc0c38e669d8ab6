//! Day/night mode scheduling: which profile is active now, and for how long.

use vstd::prelude::*;
use vstd::arithmetic::div_mod::lemma_fundamental_div_mod_converse;
use crate::config::{Location, MS_PER_DAY, Schedule, ScheduleType};

verus! {

/// Bound on the magnitude of every instant the scheduler handles, in milliseconds
/// from the Unix epoch (about 285,000 years).
pub const MAX_INSTANT_MS: i64 = 9007199254740992;

/// Seconds in one day; a zone's offset from UTC is strictly smaller.
pub const SECS_PER_DAY: i32 = 86400;

/// The active colour profile.
#[derive(Clone, Copy, Debug, PartialEq, Eq, Structural)]
pub enum ColorMode {
    Day,
    Night,
}

impl ColorMode {
    /// The mode's name as shown in logs.
    pub fn label(&self) -> (r: &'static str)
        ensures
            *self == ColorMode::Day ==> r@ == "[day]"@,
            *self == ColorMode::Night ==> r@ == "[night]"@,
    {
        match self {
            ColorMode::Day => "[day]",
            ColorMode::Night => "[night]",
        }
    }
}

/// Why no switch could be scheduled.
#[derive(Clone, Copy, Debug, PartialEq, Eq, Structural)]
pub enum ScheduleError {
    /// An entry follows the sun and no coordinates were given.
    LocationRequired,
    /// An entry follows the sun and the coordinates are out of range.
    OutOfRange,
    /// The sun does not rise or set on a date that the schedule needs.
    NoSolarEvent,
    /// A fixed clock time does not name one instant on a date that the
    /// schedule needs: the local zone skips or repeats it.
    NoLocalTime,
}

/// A reading of the wall clock.
#[derive(Clone, Copy, Debug, PartialEq, Eq, Structural)]
pub struct Clock {
    /// The current instant, in milliseconds from the Unix epoch.
    pub now_ms: i64,
    /// The local zone's offset from UTC at that instant, in seconds (east positive).
    pub utc_offset_s: i32,
}

/// What the schedule needs to know of one local date.
#[derive(Clone, Copy, Debug, PartialEq, Eq, Structural)]
pub struct DateEvents {
    /// Sunrise, in milliseconds from the Unix epoch; `None` where the sun does not rise.
    pub sunrise: Option<i64>,
    /// Sunset, in milliseconds from the Unix epoch; `None` where the sun does not set.
    pub sunset: Option<i64>,
    /// The local zone's offset from UTC, in seconds, at the day entry's clock
    /// time on this date; `None` where the zone skips or repeats that time.
    /// Read only when the day entry is a fixed time.
    pub day_offset_s: Option<i32>,
    /// The same for the night entry's clock time.
    pub night_offset_s: Option<i32>,
}

pub open spec fn instant_in_range(t: int) -> bool {
    -MAX_INSTANT_MS <= t <= MAX_INSTANT_MS
}

pub open spec fn event_in_range(e: Option<i64>) -> bool {
    match e {
        Some(t) => instant_in_range(t as int),
        None => true,
    }
}

pub open spec fn offset_in_range(o: Option<i32>) -> bool {
    match o {
        Some(s) => -SECS_PER_DAY < s < SECS_PER_DAY,
        None => true,
    }
}

impl DateEvents {
    pub open spec fn spec_valid(&self) -> bool {
        &&& event_in_range(self.sunrise)
        &&& event_in_range(self.sunset)
        &&& offset_in_range(self.day_offset_s)
        &&& offset_in_range(self.night_offset_s)
    }

    pub fn is_valid(&self) -> (r: bool)
        ensures
            r == self.spec_valid(),
    {
        let rise = match self.sunrise {
            Some(t) => -MAX_INSTANT_MS <= t && t <= MAX_INSTANT_MS,
            None => true,
        };
        let set = match self.sunset {
            Some(t) => -MAX_INSTANT_MS <= t && t <= MAX_INSTANT_MS,
            None => true,
        };
        let day = match self.day_offset_s {
            Some(o) => -SECS_PER_DAY < o && o < SECS_PER_DAY,
            None => true,
        };
        let night = match self.night_offset_s {
            Some(o) => -SECS_PER_DAY < o && o < SECS_PER_DAY,
            None => true,
        };
        rise && set && day && night
    }
}

impl Clock {
    pub open spec fn spec_valid(&self) -> bool {
        &&& instant_in_range(self.now_ms as int)
        &&& -SECS_PER_DAY < self.utc_offset_s < SECS_PER_DAY
    }

    pub open spec fn offset_ms(&self) -> int {
        self.utc_offset_s as int * 1000
    }

    /// The current instant read on the local zone's scale.
    pub open spec fn local_ms(&self) -> int {
        self.now_ms as int + self.offset_ms()
    }

    /// The local calendar date, as days since 1970-01-01.
    pub open spec fn spec_local_date(&self) -> int {
        self.local_ms() / (MS_PER_DAY as int)
    }

    /// Local midnight that began today, on the local zone's scale.
    pub open spec fn spec_local_midnight(&self) -> int {
        self.local_ms() - self.local_ms() % (MS_PER_DAY as int)
    }

    pub fn is_valid(&self) -> (r: bool)
        ensures
            r == self.spec_valid(),
    {
        -MAX_INSTANT_MS <= self.now_ms && self.now_ms <= MAX_INSTANT_MS && -SECS_PER_DAY
            < self.utc_offset_s && self.utc_offset_s < SECS_PER_DAY
    }

    /// The current instant in whole seconds from the Unix epoch, rounded down.
    pub fn timestamp_s(&self) -> (r: i64)
        ensures
            r == self.now_ms as int / 1000,
    {
        match self.now_ms.checked_div_euclid(1000) {
            Some(t) => t,
            None => 0,
        }
    }

    fn local_ms_exec(&self) -> (r: i64)
        requires
            self.spec_valid(),
        ensures
            r == self.local_ms(),
    {
        self.now_ms + self.utc_offset_s as i64 * 1000
    }

    /// The local calendar date, as days since 1970-01-01.
    pub fn local_date(&self) -> (r: i64)
        requires
            self.spec_valid(),
        ensures
            r == self.spec_local_date(),
    {
        let local = self.local_ms_exec();
        match local.checked_div_euclid(MS_PER_DAY) {
            Some(d) => d,
            None => 0,
        }
    }

    fn local_midnight(&self) -> (r: i64)
        requires
            self.spec_valid(),
        ensures
            r == self.spec_local_midnight(),
    {
        let local = self.local_ms_exec();
        let rem = match local.checked_rem_euclid(MS_PER_DAY) {
            Some(m) => m,
            None => 0,
        };
        local - rem
    }
}

/// The instant at which `entry` falls on the local date whose midnight is
/// `midnight` (local scale), given that date's sun event and the zone's
/// offset at the entry's clock time.
pub open spec fn entry_instant(entry: ScheduleType, midnight: int, event: Option<i64>, offset_s: Option<i32>) -> Result<int, ScheduleError> {
    match entry {
        ScheduleType::Auto => match event {
            Some(t) => Ok(t as int),
            None => Err(ScheduleError::NoSolarEvent),
        },
        ScheduleType::Fixed(t) => match offset_s {
            Some(o) => Ok(midnight + t - o * 1000),
            None => Err(ScheduleError::NoLocalTime),
        },
        ScheduleType::Relative(d) => match event {
            Some(t) => Ok(t + d),
            None => Err(ScheduleError::NoSolarEvent),
        },
    }
}

pub open spec fn day_instant(schedule: Schedule, midnight: int, events: DateEvents) -> Result<int, ScheduleError> {
    entry_instant(schedule.day, midnight, events.sunrise, events.day_offset_s)
}

pub open spec fn night_instant(schedule: Schedule, midnight: int, events: DateEvents) -> Result<int, ScheduleError> {
    entry_instant(schedule.night, midnight, events.sunset, events.night_offset_s)
}

/// The mode in force at the clock's instant and the delay, in milliseconds,
/// until the next switch (one past the switch instant).
pub open spec fn spec_next_schedule(
    schedule: Schedule,
    clock: Clock,
    today: DateEvents,
    tomorrow: DateEvents,
) -> Result<(ColorMode, int), ScheduleError> {
    let midnight = clock.spec_local_midnight();
    let now = clock.now_ms as int;
    match (day_instant(schedule, midnight, today), night_instant(schedule, midnight, today)) {
        (Err(e), _) => Err(e),
        (Ok(_), Err(e)) => Err(e),
        (Ok(day), Ok(night)) => if now < day {
            Ok((ColorMode::Night, day - now + 1))
        } else if now < night {
            Ok((ColorMode::Day, night - now + 1))
        } else {
            match day_instant(schedule, midnight + MS_PER_DAY, tomorrow) {
                Ok(next_day) => Ok((ColorMode::Night, next_day - now + 1)),
                Err(e) => Err(e),
            }
        },
    }
}

/// Whether the day entry falls after the night entry on the clock's date
/// (a likely inverted configuration, which is still followed as written).
pub open spec fn spec_day_after_night(schedule: Schedule, clock: Clock, today: DateEvents) -> bool {
    let midnight = clock.spec_local_midnight();
    match (day_instant(schedule, midnight, today), night_instant(schedule, midnight, today)) {
        (Ok(day), Ok(night)) => day > night,
        _ => false,
    }
}

/// A scheduling result with its delay read as a mathematical integer.
pub open spec fn widen(r: Result<(ColorMode, i64), ScheduleError>) -> Result<(ColorMode, int), ScheduleError> {
    match r {
        Ok((mode, delay)) => Ok((mode, delay as int)),
        Err(e) => Err(e),
    }
}

pub open spec fn widen_instant(r: Result<i64, ScheduleError>) -> Result<int, ScheduleError> {
    match r {
        Ok(t) => Ok(t as int),
        Err(e) => Err(e),
    }
}

pub open spec fn inputs_valid(schedule: Schedule, clock: Clock, today: DateEvents, tomorrow: DateEvents) -> bool {
    schedule.spec_valid() && clock.spec_valid() && today.spec_valid() && tomorrow.spec_valid()
}

fn entry_instant_exec(entry: ScheduleType, midnight: i64, event: Option<i64>, offset_s: Option<i32>) -> (r: Result<i64, ScheduleError>)
    requires
        entry.spec_valid(),
        -2 * MAX_INSTANT_MS <= midnight <= 2 * MAX_INSTANT_MS,
        event_in_range(event),
        offset_in_range(offset_s),
    ensures
        widen_instant(r) == entry_instant(entry, midnight as int, event, offset_s),
{
    match entry {
        ScheduleType::Auto => match event {
            Some(t) => Ok(t),
            None => Err(ScheduleError::NoSolarEvent),
        },
        ScheduleType::Fixed(t) => match offset_s {
            Some(o) => Ok(midnight + t as i64 - o as i64 * 1000),
            None => Err(ScheduleError::NoLocalTime),
        },
        ScheduleType::Relative(d) => match event {
            Some(t) => Ok(t + d),
            None => Err(ScheduleError::NoSolarEvent),
        },
    }
}

/// Decides the mode in force at the clock's instant and the delay until the
/// next switch, from the schedule and what is known of today and tomorrow.
pub fn next_schedule(schedule: Schedule, clock: Clock, today: DateEvents, tomorrow: DateEvents) -> (r: Result<(ColorMode, i64), ScheduleError>)
    requires
        inputs_valid(schedule, clock, today, tomorrow),
    ensures
        widen(r) == spec_next_schedule(schedule, clock, today, tomorrow),
{
    let midnight = clock.local_midnight();
    let now = clock.now_ms;
    let day = entry_instant_exec(schedule.day, midnight, today.sunrise, today.day_offset_s);
    let night = entry_instant_exec(schedule.night, midnight, today.sunset, today.night_offset_s);
    match (day, night) {
        (Err(e), _) => Err(e),
        (Ok(_), Err(e)) => Err(e),
        (Ok(day), Ok(night)) => {
            if now < day {
                Ok((ColorMode::Night, day - now + 1))
            } else if now < night {
                Ok((ColorMode::Day, night - now + 1))
            } else {
                match entry_instant_exec(schedule.day, midnight + MS_PER_DAY, tomorrow.sunrise, tomorrow.day_offset_s) {
                    Ok(next_day) => Ok((ColorMode::Night, next_day - now + 1)),
                    Err(e) => Err(e),
                }
            }
        },
    }
}

/// Whether the day entry falls after the night entry on the clock's date.
pub fn day_after_night(schedule: Schedule, clock: Clock, today: DateEvents) -> (r: bool)
    requires
        schedule.spec_valid(),
        clock.spec_valid(),
        today.spec_valid(),
    ensures
        r == spec_day_after_night(schedule, clock, today),
{
    let midnight = clock.local_midnight();
    let day = entry_instant_exec(schedule.day, midnight, today.sunrise, today.day_offset_s);
    let night = entry_instant_exec(schedule.night, midnight, today.sunset, today.night_offset_s);
    match (day, night) {
        (Ok(day), Ok(night)) => day > night,
        _ => false,
    }
}

/// Why a schedule cannot be followed with the coordinates given, if it cannot.
pub open spec fn spec_location_error(schedule: Schedule, location: Option<Location>) -> Option<ScheduleError> {
    if !schedule.spec_needs_location() {
        None
    } else {
        match location {
            None => Some(ScheduleError::LocationRequired),
            Some(l) => if l.spec_valid() { None } else { Some(ScheduleError::OutOfRange) },
        }
    }
}

/// The current mode and the delay until it changes, kept up to date by `next`.
pub struct ModeScheduler {
    pub mode: ColorMode,
    /// Milliseconds until the next switch, one past the switch instant.
    pub delay_ms: i64,
    /// Whether, at the last evaluation, the day entry fell after the night entry.
    pub day_after_night: bool,
    /// The schedule followed.
    pub schedule: Schedule,
}

impl ModeScheduler {
    /// Whether the state matches one evaluation of `schedule` at `clock`.
    pub open spec fn evaluated_at(&self, clock: Clock, today: DateEvents, tomorrow: DateEvents) -> bool {
        &&& spec_next_schedule(self.schedule, clock, today, tomorrow) == Ok::<(ColorMode, int), ScheduleError>(
            (self.mode, self.delay_ms as int),
        )
        &&& self.day_after_night == spec_day_after_night(self.schedule, clock, today)
    }

    /// Creates a scheduler. It fails when an entry follows the sun and the
    /// location is missing or out of range (the location is not read
    /// otherwise), or when the first evaluation fails.
    pub fn new(
        schedule: Schedule,
        location: Option<Location>,
        clock: Clock,
        today: DateEvents,
        tomorrow: DateEvents,
    ) -> (r: Result<ModeScheduler, ScheduleError>)
        requires
            inputs_valid(schedule, clock, today, tomorrow),
        ensures
            spec_location_error(schedule, location) matches Some(e) ==> r == Err::<ModeScheduler, ScheduleError>(e),
            spec_location_error(schedule, location) is None ==> {
                match spec_next_schedule(schedule, clock, today, tomorrow) {
                    Ok(_) => r is Ok && r->Ok_0.schedule == schedule && r->Ok_0.evaluated_at(clock, today, tomorrow),
                    Err(e) => r == Err::<ModeScheduler, ScheduleError>(e),
                }
            },
    {
        if schedule.needs_location() {
            match location {
                None => {
                    return Err(ScheduleError::LocationRequired);
                },
                Some(l) => {
                    if !l.is_valid() {
                        return Err(ScheduleError::OutOfRange);
                    }
                },
            }
        }
        match next_schedule(schedule, clock, today, tomorrow) {
            Ok((mode, delay_ms)) => Ok(
                ModeScheduler {
                    mode,
                    delay_ms,
                    day_after_night: day_after_night(schedule, clock, today),
                    schedule,
                },
            ),
            Err(e) => Err(e),
        }
    }

    /// Re-evaluates the schedule at `clock`. On failure the previous mode and
    /// delay are kept.
    pub fn next(&mut self, clock: Clock, today: DateEvents, tomorrow: DateEvents) -> (r: Result<(), ScheduleError>)
        requires
            inputs_valid(old(self).schedule, clock, today, tomorrow),
        ensures
            final(self).schedule == old(self).schedule,
            match spec_next_schedule(old(self).schedule, clock, today, tomorrow) {
                Ok(_) => r is Ok && final(self).evaluated_at(clock, today, tomorrow),
                Err(e) => r == Err::<(), ScheduleError>(e) && *final(self) == *old(self),
            },
    {
        match next_schedule(self.schedule, clock, today, tomorrow) {
            Ok((mode, delay_ms)) => {
                self.mode = mode;
                self.delay_ms = delay_ms;
                self.day_after_night = day_after_night(self.schedule, clock, today);
                Ok(())
            },
            Err(e) => Err(e),
        }
    }
}

/// Two schedulers that follow the same schedule and were last evaluated at
/// the same clock reading, with the same dates' events, hold the same mode
/// and delay: nothing but the clock and those events decides them.
pub proof fn law_scheduler_determinism(
    a: ModeScheduler,
    b: ModeScheduler,
    clock: Clock,
    today: DateEvents,
    tomorrow: DateEvents,
)
    requires
        a.schedule == b.schedule,
        a.evaluated_at(clock, today, tomorrow),
        b.evaluated_at(clock, today, tomorrow),
    ensures
        a.mode == b.mode,
        a.delay_ms == b.delay_ms,
        a.day_after_night == b.day_after_night,
{
}

/// On local date `k` (days since 1970-01-01, counted in a zone `offset_s`
/// seconds east of UTC) the day entry falls at or after the local midnight
/// that opens the date, more than one millisecond before the night entry,
/// which falls more than one millisecond before the next local midnight.
pub open spec fn ordered_on(schedule: Schedule, offset_s: i32, events: DateEvents, k: int) -> bool {
    let offset = offset_s as int * 1000;
    let midnight = k * MS_PER_DAY;
    match (day_instant(schedule, midnight, events), night_instant(schedule, midnight, events)) {
        (Ok(day), Ok(night)) => {
            &&& midnight - offset <= day
            &&& day + 1 < night
            &&& night + 1 < midnight - offset + MS_PER_DAY
        },
        _ => false,
    }
}

proof fn lemma_local_date(clock: Clock, k: int)
    requires
        k * MS_PER_DAY <= clock.local_ms() < k * MS_PER_DAY + MS_PER_DAY,
    ensures
        clock.spec_local_date() == k,
        clock.spec_local_midnight() == k * MS_PER_DAY,
{
    lemma_fundamental_div_mod_converse(clock.local_ms(), MS_PER_DAY as int, k, clock.local_ms() - k * MS_PER_DAY);
}

proof fn lemma_date_bounds(clock: Clock)
    ensures
        clock.spec_local_date() * MS_PER_DAY <= clock.local_ms() < clock.spec_local_date() * MS_PER_DAY
            + MS_PER_DAY,
        clock.spec_local_midnight() == clock.spec_local_date() * MS_PER_DAY,
{
    let x = clock.local_ms();
    let d = MS_PER_DAY as int;
    vstd::arithmetic::div_mod::lemma_fundamental_div_mod(x, d);
    vstd::arithmetic::div_mod::lemma_mod_bound(x, d);
    assert(d * (x / d) == (x / d) * d) by (nonlinear_arith);
}

/// Day and night alternate. Where, on every local date, the schedule's entries
/// are ordered within the date (`ordered_on`, with `events` giving what is
/// known of each date), evaluating at any valid clock reading succeeds with a
/// positive delay, and evaluating again once that delay has passed gives the
/// other mode, again with a positive delay.
pub proof fn law_day_night_alternation(schedule: Schedule, clock: Clock, events: spec_fn(int) -> DateEvents)
    requires
        schedule.spec_valid(),
        clock.spec_valid(),
        forall|k: int| #[trigger] ordered_on(schedule, clock.utc_offset_s, events(k), k),
    ensures
        ({
            let k = clock.spec_local_date();
            match spec_next_schedule(schedule, clock, events(k), events(k + 1)) {
                Ok((mode, delay)) => delay > 0 && ({
                    let later = Clock { now_ms: (clock.now_ms + delay) as i64, utc_offset_s: clock.utc_offset_s };
                    let k2 = later.spec_local_date();
                    instant_in_range(clock.now_ms + delay) ==> match spec_next_schedule(
                        schedule,
                        later,
                        events(k2),
                        events(k2 + 1),
                    ) {
                        Ok((mode2, delay2)) => mode2 != mode && delay2 > 0,
                        Err(_) => false,
                    }
                }),
                Err(_) => false,
            }
        }),
{
    let k = clock.spec_local_date();
    let now = clock.now_ms as int;
    lemma_date_bounds(clock);
    assert(ordered_on(schedule, clock.utc_offset_s, events(k), k));
    assert(ordered_on(schedule, clock.utc_offset_s, events(k + 1), k + 1));
    let midnight = k * MS_PER_DAY;
    assert((k + 1) * MS_PER_DAY == k * MS_PER_DAY + MS_PER_DAY);
    let day = day_instant(schedule, midnight, events(k))->Ok_0;
    let night = night_instant(schedule, midnight, events(k))->Ok_0;
    let next_day = day_instant(schedule, midnight + MS_PER_DAY, events(k + 1))->Ok_0;
    let until = if now < day { day } else if now < night { night } else { next_day };
    let delay = until - now + 1;
    let later = Clock { now_ms: (now + delay) as i64, utc_offset_s: clock.utc_offset_s };
    if instant_in_range(now + delay) {
        assert(later.local_ms() == until + 1 + clock.offset_ms());
        if now < day || now < night {
            lemma_local_date(later, k);
        } else {
            lemma_local_date(later, k + 1);
        }
    }
}

} // verus!
