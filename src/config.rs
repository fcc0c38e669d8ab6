//! Validated configuration values: location, schedule entries and their text forms.

use vstd::prelude::*;
use crate::color::{Color, BRIGHTNESS_SCALE, MAX_TEMPERATURE, MIN_TEMPERATURE};

verus! {

/// Number of micro-degrees in one degree.
pub const MICRODEGREES: i32 = 1000000;

/// Largest absolute latitude, in micro-degrees.
pub const MAX_LATITUDE: i32 = 90000000;

/// Largest absolute longitude, in micro-degrees.
pub const MAX_LONGITUDE: i32 = 180000000;

/// Milliseconds in one day.
pub const MS_PER_DAY: i64 = 86400000;

/// Geographic coordinates in micro-degrees, east and north positive.
#[derive(Clone, Copy, Debug, PartialEq, Eq, Structural)]
pub struct Location {
    pub latitude: i32,
    pub longitude: i32,
}

impl Location {
    pub open spec fn spec_valid(&self) -> bool {
        &&& -MAX_LATITUDE <= self.latitude <= MAX_LATITUDE
        &&& -MAX_LONGITUDE <= self.longitude <= MAX_LONGITUDE
    }

    /// Whether both coordinates lie inside their range.
    pub fn is_valid(&self) -> (r: bool)
        ensures
            r == self.spec_valid(),
    {
        -MAX_LATITUDE <= self.latitude && self.latitude <= MAX_LATITUDE && -MAX_LONGITUDE
            <= self.longitude && self.longitude <= MAX_LONGITUDE
    }
}

/// When one end of the day begins.
#[derive(Clone, Copy, Debug, PartialEq, Eq, Structural)]
pub enum ScheduleType {
    /// At the sun event itself: sunrise for the day, sunset for the night.
    Auto,
    /// At a local clock time, in milliseconds after local midnight.
    Fixed(u32),
    /// At the sun event shifted by a signed number of milliseconds.
    Relative(i64),
}

impl ScheduleType {
    pub open spec fn spec_valid(&self) -> bool {
        match *self {
            ScheduleType::Auto => true,
            ScheduleType::Fixed(t) => t < MS_PER_DAY,
            ScheduleType::Relative(d) => -MS_PER_DAY * 366 <= d <= MS_PER_DAY * 366,
        }
    }

    pub fn is_fixed(&self) -> (r: bool)
        ensures
            r == (*self is Fixed),
    {
        match self {
            ScheduleType::Fixed(_) => true,
            _ => false,
        }
    }
}

/// The day and night entries of a schedule.
#[derive(Clone, Copy, Debug, PartialEq, Eq, Structural)]
pub struct Schedule {
    pub day: ScheduleType,
    pub night: ScheduleType,
}

impl Schedule {
    pub open spec fn spec_valid(&self) -> bool {
        self.day.spec_valid() && self.night.spec_valid()
    }

    /// Whether some entry follows the sun, so that coordinates are needed.
    pub open spec fn spec_needs_location(&self) -> bool {
        !(self.day is Fixed && self.night is Fixed)
    }

    pub fn needs_location(&self) -> (r: bool)
        ensures
            r == self.spec_needs_location(),
    {
        !(self.day.is_fixed() && self.night.is_fixed())
    }
}

/// Milliseconds in one hour.
pub const MS_PER_HOUR: i64 = 3600000;

/// Milliseconds in one minute.
pub const MS_PER_MINUTE: i64 = 60000;

/// Longest transition a configuration may ask for, in milliseconds.
pub const MAX_CONFIG_TRANSITION_MS: u64 = 3600000;

/// Why a value of a configuration section was refused.
#[derive(Clone, Copy, Debug, PartialEq, Eq)]
pub enum KeyValueError {
    MissingKey(&'static str),
    Invalid(&'static str),
    OutOfRange(&'static str),
}

/// The refused values of one section.
#[derive(Clone, Debug, PartialEq, Eq)]
pub struct KeyValueErrors(pub Vec<KeyValueError>);

/// Why a configuration was refused.
#[derive(Clone, Debug, PartialEq, Eq)]
pub enum Error {
    /// A required section is absent.
    Section(&'static str),
    /// Some values of the named section were refused.
    Key(&'static str, KeyValueErrors),
}

/// Whether `min <= value <= max`.
pub fn in_range(value: i64, min: i64, max: i64) -> (r: bool)
    ensures
        r == (min <= value && value <= max),
{
    min <= value && value <= max
}

/// One `OutOfRange` error per failed check, in order.
pub open spec fn spec_error_list(a: Seq<(&'static str, bool)>) -> Seq<KeyValueError>
    decreases a.len(),
{
    if a.len() == 0 {
        Seq::empty()
    } else {
        let rest = spec_error_list(a.drop_last());
        if a.last().1 {
            rest
        } else {
            rest.push(KeyValueError::OutOfRange(a.last().0))
        }
    }
}

/// Turns named range checks into the errors of those that failed.
pub fn to_error_list(array: &[(&'static str, bool)]) -> (r: Vec<KeyValueError>)
    ensures
        r@ == spec_error_list(array@),
{
    let mut errors: Vec<KeyValueError> = Vec::new();
    let mut i: usize = 0;
    while i < array.len()
        invariant
            i <= array@.len(),
            errors@ == spec_error_list(array@.subrange(0, i as int)),
        decreases array@.len() - i,
    {
        proof {
            assert(array@.subrange(0, i + 1).drop_last() == array@.subrange(0, i as int));
        }
        let (name, ok) = array[i];
        if !ok {
            errors.push(KeyValueError::OutOfRange(name));
        }
        i += 1;
    }
    proof {
        assert(array@.subrange(0, array@.len() as int) == array@);
    }
    errors
}

/// The error of a section whose values were checked: none when all passed.
pub fn section_error(name: &'static str, errors: Vec<KeyValueError>) -> (r: Option<Error>)
    ensures
        errors@.len() == 0 ==> r is None,
        errors@.len() > 0 ==> r == Some(Error::Key(name, KeyValueErrors(errors))),
{
    if errors.len() == 0 {
        None
    } else {
        Some(Error::Key(name, KeyValueErrors(errors)))
    }
}

impl Location {
    /// The coordinates that lie outside their range.
    pub fn check(&self) -> (r: Vec<KeyValueError>)
        ensures
            r@ == spec_error_list(
                seq![
                    ("latitude", -MAX_LATITUDE <= self.latitude <= MAX_LATITUDE),
                    ("longitude", -MAX_LONGITUDE <= self.longitude <= MAX_LONGITUDE),
                ],
            ),
    {
        let checks = [
            ("latitude", in_range(self.latitude as i64, -MAX_LATITUDE as i64, MAX_LATITUDE as i64)),
            ("longitude", in_range(self.longitude as i64, -MAX_LONGITUDE as i64, MAX_LONGITUDE as i64)),
        ];
        proof {
            assert(checks@ == seq![
                ("latitude", -MAX_LATITUDE <= self.latitude <= MAX_LATITUDE),
                ("longitude", -MAX_LONGITUDE <= self.longitude <= MAX_LONGITUDE),
            ]);
        }
        to_error_list(&checks)
    }

    /// Coordinates in micro-degrees, refused with the keys out of range.
    pub fn new(latitude: i32, longitude: i32) -> (r: Result<Location, KeyValueErrors>)
        ensures
            r is Ok <==> (Location { latitude, longitude }).spec_valid(),
            r is Ok ==> r->Ok_0 == (Location { latitude, longitude }),
            r is Err ==> r->Err_0.0@ == spec_error_list(
                seq![
                    ("latitude", -MAX_LATITUDE <= latitude <= MAX_LATITUDE),
                    ("longitude", -MAX_LONGITUDE <= longitude <= MAX_LONGITUDE),
                ],
            ),
    {
        let location = Location { latitude, longitude };
        if in_range(latitude as i64, -MAX_LATITUDE as i64, MAX_LATITUDE as i64) && in_range(
            longitude as i64,
            -MAX_LONGITUDE as i64,
            MAX_LONGITUDE as i64,
        ) {
            Ok(location)
        } else {
            Err(KeyValueErrors(location.check()))
        }
    }
}

impl Color {
    /// The colour values that lie outside their range.
    pub fn check(&self) -> (r: Vec<KeyValueError>)
        ensures
            r@ == spec_error_list(
                seq![
                    ("temperature", MIN_TEMPERATURE <= self.temperature <= MAX_TEMPERATURE),
                    ("brightness", self.brightness <= BRIGHTNESS_SCALE),
                ],
            ),
    {
        let checks = [
            ("temperature", in_range(self.temperature as i64, MIN_TEMPERATURE as i64, MAX_TEMPERATURE as i64)),
            ("brightness", in_range(self.brightness as i64, 0, BRIGHTNESS_SCALE as i64)),
        ];
        proof {
            assert(checks@ == seq![
                ("temperature", MIN_TEMPERATURE <= self.temperature <= MAX_TEMPERATURE),
                ("brightness", self.brightness <= BRIGHTNESS_SCALE),
            ]);
        }
        to_error_list(&checks)
    }
}

/// The transition length out of range, if it is.
pub fn check_transition(transition_ms: u64) -> (r: Vec<KeyValueError>)
    ensures
        r@ == spec_error_list(seq![("transition", transition_ms <= MAX_CONFIG_TRANSITION_MS)]),
{
    let checks = [("transition", transition_ms <= MAX_CONFIG_TRANSITION_MS)];
    proof {
        assert(checks@ == seq![("transition", transition_ms <= MAX_CONFIG_TRANSITION_MS)]);
    }
    to_error_list(&checks)
}

/// The form a schedule entry's text should have taken.
#[derive(Clone, Copy, Debug, PartialEq, Eq, Structural)]
pub enum ScheduleFormatError {
    /// `HH:MM`
    FixedTime,
    /// `+HH:MM` or `-HH:MM`
    RelativeTime,
}

/// The (hour, minute) that chrono reads from `s` in the format `%H:%M`, or
/// `None` where it refuses the text.
pub uninterp spec fn clock_time_of(s: Seq<char>) -> Option<(u32, u32)>;

/// Relies on chrono's `NaiveTime::parse_from_str` with the format `%H:%M`:
/// the outcome depends on the text alone, and a parsed time has an hour
/// from 0 to 23 and a minute from 0 to 59 (`Timelike::hour`, `Timelike::minute`).
#[verifier::external_body]
fn parse_clock_time(s: &str) -> (r: Option<(u32, u32)>)
    ensures
        r == clock_time_of(s@),
        r matches Some((h, m)) ==> h < 24 && m < 60,
{
    match chrono::NaiveTime::parse_from_str(s, "%H:%M") {
        Ok(t) => Some((chrono::Timelike::hour(&t), chrono::Timelike::minute(&t))),
        Err(_) => None,
    }
}

/// The sign character that opens a relative entry, if the text has one.
pub open spec fn sign_of(s: Seq<char>) -> Option<char> {
    if s.len() > 0 && (s[0] == '+' || s[0] == '-') {
        Some(s[0])
    } else {
        None
    }
}

/// The text after the sign, if any.
pub open spec fn body_of(s: Seq<char>) -> Seq<char> {
    if sign_of(s) is Some {
        s.subrange(1, s.len() as int)
    } else {
        s
    }
}

/// The entry for a sign (`None` for a clock time) and the parsed time of day.
pub open spec fn spec_schedule_type_from(sign: Option<char>, time: Option<(u32, u32)>) -> Result<ScheduleType, ScheduleFormatError> {
    match (sign, time) {
        (None, Some((h, m))) => Ok(ScheduleType::Fixed((h * MS_PER_HOUR + m * MS_PER_MINUTE) as u32)),
        (None, None) => Err(ScheduleFormatError::FixedTime),
        (Some(c), Some((h, m))) => Ok(
            ScheduleType::Relative(
                (if c == '-' { -(h * MS_PER_HOUR + m * MS_PER_MINUTE) } else { h * MS_PER_HOUR + m
                    * MS_PER_MINUTE }) as i64,
            ),
        ),
        (Some(_), None) => Err(ScheduleFormatError::RelativeTime),
    }
}

pub open spec fn spec_parse_schedule(s: Seq<char>) -> Result<ScheduleType, ScheduleFormatError> {
    spec_schedule_type_from(sign_of(s), clock_time_of(body_of(s)))
}

/// Builds an entry from its sign (`None` for a clock time, `'-'` for an
/// offset before the sun event, any other for one after) and its parsed time.
pub fn schedule_type_from(sign: Option<char>, time: Option<(u32, u32)>) -> (r: Result<ScheduleType, ScheduleFormatError>)
    requires
        time matches Some((h, m)) ==> h < 24 && m < 60,
    ensures
        r == spec_schedule_type_from(sign, time),
        r matches Ok(t) ==> t.spec_valid(),
{
    match (sign, time) {
        (None, Some((h, m))) => Ok(ScheduleType::Fixed(h * 3600000 + m * 60000)),
        (None, None) => Err(ScheduleFormatError::FixedTime),
        (Some(c), Some((h, m))) => {
            let d = h as i64 * MS_PER_HOUR + m as i64 * MS_PER_MINUTE;
            Ok(ScheduleType::Relative(if c == '-' { -d } else { d }))
        },
        (Some(_), None) => Err(ScheduleFormatError::RelativeTime),
    }
}

/// Reads a schedule entry: `HH:MM` is a local clock time, `+HH:MM` or
/// `-HH:MM` an offset from the sun event.
pub fn parse_schedule(time_str: &str) -> (r: Result<ScheduleType, ScheduleFormatError>)
    ensures
        r == spec_parse_schedule(time_str@),
        r matches Ok(t) ==> t.spec_valid(),
{
    let n = time_str.unicode_len();
    if n > 0 {
        let c = time_str.get_char(0);
        if c == '+' || c == '-' {
            let body = time_str.substring_char(1, n);
            return schedule_type_from(Some(c), parse_clock_time(body));
        }
    }
    schedule_type_from(None, parse_clock_time(time_str))
}

/// Whether a schedule entry's text is well formed.
pub fn validate_schedule(time_str: &str) -> (r: Result<(), ScheduleFormatError>)
    ensures
        r is Ok <==> spec_parse_schedule(time_str@) is Ok,
        r matches Err(e) ==> spec_parse_schedule(time_str@) == Err::<ScheduleType, ScheduleFormatError>(e),
{
    match parse_schedule(time_str) {
        Ok(_) => Ok(()),
        Err(e) => Err(e),
    }
}

/// Why the schedule section could not be turned into a schedule.
#[derive(Clone, Copy, Debug, PartialEq, Eq, Structural)]
pub enum ConfigError {
    /// Some entries are malformed; each is given with the form it should take.
    InvalidSchedule { day: Option<ScheduleFormatError>, night: Option<ScheduleFormatError> },
    /// An entry follows the sun and no location is configured.
    LocationRequired,
}

/// The schedule section as written: each entry absent (follow the sun) or text.
#[derive(Clone, Debug, PartialEq, Eq)]
pub struct ScheduleConfig {
    pub day: Option<String>,
    pub night: Option<String>,
}

pub open spec fn spec_entry(text: Option<Seq<char>>) -> Result<ScheduleType, ScheduleFormatError> {
    match text {
        None => Ok(ScheduleType::Auto),
        Some(s) => spec_parse_schedule(s),
    }
}

pub open spec fn error_of(r: Result<ScheduleType, ScheduleFormatError>) -> Option<ScheduleFormatError> {
    match r {
        Ok(_) => None,
        Err(e) => Some(e),
    }
}

pub open spec fn view_text(t: Option<String>) -> Option<Seq<char>> {
    match t {
        Some(s) => Some(s@),
        None => None,
    }
}

/// The schedule the section describes, given whether a location is configured.
pub open spec fn spec_resolve(day: Option<Seq<char>>, night: Option<Seq<char>>, has_location: bool) -> Result<Schedule, ConfigError> {
    let d = spec_entry(day);
    let n = spec_entry(night);
    if d is Err || n is Err {
        Err(ConfigError::InvalidSchedule { day: error_of(d), night: error_of(n) })
    } else if !(d->Ok_0 is Fixed && n->Ok_0 is Fixed) && !has_location {
        Err(ConfigError::LocationRequired)
    } else {
        Ok(Schedule { day: d->Ok_0, night: n->Ok_0 })
    }
}

fn resolve_entry(text: &Option<String>) -> (r: Result<ScheduleType, ScheduleFormatError>)
    ensures
        r == spec_entry(view_text(*text)),
        r matches Ok(t) ==> t.spec_valid(),
{
    match text {
        None => Ok(ScheduleType::Auto),
        Some(s) => parse_schedule(s.as_str()),
    }
}

impl ScheduleConfig {
    /// Turns the section into a schedule. Malformed entries are all reported;
    /// otherwise an entry that follows the sun needs a location.
    pub fn resolve(&self, location: Option<Location>) -> (r: Result<Schedule, ConfigError>)
        ensures
            r == spec_resolve(view_text(self.day), view_text(self.night), location is Some),
            r matches Ok(s) ==> s.spec_valid(),
    {
        let day = resolve_entry(&self.day);
        let night = resolve_entry(&self.night);
        match (day, night) {
            (Ok(d), Ok(n)) => {
                if !(d.is_fixed() && n.is_fixed()) && location.is_none() {
                    Err(ConfigError::LocationRequired)
                } else {
                    Ok(Schedule { day: d, night: n })
                }
            },
            (d, n) => Err(
                ConfigError::InvalidSchedule {
                    day: match d {
                        Ok(_) => None,
                        Err(e) => Some(e),
                    },
                    night: match n {
                        Ok(_) => None,
                        Err(e) => Some(e),
                    },
                },
            ),
        }
    }
}

} // verus!
