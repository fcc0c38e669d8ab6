use sunshift::color::{apply_default_color, Color, ColorConfig};
use sunshift::config::{
    check_transition, in_range, parse_schedule, schedule_type_from, section_error, to_error_list,
    validate_schedule, ConfigError, Error, KeyValueError, KeyValueErrors, Location, Schedule,
    ScheduleConfig, ScheduleFormatError, ScheduleType,
};

fn section(day: Option<&str>, night: Option<&str>) -> ScheduleConfig {
    ScheduleConfig { day: day.map(String::from), night: night.map(String::from) }
}

fn origin() -> Option<Location> {
    Some(Location::new(0, 0).unwrap())
}

const MIN: i64 = 60000;
const HOUR: i64 = 3600000;

#[test]
fn day_night_auto() {
    assert_eq!(section(None, None).resolve(None), Err(ConfigError::LocationRequired));
}

#[test]
fn config_day_auto_night_fixed() {
    assert_eq!(section(None, Some("00:00")).resolve(None), Err(ConfigError::LocationRequired));
    let schedule = section(None, Some("19:30")).resolve(origin()).unwrap();
    assert_eq!(schedule.day, ScheduleType::Auto);
    assert_eq!(schedule.night, ScheduleType::Fixed((19 * HOUR + 30 * MIN) as u32));
}

#[test]
fn config_day_fixed_night_auto() {
    assert_eq!(section(Some("00:00"), None).resolve(None), Err(ConfigError::LocationRequired));
    let schedule = section(Some("08:30"), None).resolve(origin()).unwrap();
    assert_eq!(schedule.day, ScheduleType::Fixed((8 * HOUR + 30 * MIN) as u32));
    assert_eq!(schedule.night, ScheduleType::Auto);
}

#[test]
fn day_night_fixed() {
    let schedule = section(Some("00:00"), Some("00:00")).resolve(None).unwrap();
    assert_eq!(schedule, Schedule { day: ScheduleType::Fixed(0), night: ScheduleType::Fixed(0) });
}

#[test]
fn config_day_auto_night_relative() {
    assert_eq!(section(None, Some("+01:00")).resolve(None), Err(ConfigError::LocationRequired));
    let schedule = section(None, Some("-00:30")).resolve(origin()).unwrap();
    assert_eq!(schedule.day, ScheduleType::Auto);
    assert_eq!(schedule.night, ScheduleType::Relative(-30 * MIN));
}

#[test]
fn day_relative_night_fixed() {
    assert_eq!(section(Some("+01:00"), Some("00:00")).resolve(None), Err(ConfigError::LocationRequired));
}

#[test]
fn day_night_relative() {
    assert_eq!(section(Some("+01:00"), Some("-01:00")).resolve(None), Err(ConfigError::LocationRequired));
}

#[test]
fn day_fixed_night_relative() {
    let schedule = section(Some("09:00"), Some("+00:00")).resolve(origin()).unwrap();
    assert_eq!(schedule.day, ScheduleType::Fixed((9 * HOUR) as u32));
    assert_eq!(schedule.night, ScheduleType::Relative(0));
}

#[test]
fn random_string() {
    assert_eq!(
        section(Some("foo"), Some("bar")).resolve(origin()),
        Err(ConfigError::InvalidSchedule {
            day: Some(ScheduleFormatError::FixedTime),
            night: Some(ScheduleFormatError::FixedTime),
        })
    );
}

#[test]
fn fixed_time() {
    assert_eq!(
        section(Some("25:00"), Some("00:61")).resolve(origin()),
        Err(ConfigError::InvalidSchedule {
            day: Some(ScheduleFormatError::FixedTime),
            night: Some(ScheduleFormatError::FixedTime),
        })
    );
}

#[test]
fn relative_time() {
    assert_eq!(
        section(Some("+25:00"), Some("-00:61")).resolve(origin()),
        Err(ConfigError::InvalidSchedule {
            day: Some(ScheduleFormatError::RelativeTime),
            night: Some(ScheduleFormatError::RelativeTime),
        })
    );
}

#[test]
fn malformed_entries_win_over_missing_location() {
    assert_eq!(
        section(None, Some("+7")).resolve(None),
        Err(ConfigError::InvalidSchedule { day: None, night: Some(ScheduleFormatError::RelativeTime) })
    );
}

#[test]
fn parse_schedule_forms() {
    assert_eq!(parse_schedule("23:59"), Ok(ScheduleType::Fixed((23 * HOUR + 59 * MIN) as u32)));
    assert_eq!(parse_schedule("7:15"), Ok(ScheduleType::Fixed((7 * HOUR + 15 * MIN) as u32)));
    assert_eq!(parse_schedule("+02:05"), Ok(ScheduleType::Relative(2 * HOUR + 5 * MIN)));
    assert_eq!(parse_schedule("-02:05"), Ok(ScheduleType::Relative(-(2 * HOUR + 5 * MIN))));
    assert_eq!(parse_schedule(""), Err(ScheduleFormatError::FixedTime));
    assert_eq!(parse_schedule("+"), Err(ScheduleFormatError::RelativeTime));
    assert_eq!(parse_schedule("24:00"), Err(ScheduleFormatError::FixedTime));
    assert_eq!(validate_schedule("12:00"), Ok(()));
    assert_eq!(validate_schedule("-xx"), Err(ScheduleFormatError::RelativeTime));
}

#[test]
fn schedule_type_from_parts() {
    assert_eq!(schedule_type_from(None, Some((1, 2))), Ok(ScheduleType::Fixed((HOUR + 2 * MIN) as u32)));
    assert_eq!(schedule_type_from(Some('+'), Some((1, 2))), Ok(ScheduleType::Relative(HOUR + 2 * MIN)));
    assert_eq!(schedule_type_from(Some('-'), Some((0, 30))), Ok(ScheduleType::Relative(-30 * MIN)));
    assert_eq!(schedule_type_from(None, None), Err(ScheduleFormatError::FixedTime));
    assert_eq!(schedule_type_from(Some('+'), None), Err(ScheduleFormatError::RelativeTime));
}

#[test]
fn range_checks() {
    assert!(in_range(5, 5, 5));
    assert!(!in_range(4, 5, 6));
    assert!(!in_range(7, 5, 6));
    assert_eq!(
        to_error_list(&[("a", true), ("b", false), ("c", false)]),
        vec![KeyValueError::OutOfRange("b"), KeyValueError::OutOfRange("c")]
    );
    assert_eq!(to_error_list(&[]), vec![]);
    assert_eq!(section_error("light", vec![]), None);
    assert_eq!(
        section_error("light", vec![KeyValueError::OutOfRange("brightness")]),
        Some(Error::Key("light", KeyValueErrors(vec![KeyValueError::OutOfRange("brightness")])))
    );
}

#[test]
fn location_bounds() {
    assert_eq!(Location::new(90000000, -180000000), Ok(Location { latitude: 90000000, longitude: -180000000 }));
    assert_eq!(
        Location::new(90000001, 0),
        Err(KeyValueErrors(vec![KeyValueError::OutOfRange("latitude")]))
    );
    assert_eq!(
        Location::new(-90000001, 180000001),
        Err(KeyValueErrors(vec![KeyValueError::OutOfRange("latitude"), KeyValueError::OutOfRange("longitude")]))
    );
}

#[test]
fn color_and_transition_bounds() {
    assert_eq!(Color::default().check(), vec![]);
    assert!(Color::default().is_valid());
    let dim = Color { temperature: 999, brightness: 10001, ..Color::default() };
    assert_eq!(
        dim.check(),
        vec![KeyValueError::OutOfRange("temperature"), KeyValueError::OutOfRange("brightness")]
    );
    assert!(!dim.is_valid());
    assert_eq!(check_transition(3600000), vec![]);
    assert_eq!(check_transition(3600001), vec![KeyValueError::OutOfRange("transition")]);
}

#[test]
fn color_default_values() {
    assert_eq!(Color::default(), Color { temperature: 6500, gamma: 100, brightness: 10000, inverted: false });
}

#[test]
fn latitude() {
    let errors = Location::new(91000000, 0).unwrap_err();
    assert!(errors.0.contains(&KeyValueError::OutOfRange("latitude")));
}

#[test]
fn longitude() {
    let errors = Location::new(0, -180100000).unwrap_err();
    assert!(errors.0.contains(&KeyValueError::OutOfRange("longitude")));
}

#[test]
fn color_default() {
    let day = apply_default_color(Some(ColorConfig {
        temperature: Some(1000),
        gamma: None,
        brightness: None,
        inverted: Some(true),
    }));
    assert_eq!(day, Color { temperature: 1000, inverted: true, ..Color::default() });
    let night = apply_default_color(Some(ColorConfig {
        temperature: None,
        gamma: Some(40),
        brightness: Some(5000),
        inverted: None,
    }));
    assert_eq!(night, Color { brightness: 5000, gamma: 40, ..Color::default() });
    assert_eq!(apply_default_color(None), Color::default());
}
