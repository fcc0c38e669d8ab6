use chrono::{FixedOffset, NaiveDate, TimeZone};
use sunrise_sunset_calculator::SunriseSunsetParameters;
use sunshift::light::{current_timestamp, timestamp_from, LightError, LightMode, SunTime};

struct LatLng {
    lat: f64,
    lng: f64,
    offset: i32,
}

const LONDON: LatLng = LatLng { lat: 51.51, lng: -0.12, offset: 0 };

fn get_timestamp(month: u32, hour: u32, offset: i32) -> i64 {
    let datetime = NaiveDate::from_ymd_opt(2024, month, 1).unwrap().and_hms_opt(hour, 0, 0).unwrap();
    FixedOffset::east_opt(offset * 3600).unwrap().from_local_datetime(&datetime).unwrap().timestamp()
}

fn sun_time(lat: f64, lng: f64, timestamp: i64) -> SunTime {
    let r = SunriseSunsetParameters::new(timestamp, lat, lng).calculate().unwrap();
    SunTime { sunrise: r.rise, sunset: r.set }
}

fn decide(place: &LatLng, timestamp: i64) -> LightMode {
    LightMode::decide_mode(&sun_time(place.lat, place.lng, timestamp), timestamp)
}

#[test]
fn light_noon() {
    let timestamp = get_timestamp(6, 12, LONDON.offset);
    assert!(decide(&LONDON, timestamp) == LightMode::Light);
}

#[test]
fn light_early_morning() {
    let timestamp = get_timestamp(6, 3, LONDON.offset);
    assert!(decide(&LONDON, timestamp) == LightMode::Dark);
}

#[test]
fn light_late_night() {
    let timestamp = get_timestamp(6, 22, LONDON.offset);
    assert!(decide(&LONDON, timestamp) == LightMode::Dark);
}

#[test]
fn decide_mode_bounds_are_dark() {
    let sun = SunTime { sunrise: 100, sunset: 200 };
    assert_eq!(LightMode::decide_mode(&sun, 100), LightMode::Dark);
    assert_eq!(LightMode::decide_mode(&sun, 101), LightMode::Light);
    assert_eq!(LightMode::decide_mode(&sun, 199), LightMode::Light);
    assert_eq!(LightMode::decide_mode(&sun, 200), LightMode::Dark);
    assert_eq!(sun.sunrise(), 100);
    assert_eq!(sun.sunset(), 200);
}

#[test]
fn get_mode_follows_the_sun_times_given() {
    let always_day = |t: i64| Some(SunTime { sunrise: t - 10, sunset: t + 10 });
    assert_eq!(LightMode::get_mode(always_day), Ok(LightMode::Light));
    let always_night = |t: i64| Some(SunTime { sunrise: t + 10, sunset: t - 10 });
    assert_eq!(LightMode::get_mode(always_night), Ok(LightMode::Dark));
    assert_eq!(LightMode::get_mode(|_t: i64| None), Err(LightError::NoSunTime));
}

#[test]
fn get_mode_now_in_london() {
    let mode = LightMode::get_mode(|t: i64| Some(sun_time(LONDON.lat, LONDON.lng, t)));
    assert!(mode.is_ok());
}

#[test]
fn current_timestamp_reads_the_clock() {
    let t = current_timestamp().unwrap();
    // Later than 2020-01-01.
    assert!(t > 1577836800);
}

#[test]
fn timestamp_from_readings() {
    assert_eq!(timestamp_from(Some(1700000000)), Some(1700000000));
    assert_eq!(timestamp_from(Some(0)), Some(0));
    assert_eq!(timestamp_from(Some(u64::MAX)), None);
    assert_eq!(timestamp_from(None), None);
}

#[test]
fn mode_at_readings() {
    let sun = SunTime { sunrise: 100, sunset: 200 };
    assert_eq!(LightMode::mode_at(150, Some(sun)), Ok(LightMode::Light));
    assert_eq!(LightMode::mode_at(250, Some(sun)), Ok(LightMode::Dark));
    assert_eq!(LightMode::mode_at(150, None), Err(LightError::NoSunTime));
}
