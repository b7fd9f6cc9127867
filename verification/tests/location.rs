use sfy::{Degrees, Fix, Location, LocationFix, LocationState, TimeFix, LOCATION_DIFF};

fn degrees(value: f64) -> Degrees {
    Degrees::from_bits(value.to_bits())
}

fn full_fix() -> LocationFix {
    LocationFix { lat: Some(degrees(60.39)), lon: Some(degrees(5.32)), time: Some(1_650_000_000) }
}

fn time(secs: u32) -> Result<TimeFix, &'static str> {
    Ok(TimeFix { time: Some(secs) })
}

#[test]
fn new_location_is_trying_and_stale() {
    let location = Location::new();
    assert_eq!(location.lat, degrees(0.0));
    assert_eq!(location.lon, degrees(0.0));
    assert_eq!(location.position_time, 0);
    assert_eq!(location.time, 0);
    assert_eq!(location.state, LocationState::Trying(i64::MIN));
    for now in [0, 1, 999, 59_001, LOCATION_DIFF, LOCATION_DIFF + 1, 1_650_000_000_000, i64::MAX] {
        assert!(location.is_due(now));
    }
    assert!(location.is_due(-1));
    assert!(location.is_due(i64::MIN + LOCATION_DIFF + 1));
    assert!(!location.is_due(i64::MIN + LOCATION_DIFF));
    assert!(!location.is_due(i64::MIN));
}

#[test]
fn the_first_call_attempts_a_fix_right_after_boot() {
    let mut location = Location::new();
    let fix = location.check_retrieve(0, &full_fix(), &time(1_650_000_100));
    assert_eq!(fix.map(|fix| fix.time), Some(1_650_000_100));
    assert_eq!(location.time, 1_650_000_100);

    let mut location = Location::new();
    let failed: Result<TimeFix, &'static str> = Err("no answer");
    assert_eq!(location.check_retrieve(0, &full_fix(), &failed), None);
    assert_eq!(location.state, LocationState::Trying(0));
}

#[test]
fn cooldown_is_sixty_seconds() {
    assert_eq!(LOCATION_DIFF, 60_000);
}

#[test]
fn due_only_past_the_cooldown() {
    let mut location = Location::new();
    location.state = LocationState::Trying(1_000);
    assert!(!location.is_due(1_000));
    assert!(!location.is_due(60_999));
    assert!(!location.is_due(61_000));
    assert!(location.is_due(61_001));
    location.state = LocationState::Retrieved(1_000);
    assert!(!location.is_due(61_000));
    assert!(location.is_due(61_001));
}

#[test]
fn due_does_not_overflow() {
    let mut location = Location::new();
    location.state = LocationState::Trying(i64::MIN);
    assert!(location.is_due(i64::MAX));
    assert!(location.is_due(0));
    location.state = LocationState::Retrieved(i64::MAX);
    assert!(!location.is_due(i64::MIN));
    assert!(!location.is_due(i64::MAX));
}

#[test]
fn a_clock_set_back_is_not_due() {
    let mut location = Location::new();
    location.state = LocationState::Retrieved(1_000_000);
    assert!(!location.is_due(500_000));
}

#[test]
fn within_the_cooldown_nothing_changes() {
    let mut location = Location::new();
    location.state = LocationState::Trying(1_000);
    let before = location;
    let fix = location.check_retrieve(61_000, &full_fix(), &time(1_650_000_100));
    assert_eq!(fix, None);
    assert_eq!(location, before);
}

#[test]
fn within_the_cooldown_after_a_success_nothing_changes() {
    let mut location = Location::new();
    location.state = LocationState::Retrieved(5_000);
    let before = location;
    assert_eq!(location.check_retrieve(5_001, &full_fix(), &time(7)), None);
    assert_eq!(location, before);
}

#[test]
fn a_complete_fix_is_taken_over_and_handed_out() {
    let mut location = Location::new();
    let fix = location.check_retrieve(100_000, &full_fix(), &time(1_650_000_100));
    assert_eq!(
        fix,
        Some(Fix {
            lat: degrees(60.39),
            lon: degrees(5.32),
            position_time: 1_650_000_000,
            time: 1_650_000_100,
        })
    );
    assert_eq!(location.lat, degrees(60.39));
    assert_eq!(location.lon, degrees(5.32));
    assert_eq!(location.position_time, 1_650_000_000);
    assert_eq!(location.time, 1_650_000_100);
    assert_eq!(location.state, LocationState::Trying(i64::MIN));
}

#[test]
fn the_clock_reading_after_the_update_is_recorded() {
    let mut location = Location::new();
    let fix = location.check_retrieve(100_000, &full_fix(), &time(1_650_000_100)).unwrap();
    let read_back = fix.time as i64 * 1_000 + 10;
    location.retrieved(read_back);
    assert_eq!(location.state, LocationState::Retrieved(1_650_000_100_010));
    assert_eq!(location.time, 1_650_000_100);
    assert!(!location.is_due(read_back));
    assert!(!location.is_due(read_back + LOCATION_DIFF));
    assert!(location.is_due(read_back + LOCATION_DIFF + 1));
}

#[test]
fn location_without_time_is_tried_again() {
    let mut location = Location::new();
    let no_time: Result<TimeFix, &'static str> = Ok(TimeFix { time: None });
    assert_eq!(location.check_retrieve(100_000, &full_fix(), &no_time), None);
    assert_eq!(location.state, LocationState::Trying(100_000));
    assert_eq!(location.lat, degrees(0.0));
    assert_eq!(location.lon, degrees(0.0));
    assert_eq!(location.position_time, 0);
    assert_eq!(location.time, 0);
}

#[test]
fn a_failed_time_query_is_tried_again() {
    let mut location = Location::new();
    let failed: Result<TimeFix, &'static str> = Err("no answer");
    assert_eq!(location.check_retrieve(100_000, &full_fix(), &failed), None);
    assert_eq!(location.state, LocationState::Trying(100_000));
    assert_eq!(location.time, 0);
}

#[test]
fn time_without_location_is_tried_again() {
    let gaps = [
        LocationFix { lat: None, lon: Some(degrees(5.32)), time: Some(9) },
        LocationFix { lat: Some(degrees(60.39)), lon: None, time: Some(9) },
        LocationFix { lat: Some(degrees(60.39)), lon: Some(degrees(5.32)), time: None },
        LocationFix { lat: None, lon: None, time: None },
    ];
    for gps in gaps {
        let mut location = Location::new();
        assert_eq!(location.check_retrieve(70_000, &gps, &time(1_650_000_100)), None);
        assert_eq!(location.state, LocationState::Trying(70_000));
        assert_eq!(location.position_time, 0);
        assert_eq!(location.time, 0);
    }
}

#[test]
fn a_failed_attempt_keeps_the_last_fix() {
    let mut location = Location::new();
    location.check_retrieve(100_000, &full_fix(), &time(1_650_000_100)).unwrap();
    location.retrieved(1_650_000_100_000);
    let failed: Result<TimeFix, &'static str> = Err("no answer");
    let now = 1_650_000_100_000 + LOCATION_DIFF + 1;
    assert_eq!(location.check_retrieve(now, &full_fix(), &failed), None);
    assert_eq!(location.state, LocationState::Trying(now));
    assert_eq!(location.lat, degrees(60.39));
    assert_eq!(location.time, 1_650_000_100);
}

#[test]
fn failures_retry_at_the_same_cadence() {
    let mut location = Location::new();
    let failed: Result<TimeFix, &'static str> = Err("no answer");
    location.check_retrieve(100_000, &full_fix(), &failed);
    assert!(!location.is_due(160_000));
    assert!(location.is_due(160_001));
    location.check_retrieve(160_001, &full_fix(), &failed);
    assert_eq!(location.state, LocationState::Trying(160_001));
    assert!(!location.is_due(220_001));
    assert!(location.is_due(220_002));
}

#[test]
fn degrees_keep_their_bits() {
    let d = degrees(-179.999_999);
    assert_eq!(f64::from_bits(d.to_bits()), -179.999_999);
    assert_eq!(Degrees::from_bits(0).to_bits(), 0);
    assert_ne!(degrees(1.0), degrees(-1.0));
}
