use ascii_clock::clock::ClockSource;

#[test]
fn an_unknown_timezone_yields_no_source() {
    assert!(ClockSource::new("Not/AZone").is_none());
    assert!(ClockSource::new("").is_none());
    assert!(ClockSource::new("america/new_york").is_none());
}

#[test]
fn known_timezones_yield_a_source() {
    assert!(ClockSource::new("America/New_York").is_some());
    assert!(ClockSource::new("UTC").is_some());
    assert!(ClockSource::new("Europe/Paris").is_some());
}

#[test]
fn a_frame_comes_only_when_the_reading_changes() {
    let mut clock = ClockSource::new("UTC").expect("UTC is known");
    assert_eq!(clock.tick_at(10, 30), Some("10:30 AM".to_string()));
    assert_eq!(clock.tick_at(10, 30), None);
    assert_eq!(clock.tick_at(10, 30), None);
    assert_eq!(clock.tick_at(10, 31), Some("10:31 AM".to_string()));
    assert_eq!(clock.tick_at(10, 31), None);
    assert_eq!(clock.tick_at(22, 31), Some("10:31 PM".to_string()));
}

#[test]
fn the_first_live_tick_renders_a_reading() {
    let mut clock = ClockSource::new("UTC").expect("UTC is known");
    let frame = clock.tick().expect("nothing was shown yet");
    assert_eq!(frame.len(), 8);
    assert_eq!(&frame[2..3], ":");
    assert!(frame.ends_with("AM") || frame.ends_with("PM"));
}
