use ascii_clock::stopwatch::StopwatchSource;

#[test]
fn elapsed_time_is_derived_from_the_start() {
    let sw = StopwatchSource::start_at(1000);
    assert_eq!(sw.frame_at(1000), "00:00:00");
    assert_eq!(sw.frame_at(1005), "00:00:05");
    assert_eq!(sw.frame_at(1000 + 3661), "01:01:01");
}

#[test]
fn each_second_shows_exactly_one_more() {
    let sw = StopwatchSource::start_at(500);
    let mut previous = sw.frame_at(500);
    for step in 1..=70i64 {
        let next = sw.frame_at(500 + step);
        assert_ne!(next, previous);
        previous = next;
    }
    assert_eq!(previous, "00:01:10");
}

#[test]
fn a_reading_before_the_start_shows_zero() {
    let sw = StopwatchSource::start_at(1000);
    assert_eq!(sw.frame_at(999), "00:00:00");
    assert_eq!(sw.frame_at(i64::MIN), "00:00:00");
}

#[test]
fn a_live_stopwatch_starts_near_zero() {
    let sw = StopwatchSource::start();
    let frame = sw.tick();
    assert!(frame.starts_with("00:00:0"), "fresh stopwatch read {}", frame);
}
