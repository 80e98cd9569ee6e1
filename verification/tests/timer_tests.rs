use ascii_clock::timer::TimerSource;

#[test]
fn five_seconds_give_five_distinct_frames_then_finish() {
    let mut timer = TimerSource::new(5);
    let mut frames: Vec<String> = Vec::new();
    while let Some(frame) = timer.tick() {
        frames.push(frame);
        assert!(frames.len() <= 5, "timer ran past its count");
    }
    assert_eq!(
        frames,
        vec!["00:00:05", "00:00:04", "00:00:03", "00:00:02", "00:00:01"]
    );
    for i in 0..frames.len() {
        for j in 0..i {
            assert_ne!(frames[i], frames[j]);
        }
    }
    assert_eq!(timer.tick(), None);
}

#[test]
fn zero_seconds_finish_immediately() {
    let mut timer = TimerSource::new(0);
    assert_eq!(timer.tick(), None);
    assert_eq!(timer.tick(), None);
}

#[test]
fn non_numeric_input_finishes_immediately() {
    let mut timer = TimerSource::from_input("soon");
    assert_eq!(timer.tick(), None);
}

#[test]
fn a_duration_over_a_minute_counts_down_through_it() {
    let mut timer = TimerSource::from_input("61");
    assert_eq!(timer.tick(), Some("00:01:01".to_string()));
    assert_eq!(timer.tick(), Some("00:01:00".to_string()));
    assert_eq!(timer.tick(), Some("00:00:59".to_string()));
}
