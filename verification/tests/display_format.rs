use stopwatch::display::{format_elapsed, gauge_seconds};
use stopwatch::hmi_manager::{make_display, HmiManager, TimerState};

#[test]
fn formats_zero() {
    assert_eq!(format_elapsed(0), b"00:00.00".to_vec());
}

#[test]
fn formats_minute_rollover() {
    // 65000 ms: one minute, five seconds, zero centiseconds.
    assert_eq!(format_elapsed(65_000), b"01:05.00".to_vec());
}

#[test]
fn formats_each_field() {
    assert_eq!(format_elapsed(10), b"00:00.01".to_vec());
    assert_eq!(format_elapsed(990), b"00:00.99".to_vec());
    assert_eq!(format_elapsed(59_990), b"00:59.99".to_vec());
    assert_eq!(format_elapsed(3_599_990), b"59:59.99".to_vec());
    // The minute field itself wraps after an hour.
    assert_eq!(format_elapsed(3_600_000), b"00:00.00".to_vec());
    assert_eq!(format_elapsed(754_320), b"12:34.32".to_vec());
}

#[test]
fn gauge_follows_whole_seconds() {
    assert_eq!(gauge_seconds(0), 0);
    assert_eq!(gauge_seconds(999), 0);
    assert_eq!(gauge_seconds(1000), 1);
    assert_eq!(gauge_seconds(65_000), 5);
    assert_eq!(gauge_seconds(59_999), 59);
    assert_eq!(gauge_seconds(60_000), 0);
}

#[test]
fn display_payload_pairs_text_and_gauge() {
    let d = make_display(65_000);
    assert_eq!(d.text, b"01:05.00".to_vec());
    assert_eq!(d.gauge_seconds, 5);
}

#[test]
fn running_minute_rollover_end_to_end() {
    let mut m = HmiManager::new_empty();
    let _ = m.update(0, true);
    let _ = m.update(0, false);
    assert_eq!(m.timer_state, TimerState::Running);
    let o = m.update(65_000, false);
    assert_eq!(m.timer_elapsed, 65_000);
    let d = o.display.unwrap();
    assert_eq!(d.text, b"01:05.00".to_vec());
    assert_eq!(d.gauge_seconds, 5);
}
