use einkstopwatch::{classify_press, clock_text, InputEvent, Mode, PressKind, StopwatchState};

fn running_from_idle() -> StopwatchState {
    let mut s = StopwatchState::new();
    assert_eq!(s.on_press(1000, 1100), PressKind::ShortPress);
    s
}

#[test]
fn press_of_exactly_threshold_is_short() {
    assert_eq!(classify_press(2000), PressKind::ShortPress);
    assert_eq!(classify_press(0), PressKind::ShortPress);
}

#[test]
fn press_just_over_threshold_is_long() {
    assert_eq!(classify_press(2001), PressKind::LongPress);
}

#[test]
fn long_press_resets_running_stopwatch() {
    let mut s = running_from_idle();
    for _ in 0..7 {
        assert!(s.on_minute_tick());
    }
    assert_eq!(s.minutes, 7);
    assert_eq!(s.on_press(50_000, 52_001), PressKind::LongPress);
    assert_eq!(s.mode, Mode::Idle);
    assert_eq!(s.minutes, 0);
}

#[test]
fn press_of_two_seconds_toggles_without_reset() {
    let mut s = running_from_idle();
    s.on_minute_tick();
    assert_eq!(s.on_press(10_000, 12_000), PressKind::ShortPress);
    assert_eq!(s.mode, Mode::Idle);
    assert_eq!(s.minutes, 1);
}

#[test]
fn short_press_starts_and_stops() {
    let mut s = StopwatchState::new();
    assert_eq!(s.mode, Mode::Idle);
    assert_eq!(s.minutes, 0);
    s.on_press(1000, 1100);
    assert_eq!(s.mode, Mode::Running { started_at_ms: 1100 });
    assert!(s.is_running());
    s.on_press(5000, 5200);
    assert_eq!(s.mode, Mode::Idle);
    assert!(!s.is_running());
}

#[test]
fn five_ticks_read_five_minutes() {
    let mut s = running_from_idle();
    for _ in 0..5 {
        assert!(s.on_minute_tick());
    }
    assert_eq!(s.minutes, 5);
    assert_eq!(s.clock_text(), b"00:05".to_vec());
}

#[test]
fn one_hundred_thirty_ticks_read_two_hours_ten() {
    let mut s = running_from_idle();
    for _ in 0..130 {
        s.on_minute_tick();
    }
    assert_eq!(s.minutes, 130);
    assert_eq!(s.clock_text(), b"02:10".to_vec());
}

#[test]
fn hours_field_clamps_at_ninety_nine() {
    assert_eq!(clock_text(99 * 60 + 59), b"99:59".to_vec());
    assert_eq!(clock_text(100 * 60), b"99:00".to_vec());
    assert_eq!(clock_text(130 * 60 + 7), b"99:07".to_vec());
    assert_eq!(clock_text(u32::MAX), b"99:15".to_vec());
}

#[test]
fn tick_while_idle_changes_nothing() {
    let mut s = StopwatchState::new();
    assert!(!s.on_minute_tick());
    assert_eq!(s, StopwatchState::new());
}

#[test]
fn minute_count_saturates() {
    let mut s = running_from_idle();
    s.minutes = u32::MAX;
    assert!(s.on_minute_tick());
    assert_eq!(s.minutes, u32::MAX);
}

#[test]
fn every_press_asks_for_a_render() {
    let mut s = StopwatchState::new();
    let press = InputEvent::Press { pressed_at_ms: 0, released_at_ms: 300 };
    assert!(s.handle_input(press));
    assert_eq!(s.mode, Mode::Running { started_at_ms: 300 });
    assert_eq!(s.minutes, 0);
    assert!(s.handle_input(InputEvent::MinuteElapsed));
    assert_eq!(s.minutes, 1);
    let long = InputEvent::Press { pressed_at_ms: 1000, released_at_ms: 3001 };
    assert!(s.handle_input(long));
    assert_eq!(s, StopwatchState::new());
    assert!(!s.handle_input(InputEvent::MinuteElapsed));
    assert_eq!(s.minutes, 0);
}
