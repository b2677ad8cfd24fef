use einkstopwatch::{
    compose_frame, percent_text, render_commands, render_frame, Message, SharedState,
    StopwatchState, FRAME_BYTES,
};

#[test]
fn percent_field_has_two_digits_at_least() {
    assert_eq!(percent_text(0), b"00%".to_vec());
    assert_eq!(percent_text(7), b"07%".to_vec());
    assert_eq!(percent_text(49), b"49%".to_vec());
    assert_eq!(percent_text(99), b"99%".to_vec());
    assert_eq!(percent_text(100), b"100%".to_vec());
    assert_eq!(percent_text(255), b"255%".to_vec());
}

#[test]
fn text_is_drawn_into_the_frame() {
    let blank = compose_frame(b"", None);
    assert_eq!(blank.len(), FRAME_BYTES);
    assert!(blank.iter().all(|&b| b == 0xFF));
    let frame = compose_frame(b"00:05", None);
    assert_eq!(frame.len(), FRAME_BYTES);
    assert_ne!(frame, blank);
    let with_battery = compose_frame(b"00:05", Some(49));
    assert_ne!(with_battery, frame);
    assert_ne!(compose_frame(b"00:06", None), frame);
}

#[test]
fn rendering_unchanged_state_twice_is_identical() {
    let mut s = StopwatchState::new();
    s.on_press(0, 100);
    for _ in 0..5 {
        s.on_minute_tick();
    }
    let a = render_frame(&s, None, Some(80));
    let b = render_frame(&s, None, Some(80));
    assert_eq!(a, b);
    assert_eq!(a, compose_frame(b"00:05", Some(80)));
}

#[test]
fn message_replaces_clock_in_frame() {
    let s = StopwatchState::new();
    let frame = render_frame(&s, Some(b"HELLO"), None);
    assert_eq!(frame, compose_frame(b"HELLO", None));
    assert_ne!(frame, render_frame(&s, None, None));
}

#[test]
fn render_takes_the_inbound_message() {
    let s = StopwatchState::new();
    let mut shared = SharedState::new();
    shared.publish_battery(42);
    shared.deliver_message(Message::from_bytes(b"HI"));
    let cmds = render_commands(&s, &mut shared);
    assert_eq!(cmds.len(), 13);
    assert_eq!(cmds[10].opcode, 0x24);
    assert_eq!(cmds[10].payload, compose_frame(b"HI", Some(42)));
    assert!(shared.take_message().is_none());
    let cmds = render_commands(&s, &mut shared);
    assert_eq!(cmds[10].payload, compose_frame(b"00:00", Some(42)));
}
