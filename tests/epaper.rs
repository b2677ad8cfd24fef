use einkstopwatch::{
    after_render_attempt, busy_poll, display_refresh, encode, power_up, render_sequence,
    set_ram_window, sleep, write_frame, BusOp, BusyPoll, Command, DriverError, RenderStep,
};

fn pairs(cmds: &[Command]) -> Vec<(u8, Vec<u8>)> {
    cmds.iter().map(|c| (c.opcode, c.payload.clone())).collect()
}

fn power_up_pairs() -> Vec<(u8, Vec<u8>)> {
    vec![
        (0x11, vec![0x03]),
        (0x3C, vec![0x05]),
        (0x2C, vec![0x36]),
        (0x03, vec![0x17]),
        (0x04, vec![0x41, 0x00, 0x32]),
        (0x4E, vec![0x01]),
        (0x4F, vec![0x00, 0x00]),
    ]
}

#[test]
fn power_up_emits_seven_commands_in_order() {
    assert_eq!(pairs(&power_up()), power_up_pairs());
}

#[test]
fn ram_window_from_rounded_geometry() {
    assert_eq!(
        pairs(&set_ram_window()),
        vec![
            (0x44, vec![0x01, 0x20]),
            (0x45, vec![0x00, 0x00, 121, 0x00]),
            (0x01, vec![121, 0x00, 0x00]),
        ]
    );
}

#[test]
fn refresh_and_sleep_commands() {
    assert_eq!(pairs(&display_refresh()), vec![(0x22, vec![0xF7]), (0x20, vec![])]);
    assert_eq!(pairs(&sleep()), vec![(0x10, vec![0x01])]);
    assert_eq!(pairs(&write_frame(vec![1, 2, 3])), vec![(0x24, vec![1, 2, 3])]);
}

#[test]
fn power_up_precedes_ram_write() {
    let frame = vec![0xAAu8; 4000];
    let seq = pairs(&render_sequence(frame.clone()));
    assert_eq!(seq.len(), 13);
    assert_eq!(seq[..7].to_vec(), power_up_pairs());
    let first_write = seq.iter().position(|(op, _)| *op == 0x24).unwrap();
    assert_eq!(first_write, 10);
    assert_eq!(seq[10].1, frame);
    assert_eq!(seq[11].0, 0x22);
    assert_eq!(seq[12].0, 0x20);
}

fn describe(ops: &[BusOp]) -> Vec<String> {
    ops.iter()
        .map(|o| match o {
            BusOp::Select => "cs".to_string(),
            BusOp::CommandMode => "dc-low".to_string(),
            BusOp::DataMode => "dc-high".to_string(),
            BusOp::Transfer(b) => format!("tx{:?}", b),
            BusOp::Deselect => "/cs".to_string(),
        })
        .collect()
}

#[test]
fn command_with_payload_on_the_wire() {
    let ops = encode(&vec![Command { opcode: 0x04, payload: vec![0x41, 0x00, 0x32] }]);
    assert_eq!(
        describe(&ops),
        vec!["cs", "dc-low", "tx[4]", "dc-high", "tx[65, 0, 50]", "/cs"]
    );
}

#[test]
fn command_without_payload_on_the_wire() {
    let ops = encode(&vec![
        Command { opcode: 0x20, payload: vec![] },
        Command { opcode: 0x11, payload: vec![3] },
    ]);
    assert_eq!(
        describe(&ops),
        vec!["cs", "dc-low", "tx[32]", "/cs", "cs", "dc-low", "tx[17]", "dc-high", "tx[3]", "/cs"]
    );
}

#[test]
fn empty_command_list_sends_nothing() {
    assert!(encode(&vec![]).is_empty());
}

#[test]
fn busy_line_decisions() {
    assert_eq!(busy_poll(false, 0), BusyPoll::Ready);
    assert_eq!(busy_poll(false, 50_000), BusyPoll::Ready);
    assert_eq!(busy_poll(true, 9_999), BusyPoll::KeepWaiting);
    assert_eq!(busy_poll(true, 10_000), BusyPoll::TimedOut);
}

#[test]
fn failed_render_is_retried_once() {
    assert_eq!(after_render_attempt(1, Ok(())), RenderStep::Done);
    assert_eq!(after_render_attempt(1, Err(DriverError::BusFault)), RenderStep::Retry);
    assert_eq!(
        after_render_attempt(2, Err(DriverError::BusFault)),
        RenderStep::Fault(DriverError::BusFault)
    );
    assert_eq!(
        after_render_attempt(2, Err(DriverError::ProtocolTimeout)),
        RenderStep::Fault(DriverError::ProtocolTimeout)
    );
    assert_eq!(after_render_attempt(2, Ok(())), RenderStep::Done);
}
