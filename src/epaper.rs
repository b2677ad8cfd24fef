//! Encoder for the e-paper panel's 4-wire command protocol, and the rules for
//! the panel's busy line and for failed transfers.
//!
//! A command is an opcode byte and its payload. On the wire it is: chip-select
//! asserted, data/command line low, the opcode byte; if there is a payload,
//! data/command line high and the payload bytes; chip-select released.
use vstd::prelude::*;

verus! {

/// Panel width in pixels.
pub const PANEL_WIDTH: u8 = 122;

/// Panel height in pixels.
pub const PANEL_HEIGHT: u8 = 250;

/// Bytes of a full monochrome frame: each row of `PANEL_WIDTH` pixels rounded
/// up to whole bytes, times `PANEL_HEIGHT` rows.
pub const FRAME_BYTES: usize = 4000;

pub const DRIVER_CONTROL: u8 = 0x01;
pub const GATE_VOLTAGE: u8 = 0x03;
pub const SOURCE_VOLTAGE: u8 = 0x04;
pub const DEEP_SLEEP: u8 = 0x10;
pub const DATA_ENTRY_MODE: u8 = 0x11;
pub const MASTER_ACTIVATE: u8 = 0x20;
pub const DISPLAY_UPDATE_CONTROL: u8 = 0x22;
pub const WRITE_RAM: u8 = 0x24;
pub const WRITE_VCOM: u8 = 0x2C;
pub const WRITE_BORDER: u8 = 0x3C;
pub const SET_RAM_X_POSITION: u8 = 0x44;
pub const SET_RAM_Y_POSITION: u8 = 0x45;
pub const SET_RAM_X_COUNTER: u8 = 0x4E;
pub const SET_RAM_Y_COUNTER: u8 = 0x4F;

/// One command for the panel controller: an opcode and its payload bytes.
pub struct Command {
    pub opcode: u8,
    pub payload: Vec<u8>,
}

impl View for Command {
    type V = (u8, Seq<u8>);

    open spec fn view(&self) -> (u8, Seq<u8>) {
        (self.opcode, self.payload@)
    }
}

/// One step on the wire.
pub enum BusOp {
    /// Chip-select asserted.
    Select,
    /// Data/command line driven low: the bytes that follow are an opcode.
    CommandMode,
    /// Data/command line driven high: the bytes that follow are payload.
    DataMode,
    /// Bytes clocked out on the bus.
    Transfer(Vec<u8>),
    /// Chip-select released.
    Deselect,
}

/// What a `BusOp` does, as a value.
pub enum WireStep {
    Select,
    CommandMode,
    DataMode,
    Transfer(Seq<u8>),
    Deselect,
}

impl View for BusOp {
    type V = WireStep;

    open spec fn view(&self) -> WireStep {
        match self {
            BusOp::Select => WireStep::Select,
            BusOp::CommandMode => WireStep::CommandMode,
            BusOp::DataMode => WireStep::DataMode,
            BusOp::Transfer(bytes) => WireStep::Transfer(bytes@),
            BusOp::Deselect => WireStep::Deselect,
        }
    }
}

/// The views of a list of bus steps.
pub open spec fn ops_view(ops: Seq<BusOp>) -> Seq<WireStep> {
    ops.map_values(|o: BusOp| o@)
}

/// How one command goes on the wire.
pub open spec fn wire_of(c: (u8, Seq<u8>)) -> Seq<WireStep> {
    let head = seq![WireStep::Select, WireStep::CommandMode, WireStep::Transfer(seq![c.0])];
    let body = if c.1.len() > 0 {
        seq![WireStep::DataMode, WireStep::Transfer(c.1)]
    } else {
        Seq::empty()
    };
    head + body + seq![WireStep::Deselect]
}

/// How a list of commands goes on the wire: each in turn.
pub open spec fn wire_of_all(cmds: Seq<(u8, Seq<u8>)>) -> Seq<WireStep>
    decreases cmds.len(),
{
    if cmds.len() == 0 {
        Seq::empty()
    } else {
        wire_of_all(cmds.drop_last()) + wire_of(cmds.last())
    }
}

/// The views of a list of commands.
pub open spec fn commands_view(cmds: Seq<Command>) -> Seq<(u8, Seq<u8>)> {
    cmds.map_values(|c: Command| c@)
}

/// `n` rounded up to a multiple of 8.
pub open spec fn round_up_to_byte(n: int) -> int {
    (n + 7) / 8 * 8
}

/// The seven configuration commands of power-up, in order: data entry mode,
/// border colour, VCOM voltage, gate voltage, source voltage, RAM X counter,
/// RAM Y counter.
pub open spec fn power_up_spec() -> Seq<(u8, Seq<u8>)> {
    seq![
        (DATA_ENTRY_MODE, seq![0x03u8]),
        (WRITE_BORDER, seq![0x05u8]),
        (WRITE_VCOM, seq![0x36u8]),
        (GATE_VOLTAGE, seq![0x17u8]),
        (SOURCE_VOLTAGE, seq![0x41u8, 0x00u8, 0x32u8]),
        (SET_RAM_X_COUNTER, seq![0x01u8]),
        (SET_RAM_Y_COUNTER, seq![0x00u8, 0x00u8]),
    ]
}

/// The RAM window: X start/end from the height rounded up to whole bytes, Y
/// start/end and the driver output control from the width.
pub open spec fn ram_window_spec() -> Seq<(u8, Seq<u8>)> {
    let x_end = (round_up_to_byte(PANEL_HEIGHT as int) / 8) as u8;
    let last_line = (PANEL_WIDTH - 1) as u8;
    seq![
        (SET_RAM_X_POSITION, seq![0x01u8, x_end]),
        (SET_RAM_Y_POSITION, seq![0x00u8, 0x00u8, last_line, 0x00u8]),
        (DRIVER_CONTROL, seq![last_line, 0x00u8, 0x00u8]),
    ]
}

/// Writing a frame: the RAM write command carrying the whole buffer.
pub open spec fn write_frame_spec(frame: Seq<u8>) -> Seq<(u8, Seq<u8>)> {
    seq![(WRITE_RAM, frame)]
}

/// Refreshing the panel from its RAM: full update mode, then activation.
pub open spec fn display_refresh_spec() -> Seq<(u8, Seq<u8>)> {
    seq![(DISPLAY_UPDATE_CONTROL, seq![0xF7u8]), (MASTER_ACTIVATE, Seq::<u8>::empty())]
}

/// Putting the panel into deep sleep.
pub open spec fn sleep_spec() -> Seq<(u8, Seq<u8>)> {
    seq![(DEEP_SLEEP, seq![0x01u8])]
}

/// A full render: power-up, RAM window, the frame, refresh.
pub open spec fn render_sequence_spec(frame: Seq<u8>) -> Seq<(u8, Seq<u8>)> {
    power_up_spec() + ram_window_spec() + write_frame_spec(frame) + display_refresh_spec()
}

fn command(opcode: u8, payload: Vec<u8>) -> (c: Command)
    ensures
        c@ == (opcode, payload@),
{
    Command { opcode, payload }
}

/// The power-up configuration commands.
pub fn power_up() -> (cmds: Vec<Command>)
    ensures
        commands_view(cmds@) == power_up_spec(),
{
    let cmds = vec![
        command(DATA_ENTRY_MODE, vec![0x03u8]),
        command(WRITE_BORDER, vec![0x05u8]),
        command(WRITE_VCOM, vec![0x36u8]),
        command(GATE_VOLTAGE, vec![0x17u8]),
        command(SOURCE_VOLTAGE, vec![0x41u8, 0x00u8, 0x32u8]),
        command(SET_RAM_X_COUNTER, vec![0x01u8]),
        command(SET_RAM_Y_COUNTER, vec![0x00u8, 0x00u8]),
    ];
    proof {
        let spec = power_up_spec();
        assert forall|i: int| 0 <= i < 7 implies #[trigger] cmds@[i]@ == spec[i] by {
            assert(spec[i].1 =~= cmds@[i].payload@);
        }
        assert(commands_view(cmds@) =~= spec);
    }
    cmds
}

/// The RAM window commands.
pub fn set_ram_window() -> (cmds: Vec<Command>)
    ensures
        commands_view(cmds@) == ram_window_spec(),
{
    let height = PANEL_HEIGHT as u32;
    let rounded = (height + 7) / 8 * 8;
    let x_end = (rounded / 8) as u8;
    let last_line = PANEL_WIDTH - 1;
    let cmds = vec![
        command(SET_RAM_X_POSITION, vec![0x01u8, x_end]),
        command(SET_RAM_Y_POSITION, vec![0x00u8, 0x00u8, last_line, 0x00u8]),
        command(DRIVER_CONTROL, vec![last_line, 0x00u8, 0x00u8]),
    ];
    proof {
        let spec = ram_window_spec();
        assert forall|i: int| 0 <= i < 3 implies #[trigger] cmds@[i]@ == spec[i] by {
            assert(spec[i].1 =~= cmds@[i].payload@);
        }
        assert(commands_view(cmds@) =~= spec);
    }
    cmds
}

/// The command that writes `frame` into the panel's RAM.
pub fn write_frame(frame: Vec<u8>) -> (cmds: Vec<Command>)
    ensures
        commands_view(cmds@) == write_frame_spec(frame@),
{
    let cmds = vec![command(WRITE_RAM, frame)];
    proof {
        assert(commands_view(cmds@) =~= write_frame_spec(frame@));
    }
    cmds
}

/// The commands that refresh the panel from its RAM.
pub fn display_refresh() -> (cmds: Vec<Command>)
    ensures
        commands_view(cmds@) == display_refresh_spec(),
{
    let cmds = vec![
        command(DISPLAY_UPDATE_CONTROL, vec![0xF7u8]),
        command(MASTER_ACTIVATE, Vec::new()),
    ];
    proof {
        let spec = display_refresh_spec();
        assert forall|i: int| 0 <= i < 2 implies #[trigger] cmds@[i]@ == spec[i] by {
            assert(spec[i].1 =~= cmds@[i].payload@);
        }
        assert(commands_view(cmds@) =~= spec);
    }
    cmds
}

/// The command that puts the panel into deep sleep.
pub fn sleep() -> (cmds: Vec<Command>)
    ensures
        commands_view(cmds@) == sleep_spec(),
{
    let cmds = vec![command(DEEP_SLEEP, vec![0x01u8])];
    proof {
        let spec = sleep_spec();
        assert(spec[0].1 =~= cmds@[0].payload@);
        assert(commands_view(cmds@) =~= spec);
    }
    cmds
}

proof fn lemma_commands_view_append(a: Seq<Command>, b: Seq<Command>)
    ensures
        commands_view(a + b) == commands_view(a) + commands_view(b),
{
    assert(commands_view(a + b) =~= commands_view(a) + commands_view(b));
}

/// The commands of a full render of `frame`: power-up, RAM window, the
/// frame, refresh.
pub fn render_sequence(frame: Vec<u8>) -> (cmds: Vec<Command>)
    ensures
        commands_view(cmds@) == render_sequence_spec(frame@),
{
    let mut cmds = power_up();
    let mut window = set_ram_window();
    let mut write = write_frame(frame);
    let mut refresh = display_refresh();
    let ghost c0 = cmds@;
    let ghost w0 = window@;
    let ghost f0 = write@;
    let ghost r0 = refresh@;
    cmds.append(&mut window);
    cmds.append(&mut write);
    cmds.append(&mut refresh);
    proof {
        lemma_commands_view_append(c0, w0);
        lemma_commands_view_append(c0 + w0, f0);
        lemma_commands_view_append(c0 + w0 + f0, r0);
    }
    cmds
}

/// The bus steps that transmit `cmds`, in order.
pub fn encode(cmds: &Vec<Command>) -> (ops: Vec<BusOp>)
    ensures
        ops_view(ops@) == wire_of_all(commands_view(cmds@)),
{
    let mut ops: Vec<BusOp> = Vec::new();
    let mut i: usize = 0;
    while i < cmds.len()
        invariant
            i <= cmds@.len(),
            ops_view(ops@) == wire_of_all(commands_view(cmds@.subrange(0, i as int))),
        decreases cmds@.len() - i,
    {
        let c = &cmds[i];
        let ghost before = ops@;
        ops.push(BusOp::Select);
        ops.push(BusOp::CommandMode);
        let opcode = vec![c.opcode];
        assert(opcode@ =~= seq![c.opcode]);
        ops.push(BusOp::Transfer(opcode));
        if c.payload.len() > 0 {
            let payload = c.payload.clone();
            assert(payload@ =~= c.payload@);
            ops.push(BusOp::DataMode);
            ops.push(BusOp::Transfer(payload));
        }
        ops.push(BusOp::Deselect);
        proof {
            let prefix = commands_view(cmds@.subrange(0, i + 1));
            assert(prefix.drop_last() =~= commands_view(cmds@.subrange(0, i as int)));
            assert(prefix.last() == c@);
            let w = wire_of(c@);
            assert(ops_view(ops@).len() == ops_view(before).len() + w.len());
            assert forall|k: int| 0 <= k < ops_view(ops@).len() implies #[trigger] ops_view(ops@)[k]
                == (ops_view(before) + w)[k] by {
                if k < before.len() {
                    assert(ops@[k] == before[k]);
                }
            }
            assert(ops_view(ops@) =~= ops_view(before) + w);
        }
        i = i + 1;
    }
    assert(cmds@.subrange(0, cmds@.len() as int) =~= cmds@);
    ops
}

/// How long, in milliseconds, the panel may hold its busy line before the
/// wait is given up.
pub const BUSY_TIMEOUT_MS: u64 = 10000;

/// Attempts at one render: the first and one retry.
pub const MAX_RENDER_ATTEMPTS: u8 = 2;

/// Why a transmission to the panel failed.
#[derive(PartialEq, Eq, Structural, Clone, Copy, Debug)]
pub enum DriverError {
    /// A transfer on the bus failed.
    BusFault,
    /// The panel's busy line did not clear within `BUSY_TIMEOUT_MS`.
    ProtocolTimeout,
}

/// What to do after reading the panel's busy line.
#[derive(PartialEq, Eq, Structural, Clone, Copy, Debug)]
pub enum BusyPoll {
    /// The panel is ready for the next command.
    Ready,
    /// Still busy: read the line again later.
    KeepWaiting,
    /// Still busy after `BUSY_TIMEOUT_MS`: give up with `ProtocolTimeout`.
    TimedOut,
}

/// Decide on the busy line, read as `busy` after `waited_ms` milliseconds of
/// waiting.
pub fn busy_poll(busy: bool, waited_ms: u64) -> (r: BusyPoll)
    ensures
        !busy ==> r == BusyPoll::Ready,
        busy && waited_ms >= BUSY_TIMEOUT_MS ==> r == BusyPoll::TimedOut,
        busy && waited_ms < BUSY_TIMEOUT_MS ==> r == BusyPoll::KeepWaiting,
{
    if !busy {
        BusyPoll::Ready
    } else if waited_ms >= BUSY_TIMEOUT_MS {
        BusyPoll::TimedOut
    } else {
        BusyPoll::KeepWaiting
    }
}

/// What to do once a render attempt has ended.
#[derive(PartialEq, Eq, Structural, Clone, Copy, Debug)]
pub enum RenderStep {
    /// The frame is on the panel.
    Done,
    /// Transmit the whole render again.
    Retry,
    /// Give up: the appliance enters its fault state and resets.
    Fault(DriverError),
}

/// Decide after attempt number `attempt` (counting from 1) of a render
/// ended with `outcome`: a failure is retried once, then it is a fault.
pub fn after_render_attempt(attempt: u8, outcome: Result<(), DriverError>) -> (r: RenderStep)
    ensures
        outcome is Ok ==> r == RenderStep::Done,
        outcome is Err && attempt < MAX_RENDER_ATTEMPTS ==> r == RenderStep::Retry,
        outcome is Err && attempt >= MAX_RENDER_ATTEMPTS ==> r == RenderStep::Fault(
            outcome->Err_0,
        ),
{
    match outcome {
        Ok(()) => RenderStep::Done,
        Err(e) => if attempt < MAX_RENDER_ATTEMPTS {
            RenderStep::Retry
        } else {
            RenderStep::Fault(e)
        },
    }
}

/// Power-up comes first: a render's first seven commands are the power-up
/// configuration, in its fixed order, and every RAM write comes after them.
pub proof fn lemma_power_up_precedes_ram_write(frame: Seq<u8>)
    ensures
        render_sequence_spec(frame).subrange(0, 7) == power_up_spec(),
        forall|i: int|
            0 <= i < render_sequence_spec(frame).len() && #[trigger] render_sequence_spec(
                frame,
            )[i].0 == WRITE_RAM ==> i >= 7,
{
    let s = render_sequence_spec(frame);
    assert(s.subrange(0, 7) =~= power_up_spec());
    assert forall|i: int| 0 <= i < s.len() && #[trigger] s[i].0 == WRITE_RAM implies i >= 7 by {
        if i < 7 {
            assert(s[i] == power_up_spec()[i]);
        }
    }
}

} // verus!
