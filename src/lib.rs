//! Verified core of a battery-powered e-paper stopwatch appliance: battery
//! conversion, the button-driven stopwatch, the panel command protocol, frame
//! composition, the shared state of the tasks and the wireless text bridge.

pub mod battery;
pub mod bridge;
pub mod epaper;
pub mod message;
pub mod render;
pub mod shared;
pub mod stopwatch;

pub use battery::{
    battery_action, millivolts_from_raw, percent_from_mv, raw_from_sample, BatteryAction,
    BatteryReading, MAX, MIN, SAMPLE_PERIOD_SECS,
};
pub use bridge::{
    advertising_data, radio_step, scan_data, BatteryService, RadioAction, RadioEvent, RadioState,
    Server, ServerEvent, TextService,
};
pub use epaper::{
    after_render_attempt, busy_poll, display_refresh, encode, power_up, render_sequence,
    set_ram_window, sleep, write_frame, BusOp, BusyPoll, Command, DriverError, RenderStep,
    FRAME_BYTES,
};
pub use message::{Message, MESSAGE_CAPACITY};
pub use render::{compose_frame, percent_text, render_commands, render_frame};
pub use shared::{handle_server_event, SharedState, SharedView};
pub use stopwatch::{classify_press, clock_text, InputEvent, Mode, PressKind, StopwatchState};
