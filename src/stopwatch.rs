//! The button-driven stopwatch: press classification, the Idle/Running state
//! machine with its minute count, and the clock readout.
use vstd::prelude::*;

verus! {

/// A press held longer than this many milliseconds is a long press.
pub const LONG_PRESS_MS: u64 = 2000;

/// Hours shown on the readout stop at this value.
pub const MAX_SHOWN_HOURS: u32 = 99;

/// How a press is read, from the time between press and release.
#[derive(PartialEq, Eq, Structural, Clone, Copy, Debug)]
pub enum PressKind {
    /// Held at most `LONG_PRESS_MS`: start or stop the stopwatch.
    ShortPress,
    /// Held longer than `LONG_PRESS_MS`: reset the stopwatch.
    LongPress,
}

/// The kind of a press held for `duration_ms` milliseconds.
pub open spec fn press_kind_of(duration_ms: int) -> PressKind {
    if duration_ms > LONG_PRESS_MS {
        PressKind::LongPress
    } else {
        PressKind::ShortPress
    }
}

/// Classify a press by how long it was held.
pub fn classify_press(duration_ms: u64) -> (kind: PressKind)
    ensures
        kind == press_kind_of(duration_ms as int),
{
    if duration_ms > LONG_PRESS_MS {
        PressKind::LongPress
    } else {
        PressKind::ShortPress
    }
}

/// Whether the stopwatch counts minutes.
#[derive(PartialEq, Eq, Structural, Clone, Copy, Debug)]
pub enum Mode {
    Idle,
    /// Counting since the release of the press that started it, in
    /// milliseconds of the monotonic clock.
    Running { started_at_ms: u64 },
}

/// The stopwatch: its mode and the whole minutes counted so far.
#[derive(PartialEq, Eq, Structural, Clone, Copy, Debug)]
pub struct StopwatchState {
    pub mode: Mode,
    pub minutes: u32,
}

/// What the input controller observed: whichever of its waits won the race.
#[derive(PartialEq, Eq, Structural, Clone, Copy, Debug)]
pub enum InputEvent {
    /// The button went down and came back up, at these times in milliseconds
    /// of the monotonic clock.
    Press { pressed_at_ms: u64, released_at_ms: u64 },
    /// The one-minute timer expired.
    MinuteElapsed,
}

/// ASCII digit for `d` in `0..10`.
pub open spec fn digit(d: int) -> u8 {
    (48 + d) as u8
}

/// Hours shown for a minute count: whole hours, capped at 99.
pub open spec fn shown_hours(minutes: int) -> int {
    if minutes / 60 > 99 {
        99
    } else {
        minutes / 60
    }
}

/// The readout `HH:MM` for a minute count, each field two digits with a
/// leading zero; the hours field stops at 99.
pub open spec fn clock_text_of(minutes: int) -> Seq<u8> {
    let h = shown_hours(minutes);
    let m = minutes % 60;
    seq![digit(h / 10), digit(h % 10), 58u8, digit(m / 10), digit(m % 10)]
}

/// The readout `HH:MM` for a minute count.
pub fn clock_text(minutes: u32) -> (text: Vec<u8>)
    ensures
        text@ == clock_text_of(minutes as int),
{
    let hours = minutes / 60;
    let hours = if hours > MAX_SHOWN_HOURS { MAX_SHOWN_HOURS } else { hours };
    let mins = minutes % 60;
    let mut text: Vec<u8> = Vec::new();
    text.push((48 + hours / 10) as u8);
    text.push((48 + hours % 10) as u8);
    text.push(58u8);
    text.push((48 + mins / 10) as u8);
    text.push((48 + mins % 10) as u8);
    proof {
        assert(text@ =~= clock_text_of(minutes as int));
    }
    text
}

impl StopwatchState {
    /// The stopwatch at boot: idle, no minutes counted.
    pub fn new() -> (s: StopwatchState)
        ensures
            s.mode == Mode::Idle,
            s.minutes == 0,
    {
        StopwatchState { mode: Mode::Idle, minutes: 0 }
    }

    pub open spec fn is_running_spec(&self) -> bool {
        self.mode is Running
    }

    /// Whether minutes are being counted: the controller then races the
    /// minute timer against the next press.
    pub fn is_running(&self) -> (r: bool)
        ensures
            r == self.is_running_spec(),
    {
        match self.mode {
            Mode::Idle => false,
            Mode::Running { .. } => true,
        }
    }

    /// The state after a press held from `pressed_at_ms` to `released_at_ms`.
    pub open spec fn after_press(self, pressed_at_ms: int, released_at_ms: int) -> StopwatchState {
        match press_kind_of(released_at_ms - pressed_at_ms) {
            PressKind::LongPress => StopwatchState { mode: Mode::Idle, minutes: 0 },
            PressKind::ShortPress => match self.mode {
                Mode::Idle => StopwatchState {
                    mode: Mode::Running { started_at_ms: released_at_ms as u64 },
                    minutes: self.minutes,
                },
                Mode::Running { .. } => StopwatchState { mode: Mode::Idle, minutes: self.minutes },
            },
        }
    }

    /// Apply a press held from `pressed_at_ms` to `released_at_ms`: a long
    /// press resets the count and stops; a short press starts or stops.
    /// Every press calls for a new render.
    pub fn on_press(&mut self, pressed_at_ms: u64, released_at_ms: u64) -> (kind: PressKind)
        requires
            pressed_at_ms <= released_at_ms,
        ensures
            kind == press_kind_of(released_at_ms - pressed_at_ms),
            *final(self) == old(self).after_press(pressed_at_ms as int, released_at_ms as int),
    {
        let kind = classify_press(released_at_ms - pressed_at_ms);
        match kind {
            PressKind::LongPress => {
                self.mode = Mode::Idle;
                self.minutes = 0;
            },
            PressKind::ShortPress => {
                match self.mode {
                    Mode::Idle => {
                        self.mode = Mode::Running { started_at_ms: released_at_ms };
                    },
                    Mode::Running { .. } => {
                        self.mode = Mode::Idle;
                    },
                }
            },
        }
        kind
    }

    /// The state after the minute timer fires: a running stopwatch counts
    /// one more minute (the count stops at `u32::MAX`); an idle one is
    /// unchanged.
    pub open spec fn after_tick(self) -> StopwatchState {
        if self.is_running_spec() {
            StopwatchState {
                minutes: if self.minutes == u32::MAX { u32::MAX } else { (self.minutes + 1) as u32 },
                ..self
            }
        } else {
            self
        }
    }

    /// Apply one expiry of the minute timer; returns whether the display is
    /// to be rendered again.
    pub fn on_minute_tick(&mut self) -> (render: bool)
        ensures
            *final(self) == old(self).after_tick(),
            render == old(self).is_running_spec(),
    {
        if self.is_running() {
            self.minutes = self.minutes.saturating_add(1);
            true
        } else {
            false
        }
    }

    /// Apply an event of the input controller; returns whether the display is
    /// to be rendered again: after every press, and after a minute counted
    /// while running.
    pub fn handle_input(&mut self, event: InputEvent) -> (render: bool)
        requires
            event matches InputEvent::Press { pressed_at_ms, released_at_ms } ==> pressed_at_ms
                <= released_at_ms,
        ensures
            match event {
                InputEvent::Press { pressed_at_ms, released_at_ms } => {
                    &&& render
                    &&& *final(self) == old(self).after_press(
                        pressed_at_ms as int,
                        released_at_ms as int,
                    )
                },
                InputEvent::MinuteElapsed => {
                    &&& render == old(self).is_running_spec()
                    &&& *final(self) == old(self).after_tick()
                },
            },
    {
        match event {
            InputEvent::Press { pressed_at_ms, released_at_ms } => {
                self.on_press(pressed_at_ms, released_at_ms);
                true
            },
            InputEvent::MinuteElapsed => self.on_minute_tick(),
        }
    }

    /// The readout for this state.
    pub fn clock_text(&self) -> (text: Vec<u8>)
        ensures
            text@ == clock_text_of(self.minutes as int),
    {
        clock_text(self.minutes)
    }
}

} // verus!
