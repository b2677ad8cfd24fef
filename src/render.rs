//! Frame composition: the primary text at the top left and the battery
//! percentage at the top right of a landscape monochrome frame, drawn with
//! embedded-graphics into the ssd1680 crate's frame buffer.
use crate::epaper::{commands_view, render_sequence, render_sequence_spec, Command, FRAME_BYTES};
use crate::shared::SharedState;
use crate::stopwatch::{clock_text, clock_text_of, digit, StopwatchState};
use embedded_graphics::mono_font::ascii::FONT_10X20;
use embedded_graphics::mono_font::MonoTextStyleBuilder;
use embedded_graphics::pixelcolor::BinaryColor;
use embedded_graphics::prelude::Point;
use embedded_graphics::text::{Baseline, Text, TextStyleBuilder};
use embedded_graphics::Drawable;
use ssd1680::graphics::{Display, Display2in13, DisplayRotation};
use vstd::prelude::*;

verus! {

/// Width of the frame in landscape orientation, in pixels.
pub const LANDSCAPE_WIDTH: i32 = 250;

/// Width of one character of the font, in pixels.
pub const CHAR_WIDTH: i32 = 10;

/// Height of the frame in landscape orientation, in pixels.
pub const LANDSCAPE_HEIGHT: i32 = 122;

/// Longest text that is drawn, in bytes: the drawing advances its position
/// in `i32` by a character width per character and a line height per line,
/// which must not overflow.
pub const MAX_TEXT_LEN: usize = 1000000;

#[verifier::external_type_specification]
#[verifier::external_body]
pub struct ExDisplay2in13(Display2in13);

/// The bytes of a frame buffer.
pub uninterp spec fn frame_bytes(d: Display2in13) -> Seq<u8>;

/// The orientation of a frame buffer, in quarter turns clockwise.
pub uninterp spec fn frame_rotation(d: Display2in13) -> int;

/// The bytes of a frame buffer holding `bytes` in orientation `rotation`,
/// after `text` (one character per byte) is drawn with its top left corner at
/// `(x, y)`.
pub uninterp spec fn text_drawn(bytes: Seq<u8>, rotation: int, text: Seq<u8>, x: int, y: int) -> Seq<u8>;

/// A blank frame: every pixel white.
pub open spec fn blank_frame_bytes() -> Seq<u8> {
    Seq::new(FRAME_BYTES as nat, |i: int| 0xFFu8)
}

/// Relies on `Display2in13::bw` of ssd1680: a frame buffer of
/// `FRAME_BYTES` bytes, each `0xFF` (white), not rotated.
#[verifier::external_body]
fn blank_frame() -> (d: Display2in13)
    ensures
        frame_bytes(d) == blank_frame_bytes(),
        frame_rotation(d) == 0,
{
    Display2in13::bw()
}

/// Relies on `Display::set_rotation` of ssd1680: turns the frame a quarter
/// turn to landscape, leaving its bytes as they are.
#[verifier::external_body]
fn rotate_to_landscape(d: &mut Display2in13)
    ensures
        frame_bytes(*final(d)) == frame_bytes(*old(d)),
        frame_rotation(*final(d)) == 1,
{
    d.set_rotation(DisplayRotation::Rotate90)
}

/// Relies on `Drawable::draw` of embedded-graphics' `Text`, in the 10x20
/// ASCII font, white on black, top baseline: the frame's bytes after drawing
/// depend on its bytes and rotation, the text and the position alone, and
/// keep their number. Drawing on this frame buffer never fails.
#[verifier::external_body]
fn draw_text(d: &mut Display2in13, text: &[u8], x: i32, y: i32)
    requires
        0 <= x <= LANDSCAPE_WIDTH,
        0 <= y <= LANDSCAPE_HEIGHT,
        text@.len() <= MAX_TEXT_LEN,
    ensures
        frame_bytes(*final(d)) == text_drawn(
            frame_bytes(*old(d)),
            frame_rotation(*old(d)),
            text@,
            x as int,
            y as int,
        ),
        frame_bytes(*final(d)).len() == frame_bytes(*old(d)).len(),
        frame_rotation(*final(d)) == frame_rotation(*old(d)),
{
    let style = MonoTextStyleBuilder::new().font(&FONT_10X20).text_color(BinaryColor::On)
        .background_color(BinaryColor::Off).build();
    let text_style = TextStyleBuilder::new().baseline(Baseline::Top).build();
    let s: String = text.iter().map(|&b| b as char).collect();
    let _ = Text::with_text_style(&s, Point::new(x, y), style, text_style).draw(d);
}

/// Relies on `Display::buffer` of ssd1680: a copy of the frame's bytes.
#[verifier::external_body]
fn frame_buffer(d: &Display2in13) -> (r: Vec<u8>)
    ensures
        r@ == frame_bytes(*d),
{
    d.buffer().to_vec()
}

/// The battery field: the percentage in decimal, at least two digits with a
/// leading zero, then `%`.
pub open spec fn percent_text_of(p: int) -> Seq<u8> {
    if p < 100 {
        seq![digit(p / 10), digit(p % 10), 37u8]
    } else {
        seq![digit(p / 100), digit((p / 10) % 10), digit(p % 10), 37u8]
    }
}

/// The battery field for a percentage.
pub fn percent_text(p: u8) -> (text: Vec<u8>)
    ensures
        text@ == percent_text_of(p as int),
{
    let mut text: Vec<u8> = Vec::new();
    if p >= 100 {
        text.push(48 + p / 100);
    }
    text.push(48 + (p / 10) % 10);
    text.push(48 + p % 10);
    text.push(37u8);
    proof {
        assert(text@ =~= percent_text_of(p as int));
    }
    text
}

/// Left edge of a text of `len` characters that ends at the right edge of
/// the landscape frame.
pub open spec fn right_aligned_x(len: int) -> int {
    LANDSCAPE_WIDTH - CHAR_WIDTH * len
}

/// The frame showing `primary` at the top left and, where the battery level
/// is known, its percentage at the top right.
pub open spec fn frame_of(primary: Seq<u8>, percent: Option<u8>) -> Seq<u8> {
    let base = text_drawn(blank_frame_bytes(), 1, primary, 0, 0);
    match percent {
        None => base,
        Some(p) => {
            let t = percent_text_of(p as int);
            text_drawn(base, 1, t, right_aligned_x(t.len() as int), 0)
        },
    }
}

/// Compose a fresh frame: `primary` at the top left and, where the battery
/// level is known, its percentage at the top right.
pub fn compose_frame(primary: &[u8], percent: Option<u8>) -> (frame: Vec<u8>)
    requires
        primary@.len() <= MAX_TEXT_LEN,
    ensures
        frame@ == frame_of(primary@, percent),
{
    let mut d = blank_frame();
    rotate_to_landscape(&mut d);
    draw_text(&mut d, primary, 0, 0);
    match percent {
        None => {},
        Some(p) => {
            let t = percent_text(p);
            let x = LANDSCAPE_WIDTH - CHAR_WIDTH * (t.len() as i32);
            draw_text(&mut d, t.as_slice(), x, 0);
        },
    }
    frame_buffer(&d)
}

/// What the display shows: an inbound message where there is one, else the
/// stopwatch readout.
pub open spec fn primary_text_of(state: StopwatchState, message: Option<Seq<u8>>) -> Seq<u8> {
    match message {
        Some(m) => m,
        None => clock_text_of(state.minutes as int),
    }
}

/// The frame for the appliance's state: stopwatch, inbound message if any,
/// last known battery percentage.
pub open spec fn state_frame_of(
    state: StopwatchState,
    message: Option<Seq<u8>>,
    percent: Option<u8>,
) -> Seq<u8> {
    frame_of(primary_text_of(state, message), percent)
}

/// Compose the frame for the appliance's state.
pub fn render_frame(state: &StopwatchState, message: Option<&[u8]>, percent: Option<u8>) -> (frame: Vec<u8>)
    requires
        message matches Some(m) ==> m@.len() <= MAX_TEXT_LEN,
    ensures
        frame@ == state_frame_of(
            *state,
            match message {
                Some(m) => Some(m@),
                None => None,
            },
            percent,
        ),
{
    match message {
        Some(m) => compose_frame(m, percent),
        None => {
            let text = clock_text(state.minutes);
            compose_frame(text.as_slice(), percent)
        },
    }
}

/// One render: read and clear the inbound message, compose the frame for it
/// (or for the stopwatch when there is none) with the last battery level, and
/// return the panel commands that show it: power-up, RAM window, the frame,
/// refresh.
pub fn render_commands(state: &StopwatchState, shared: &mut SharedState) -> (cmds: Vec<Command>)
    requires
        old(shared).wf(),
    ensures
        final(shared).wf(),
        final(shared)@ == (crate::shared::SharedView { inbound: None, ..old(shared)@ }),
        commands_view(cmds@) == render_sequence_spec(
            state_frame_of(*state, old(shared)@.inbound, old(shared)@.battery),
        ),
{
    let message = shared.take_message();
    let percent = shared.battery();
    let frame = match &message {
        Some(m) => {
            let bytes = m.bytes();
            render_frame(state, Some(bytes.as_slice()), percent)
        },
        None => render_frame(state, None, percent),
    };
    render_sequence(frame)
}

/// Rendering is a function of what is shown: two stopwatch states with the
/// same minute count, with the same message and battery level, give
/// byte-identical frames; in particular rendering an unchanged state twice
/// gives the same frame.
pub proof fn lemma_render_idempotent(
    s1: StopwatchState,
    s2: StopwatchState,
    message: Option<Seq<u8>>,
    percent: Option<u8>,
)
    requires
        s1.minutes == s2.minutes,
    ensures
        state_frame_of(s1, message, percent) == state_frame_of(s2, message, percent),
{
}

} // verus!
