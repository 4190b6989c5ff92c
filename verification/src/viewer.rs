//! The viewer's decisions: the size of its window, what it forwards to the host for
//! each window event, and the frame rate it shows.

use vstd::prelude::*;
use crate::decimal::{decimal, decimal_string};
use crate::flags::{
    KEYEVENTF_KEYUP, KEYEVENTF_SCANCODE, MOUSEEVENTF_LEFTDOWN, MOUSEEVENTF_LEFTUP,
    MOUSEEVENTF_MIDDLEDOWN, MOUSEEVENTF_MIDDLEUP, MOUSEEVENTF_MOVE, MOUSEEVENTF_RIGHTDOWN,
    MOUSEEVENTF_RIGHTUP, MOUSEEVENTF_WHEEL,
};

verus! {

/// The window size for a stream of `width` × `height` that the host downscaled by
/// `downscale` percent: the stream's own size when it was not downscaled, else the size
/// scaled back up by `100 / (100 - downscale)`, rounded down.
pub open spec fn display_size_of(width: u32, height: u32, downscale: u32) -> (u32, u32) {
    if downscale == 0 {
        (width, height)
    } else {
        (((width * 100) / (100 - downscale as int)) as u32, ((height * 100) / (100 - downscale as int)) as u32)
    }
}

/// Whether [`display_size`] can compute without overflow or division by zero.
pub open spec fn display_size_defined(width: u32, height: u32, downscale: u32) -> bool {
    downscale == 0 || (downscale < 100 && width * 100 <= u32::MAX && height * 100 <= u32::MAX)
}

/// The viewer's window size for the stream the host announced.
pub fn display_size(width: u32, height: u32, downscale: u32) -> (size: (u32, u32))
    requires
        display_size_defined(width, height, downscale),
    ensures
        size == display_size_of(width, height, downscale),
{
    if downscale == 0 {
        (width, height)
    } else {
        let down = 100 - downscale;
        ((width * 100) / down, (height * 100) / down)
    }
}

/// A mouse button as the window reports it.
#[derive(Debug, Clone, Copy, PartialEq, Eq)]
pub enum MouseButton {
    Left,
    Right,
    Middle,
    Other(u16),
}

/// The window events that the viewer forwards or acts on.
#[derive(Debug, Clone, Copy, PartialEq, Eq)]
pub enum ViewerEvent {
    /// The cursor moved to this position, already scaled to the stream's size.
    CursorMoved { x: i16, y: i16 },
    /// A key was pressed or released.
    Key { pressed: bool, scancode: u32 },
    /// A mouse button was pressed or released.
    Button { pressed: bool, button: MouseButton },
    /// The wheel turned by whole lines.
    WheelLines { lines: i8 },
    /// Any other event.
    Other,
}

/// What the viewer sends to the host for one event.
#[derive(Debug, Clone, Copy, PartialEq, Eq)]
pub enum ForwardAction {
    /// A mouse message.
    Mouse { state: u32, x: i16, y: i16, data: u32 },
    /// A keyboard message.
    Keyboard { keyboard_state: u16, keyscan: u16 },
    /// Nothing.
    Nothing,
}

/// Forwards window input to the host: remembers where the cursor was last forwarded,
/// and whether cursor moves are forwarded at all (the fourth mouse button toggles it).
pub struct InputForwarder {
    forward_moves: bool,
    cursor_x: i16,
    cursor_y: i16,
}

/// The abstract state of an [`InputForwarder`].
pub struct ForwarderView {
    pub forward_moves: bool,
    pub cursor_x: i16,
    pub cursor_y: i16,
}

impl View for InputForwarder {
    type V = ForwarderView;

    closed spec fn view(&self) -> ForwarderView {
        ForwarderView { forward_moves: self.forward_moves, cursor_x: self.cursor_x, cursor_y: self.cursor_y }
    }
}

/// A mouse message at the remembered cursor.
pub open spec fn mouse_at_cursor(s: ForwarderView, state: u32, data: u32) -> ForwardAction {
    ForwardAction::Mouse { state, x: s.cursor_x, y: s.cursor_y, data }
}

/// The button that toggles the forwarding of cursor moves.
pub open spec fn is_toggle_button(button: MouseButton) -> bool {
    button matches MouseButton::Other(n) && n == 2
}

/// One step of the forwarder: its new state and what it sends.
pub open spec fn forward_step(s: ForwarderView, e: ViewerEvent) -> (ForwarderView, ForwardAction) {
    match e {
        ViewerEvent::CursorMoved { x, y } => if s.forward_moves {
            (
                ForwarderView { forward_moves: true, cursor_x: x, cursor_y: y },
                ForwardAction::Mouse { state: MOUSEEVENTF_MOVE, x, y, data: 0 },
            )
        } else {
            (s, ForwardAction::Nothing)
        },
        ViewerEvent::Key { pressed, scancode } => (
            s,
            ForwardAction::Keyboard {
                keyboard_state: if pressed {
                    KEYEVENTF_SCANCODE as u16
                } else {
                    (KEYEVENTF_SCANCODE | KEYEVENTF_KEYUP) as u16
                },
                keyscan: scancode as u16,
            },
        ),
        ViewerEvent::Button { pressed, button } => match button {
            MouseButton::Left => (
                s,
                mouse_at_cursor(s, if pressed { MOUSEEVENTF_LEFTDOWN } else { MOUSEEVENTF_LEFTUP }, 0),
            ),
            MouseButton::Right => (
                s,
                mouse_at_cursor(s, if pressed { MOUSEEVENTF_RIGHTDOWN } else { MOUSEEVENTF_RIGHTUP }, 0),
            ),
            MouseButton::Middle => (
                s,
                mouse_at_cursor(
                    s,
                    if pressed { MOUSEEVENTF_MIDDLEDOWN } else { MOUSEEVENTF_MIDDLEUP },
                    0,
                ),
            ),
            MouseButton::Other(n) => if pressed && n == 2 {
                (
                    ForwarderView { forward_moves: !s.forward_moves, cursor_x: s.cursor_x, cursor_y: s.cursor_y },
                    ForwardAction::Nothing,
                )
            } else {
                (s, ForwardAction::Nothing)
            },
        },
        ViewerEvent::WheelLines { lines } => (s, mouse_at_cursor(s, MOUSEEVENTF_WHEEL, lines as u32)),
        ViewerEvent::Other => (s, ForwardAction::Nothing),
    }
}

impl InputForwarder {
    /// A forwarder that forwards cursor moves, with the cursor at the origin.
    pub fn new() -> (f: InputForwarder)
        ensures
            f@ == (ForwarderView { forward_moves: true, cursor_x: 0, cursor_y: 0 }),
    {
        InputForwarder { forward_moves: true, cursor_x: 0, cursor_y: 0 }
    }

    /// Whether cursor moves are forwarded.
    pub fn forwards_moves(&self) -> (on: bool)
        ensures
            on == self@.forward_moves,
    {
        self.forward_moves
    }

    /// Takes one window event: updates the state and says what to send.
    pub fn step(&mut self, event: ViewerEvent) -> (action: ForwardAction)
        ensures
            (final(self)@, action) == forward_step(old(self)@, event),
    {
        match event {
            ViewerEvent::CursorMoved { x, y } => {
                if self.forward_moves {
                    self.cursor_x = x;
                    self.cursor_y = y;
                    ForwardAction::Mouse { state: MOUSEEVENTF_MOVE, x, y, data: 0 }
                } else {
                    ForwardAction::Nothing
                }
            },
            ViewerEvent::Key { pressed, scancode } => {
                let keyboard_state = if pressed {
                    KEYEVENTF_SCANCODE as u16
                } else {
                    (KEYEVENTF_SCANCODE | KEYEVENTF_KEYUP) as u16
                };
                ForwardAction::Keyboard { keyboard_state, keyscan: scancode as u16 }
            },
            ViewerEvent::Button { pressed, button } => {
                let state = match button {
                    MouseButton::Left => if pressed {
                        MOUSEEVENTF_LEFTDOWN
                    } else {
                        MOUSEEVENTF_LEFTUP
                    },
                    MouseButton::Right => if pressed {
                        MOUSEEVENTF_RIGHTDOWN
                    } else {
                        MOUSEEVENTF_RIGHTUP
                    },
                    MouseButton::Middle => if pressed {
                        MOUSEEVENTF_MIDDLEDOWN
                    } else {
                        MOUSEEVENTF_MIDDLEUP
                    },
                    MouseButton::Other(n) => {
                        if pressed && n == 2 {
                            self.forward_moves = !self.forward_moves;
                        }
                        return ForwardAction::Nothing;
                    },
                };
                ForwardAction::Mouse { state, x: self.cursor_x, y: self.cursor_y, data: 0 }
            },
            ViewerEvent::WheelLines { lines } => ForwardAction::Mouse {
                state: MOUSEEVENTF_WHEEL,
                x: self.cursor_x,
                y: self.cursor_y,
                data: lines as u32,
            },
            ViewerEvent::Other => ForwardAction::Nothing,
        }
    }
}

/// Counts presented frames and, once a second's worth of frame time has gone by, keeps
/// how many frames it took as the rate to show.
pub struct FrameStats {
    frames: i32,
    total_micros: i128,
    frames_per_second: i32,
}

/// The abstract state of a [`FrameStats`].
pub struct FrameStatsView {
    pub frames: i32,
    pub total_micros: i128,
    pub frames_per_second: i32,
}

impl View for FrameStats {
    type V = FrameStatsView;

    closed spec fn view(&self) -> FrameStatsView {
        FrameStatsView {
            frames: self.frames,
            total_micros: self.total_micros,
            frames_per_second: self.frames_per_second,
        }
    }
}

/// The length of the measuring window, in microseconds.
pub const MEASURE_WINDOW_MICROS: i128 = 1_000_000;

/// The counter at the start of an event: a full window closes and its count is kept.
pub open spec fn stats_at_event(s: FrameStatsView) -> FrameStatsView {
    if s.total_micros >= MEASURE_WINDOW_MICROS {
        FrameStatsView { frames: 0, total_micros: 0, frames_per_second: s.frames }
    } else {
        s
    }
}

/// The counter after a frame that took `elapsed_micros`.
pub open spec fn stats_after_frame(s: FrameStatsView, elapsed_micros: u128) -> FrameStatsView {
    FrameStatsView {
        frames: (s.frames + 1) as i32,
        total_micros: (s.total_micros + elapsed_micros as i128) as i128,
        frames_per_second: s.frames_per_second,
    }
}

/// Whether a frame that took `elapsed_micros` can be counted without overflow.
pub open spec fn frame_countable(s: FrameStatsView, elapsed_micros: u128) -> bool {
    &&& s.frames < i32::MAX
    &&& i128::MIN <= s.total_micros + elapsed_micros as i128 <= i128::MAX
}

impl FrameStats {
    /// A counter with nothing counted and no rate yet.
    pub fn new() -> (s: FrameStats)
        ensures
            s@ == (FrameStatsView { frames: 0, total_micros: 0, frames_per_second: 0 }),
    {
        FrameStats { frames: 0, total_micros: 0, frames_per_second: 0 }
    }

    /// Called at the start of every event of the window's loop.
    pub fn begin_event(&mut self)
        ensures
            final(self)@ == stats_at_event(old(self)@),
    {
        if self.total_micros >= MEASURE_WINDOW_MICROS {
            self.frames_per_second = self.frames;
            self.total_micros = 0;
            self.frames = 0;
        }
    }

    /// Counts one presented frame that took `elapsed_micros`.
    pub fn frame_presented(&mut self, elapsed_micros: u128)
        requires
            frame_countable(old(self)@, elapsed_micros),
        ensures
            final(self)@ == stats_after_frame(old(self)@, elapsed_micros),
    {
        self.total_micros = self.total_micros + elapsed_micros as i128;
        self.frames = self.frames + 1;
    }

    /// Whether a frame that took `elapsed_micros` can be counted without overflow.
    pub fn can_count(&self, elapsed_micros: u128) -> (ok: bool)
        ensures
            ok == frame_countable(self@, elapsed_micros),
    {
        let elapsed: i128 = elapsed_micros as i128;
        if self.frames == i32::MAX {
            false
        } else if elapsed >= 0 {
            self.total_micros <= i128::MAX - elapsed
        } else {
            self.total_micros >= i128::MIN - elapsed
        }
    }

    /// The rate to show, as decimal text, once one has been measured.
    pub fn rate_text(&self) -> (text: Option<String>)
        ensures
            self@.frames_per_second == 0 ==> text is None,
            self@.frames_per_second != 0 ==> (text matches Some(t) && t@ == decimal(
                self@.frames_per_second as int,
            )),
    {
        if self.frames_per_second != 0 {
            Some(decimal_string(self.frames_per_second as i128))
        } else {
            None
        }
    }
}

} // verus!
