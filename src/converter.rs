use vstd::prelude::*;
use crate::decoder::{Axis, DecodedEvent, KeyCode, Transition, decode_spec, u64_to_decoder};
use crate::keymap::{KeyToken, key2special, special_of};

verus! {

/// A pointer button, as a user interface names it.
#[derive(Clone, Copy, Debug, PartialEq, Eq, Structural)]
pub enum PointerButton {
    Left,
    Middle,
    Right,
    Other,
}

/// A pointer position in the device's virtual coordinates; the surface
/// position is `x * x_res / virtual_range`, `y * y_res / virtual_range`.
#[derive(Clone, Copy, Debug, PartialEq, Eq, Structural)]
pub struct Position {
    pub x: isize,
    pub y: isize,
}

/// A pointer or keyboard event for a user interface.
#[derive(Clone, Copy, Debug, PartialEq, Eq, Structural)]
pub enum InputEvent {
    PointerPressed { position: Position, button: PointerButton },
    PointerReleased { position: Position, button: PointerButton },
    PointerMoved { position: Position },
    PointerScrolled { position: Position, delta_x: i32, delta_y: i32 },
    KeyPressed { text: KeyToken },
    KeyReleased { text: KeyToken },
}

/// Converts decoded device reports into user-interface events, given the
/// device's virtual coordinate range and the target surface's resolution.
pub struct Converter {
    x_res: isize,
    y_res: isize,
    virtual_range: isize,
}

/// The pointer button that a key code stands for, if any.
pub open spec fn button_of(code: u16) -> Option<PointerButton> {
    match code {
        272 => Some(PointerButton::Left),
        274 => Some(PointerButton::Middle),
        273 => Some(PointerButton::Right),
        0x150 | 0x151 => Some(PointerButton::Other),
        _ => None,
    }
}

/// The event that a decoded report gives with the cursor at `(x, y)`, and
/// the cursor after it.
pub open spec fn event_for(d: DecodedEvent, x: isize, y: isize) -> (Option<InputEvent>, isize, isize) {
    match d {
        DecodedEvent::KeyEvent { key, transition } => {
            let position = Position { x, y };
            let event = match button_of(key.code) {
                Some(button) => match transition {
                    Transition::Press => Some(InputEvent::PointerPressed { position, button }),
                    Transition::Release => Some(InputEvent::PointerReleased { position, button }),
                },
                None => match special_of(key.code) {
                    Some(text) => match transition {
                        Transition::Press => Some(InputEvent::KeyPressed { text }),
                        Transition::Release => Some(InputEvent::KeyReleased { text }),
                    },
                    None => None,
                },
            };
            (event, x, y)
        },
        DecodedEvent::AxisEvent { axis } => match axis {
            Axis::AbsoluteX(v) => (
                Some(InputEvent::PointerMoved { position: Position { x: v as isize, y } }),
                v as isize,
                y,
            ),
            Axis::AbsoluteY(v) => (
                Some(InputEvent::PointerMoved { position: Position { x, y: v as isize } }),
                x,
                v as isize,
            ),
            Axis::ScrollDown => (
                Some(InputEvent::PointerScrolled { position: Position { x, y }, delta_x: 0, delta_y: 1 }),
                x,
                y,
            ),
            Axis::ScrollUp => (
                Some(InputEvent::PointerScrolled { position: Position { x, y }, delta_x: 0, delta_y: -1i32 }),
                x,
                y,
            ),
        },
    }
}

/// The event that an encoded event gives with the cursor at `(x, y)`, and the
/// cursor after it; an unrecognised event gives nothing and keeps the cursor.
pub open spec fn conversion(e: u64, x: isize, y: isize) -> (Option<InputEvent>, isize, isize) {
    match decode_spec(e) {
        Ok(d) => event_for(d, x, y),
        Err(_) => (None, x, y),
    }
}

impl Converter {
    pub closed spec fn spec_virtual_range(&self) -> int {
        self.virtual_range as int
    }

    pub closed spec fn spec_x_res(&self) -> int {
        self.x_res as int
    }

    pub closed spec fn spec_y_res(&self) -> int {
        self.y_res as int
    }

    /// Creates a converter for a device whose absolute axes reach
    /// `virtual_range`, onto a surface of `x_res` by `y_res` pixels. The range
    /// divides in scaling, so a useful converter has it nonzero.
    pub fn new(virtual_range: isize, x_res: isize, y_res: isize) -> (r: Self)
        ensures
            r.spec_virtual_range() == virtual_range,
            r.spec_x_res() == x_res,
            r.spec_y_res() == y_res,
    {
        Self { x_res, y_res, virtual_range }
    }

    /// The device's virtual coordinate range.
    pub fn virtual_range(&self) -> (r: isize)
        ensures
            r == self.spec_virtual_range(),
    {
        self.virtual_range
    }

    /// The surface's horizontal resolution.
    pub fn x_res(&self) -> (r: isize)
        ensures
            r == self.spec_x_res(),
    {
        self.x_res
    }

    /// The surface's vertical resolution.
    pub fn y_res(&self) -> (r: isize)
        ensures
            r == self.spec_y_res(),
    {
        self.y_res
    }

    /// Converts an encoded event, updating the cursor `(cx, cy)` on an
    /// absolute axis report; `None` for an unrecognised event or a key
    /// without a token.
    pub fn convert(&self, event: u64, cx: &mut isize, cy: &mut isize) -> (r: Option<InputEvent>)
        ensures
            (r, *final(cx), *final(cy)) == conversion(event, *old(cx), *old(cy)),
    {
        let decoded = match u64_to_decoder(event) {
            Ok(d) => d,
            Err(()) => return None,
        };
        match decoded {
            DecodedEvent::KeyEvent { key, transition } => {
                let button = match key.code {
                    272 => PointerButton::Left,
                    274 => PointerButton::Middle,
                    273 => PointerButton::Right,
                    0x150 | 0x151 => PointerButton::Other,
                    _ => {
                        let text = match key2special(key) {
                            Some(t) => t,
                            None => return None,
                        };
                        return match transition {
                            Transition::Press => Some(InputEvent::KeyPressed { text }),
                            Transition::Release => Some(InputEvent::KeyReleased { text }),
                        };
                    },
                };
                let position = Position { x: *cx, y: *cy };
                match transition {
                    Transition::Press => Some(InputEvent::PointerPressed { position, button }),
                    Transition::Release => Some(InputEvent::PointerReleased { position, button }),
                }
            },
            DecodedEvent::AxisEvent { axis } => match axis {
                Axis::AbsoluteX(v) => {
                    *cx = v as isize;
                    Some(InputEvent::PointerMoved { position: Position { x: *cx, y: *cy } })
                },
                Axis::AbsoluteY(v) => {
                    *cy = v as isize;
                    Some(InputEvent::PointerMoved { position: Position { x: *cx, y: *cy } })
                },
                Axis::ScrollDown => {
                    let position = Position { x: *cx, y: *cy };
                    Some(InputEvent::PointerScrolled { position, delta_x: 0, delta_y: 1 })
                },
                Axis::ScrollUp => {
                    let position = Position { x: *cx, y: *cy };
                    Some(InputEvent::PointerScrolled { position, delta_x: 0, delta_y: -1 })
                },
            },
        }
    }
}

} // verus!
