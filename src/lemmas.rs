use vstd::prelude::*;
use crate::wire::{wire_type, wire_code, wire_value, signed_value};
use crate::decoder::{Axis, DecodedEvent, KeyCode, Transition, decode_spec};
use crate::keymap::special_of;
use crate::converter::{InputEvent, Position, button_of, conversion, event_for};

verus! {

/// An event whose discriminator is neither a key nor an axis report gives no
/// event and leaves the cursor alone.
pub proof fn lemma_unknown_type_gives_nothing(e: u64, x: isize, y: isize)
    requires
        !(1 <= wire_type(e) <= 3),
    ensures
        conversion(e, x, y) == (None::<InputEvent>, x, y),
{
}

/// Any event that does not decode gives no event and leaves the cursor alone.
pub proof fn lemma_undecodable_gives_nothing(e: u64, x: isize, y: isize)
    requires
        decode_spec(e) is Err,
    ensures
        conversion(e, x, y) == (None::<InputEvent>, x, y),
{
}

/// A key that is neither a pointer button nor has a token gives no event,
/// pressed or released, whether it comes decoded or encoded.
pub proof fn lemma_unmapped_key_gives_nothing(k: KeyCode, t: Transition, e: u64, x: isize, y: isize)
    requires
        button_of(k.code) is None,
        special_of(k.code) is None,
    ensures
        event_for(DecodedEvent::KeyEvent { key: k, transition: t }, x, y) == (None::<InputEvent>, x, y),
        wire_type(e) == 1 && wire_code(e) == k.code ==> conversion(e, x, y) == (None::<InputEvent>, x, y),
{
}

/// An absolute-X report of value `v` sets the cursor's x to `v`, keeps its y,
/// and moves the pointer there.
pub proof fn lemma_absolute_x_sets_cursor(e: u64, x: isize, y: isize)
    requires
        wire_type(e) == 2 || wire_type(e) == 3,
        wire_code(e) == 0,
    ensures
        conversion(e, x, y) == (
            Some(InputEvent::PointerMoved { position: Position { x: signed_value(e) as isize, y } }),
            signed_value(e) as isize,
            y,
        ),
        conversion(e, x, y).1 == signed_value(e),
{
}

/// A key event, a pointer button included, never moves the cursor; a button
/// press is reported at the cursor.
pub proof fn lemma_key_keeps_cursor(e: u64, x: isize, y: isize)
    requires
        wire_type(e) == 1,
    ensures
        conversion(e, x, y).1 == x,
        conversion(e, x, y).2 == y,
        decode_spec(e) is Ok && wire_value(e) != 0 && button_of(wire_code(e) as u16) is Some
            ==> conversion(e, x, y).0 == Some(
            InputEvent::PointerPressed {
                position: Position { x, y },
                button: button_of(wire_code(e) as u16)->Some_0,
            },
        ),
{
}

/// Scrolling down gives a vertical delta of 1, scrolling up of -1, and
/// neither a horizontal one nor a cursor move.
pub proof fn lemma_scroll_sign(e: u64, x: isize, y: isize)
    ensures
        decode_spec(e) == Ok::<DecodedEvent, ()>(DecodedEvent::AxisEvent { axis: Axis::ScrollDown })
            ==> conversion(e, x, y) == (
            Some(InputEvent::PointerScrolled { position: Position { x, y }, delta_x: 0, delta_y: 1 }),
            x,
            y,
        ),
        decode_spec(e) == Ok::<DecodedEvent, ()>(DecodedEvent::AxisEvent { axis: Axis::ScrollUp })
            ==> conversion(e, x, y) == (
            Some(InputEvent::PointerScrolled { position: Position { x, y }, delta_x: 0, delta_y: -1i32 }),
            x,
            y,
        ),
{
}

} // verus!
