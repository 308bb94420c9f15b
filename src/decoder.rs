use vstd::prelude::*;
use crate::wire::{wire_type, wire_code, wire_value, signed_value, split_event, to_signed};
use virtio_input_decoder::{DecodeType, Decoder, KeyType, Mouse};

verus! {

/// A device key, identified by its input-event code (the Linux key code).
#[derive(Clone, Copy, Debug, PartialEq, Eq, Structural)]
pub struct KeyCode {
    pub code: u16,
}

/// Whether a key went down or up.
#[derive(Clone, Copy, Debug, PartialEq, Eq, Structural)]
pub enum Transition {
    Press,
    Release,
}

/// An axis or wheel report.
#[derive(Clone, Copy, Debug, PartialEq, Eq, Structural)]
pub enum Axis {
    AbsoluteX(i32),
    AbsoluteY(i32),
    ScrollUp,
    ScrollDown,
}

/// One decoded device report.
#[derive(Clone, Copy, Debug, PartialEq, Eq, Structural)]
pub enum DecodedEvent {
    KeyEvent { key: KeyCode, transition: Transition },
    AxisEvent { axis: Axis },
}

/// What the outside decoder hands back, with its key as a code.
enum RawReport {
    Key(u16, bool),
    X(usize),
    Y(usize),
    ScrollUp,
    ScrollDown,
}

/// Key codes that the outside decoder recognises.
pub open spec fn known_key_code(code: int) -> bool {
    1 <= code <= 58 || 272 <= code <= 274
}

/// Axis and wheel reports that the outside decoder recognises.
pub open spec fn known_axis_report(code: int, value: int) -> bool {
    ||| code == 0
    ||| code == 1
    ||| code == 8 && (value == 1 || value == 0xffff_ffff)
    ||| (code == 0x150 || code == 0x151) && value == 0
}

/// The inputs on which the outside decoder returns instead of panicking.
pub open spec fn decoder_defined(etype: int, code: int, value: int) -> bool {
    &&& (etype == 2 || etype == 3) ==> known_axis_report(code, value)
    &&& (etype == 1 && code < 0x150) ==> known_key_code(code) && (value == 0 || value == 1)
}

/// The outside decoder's answer on a recognised axis or wheel report.
spec fn raw_axis(code: int, value: int) -> RawReport {
    if code == 8 && value == 1 || code == 0x151 && value == 0 {
        RawReport::ScrollUp
    } else if code == 8 && value == 0xffff_ffff || code == 0x150 && value == 0 {
        RawReport::ScrollDown
    } else if code == 0 {
        RawReport::X(value as usize)
    } else {
        RawReport::Y(value as usize)
    }
}

/// Relies on virtio_input_decoder::Decoder::decode: event types 2 and 3 are
/// axis and wheel reports, type 1 below code 0x150 a key whose enum
/// discriminant is its code (value 1 press, 0 release), anything else an error.
#[verifier::external_body]
fn decode_report(etype: usize, code: usize, value: usize) -> (r: Result<RawReport, ()>)
    requires
        decoder_defined(etype as int, code as int, value as int),
    ensures
        (etype == 2 || etype == 3) ==> r is Ok && r->Ok_0 == raw_axis(code as int, value as int),
        etype == 1 && code < 0x150 ==> r is Ok && r->Ok_0 == RawReport::Key(code as u16, value == 1),
        etype == 1 && code >= 0x150 ==> r is Err,
        !(1 <= etype <= 3) ==> r is Err,
{
    match Decoder::decode(etype, code, value) {
        Ok(DecodeType::Key(k, KeyType::Press)) => Ok(RawReport::Key(k as u16, true)),
        Ok(DecodeType::Key(k, KeyType::Release)) => Ok(RawReport::Key(k as u16, false)),
        Ok(DecodeType::Mouse(Mouse::X(v))) => Ok(RawReport::X(v)),
        Ok(DecodeType::Mouse(Mouse::Y(v))) => Ok(RawReport::Y(v)),
        Ok(DecodeType::Mouse(Mouse::ScrollUp)) => Ok(RawReport::ScrollUp),
        Ok(DecodeType::Mouse(Mouse::ScrollDown)) => Ok(RawReport::ScrollDown),
        Err(()) => Err(()),
    }
}

/// The transition that a key value stands for: any nonzero value is a press.
pub open spec fn transition_of(value: int) -> Transition {
    if value != 0 {
        Transition::Press
    } else {
        Transition::Release
    }
}

/// The decoded form of an encoded event, or `Err` for an unrecognised one.
pub open spec fn decode_spec(e: u64) -> Result<DecodedEvent, ()> {
    let t = wire_type(e);
    let c = wire_code(e);
    let v = wire_value(e);
    if t == 1 && c < 0x150 && known_key_code(c) {
        Ok(DecodedEvent::KeyEvent { key: KeyCode { code: c as u16 }, transition: transition_of(v) })
    } else if (t == 2 || t == 3) && known_axis_report(c, v) {
        let axis = if c == 8 && v == 1 || c == 0x151 && v == 0 {
            Axis::ScrollUp
        } else if c == 8 && v == 0xffff_ffff || c == 0x150 && v == 0 {
            Axis::ScrollDown
        } else if c == 0 {
            Axis::AbsoluteX(signed_value(e) as i32)
        } else {
            Axis::AbsoluteY(signed_value(e) as i32)
        };
        Ok(DecodedEvent::AxisEvent { axis })
    } else {
        Err(())
    }
}

/// Decodes an encoded event; an unrecognised discriminator, code or value
/// gives `Err`.
pub fn u64_to_decoder(event: u64) -> (r: Result<DecodedEvent, ()>)
    ensures
        r == decode_spec(event),
{
    let (dtype, code, raw) = split_event(event);
    let known = if dtype == 1 {
        code < 0x150 && (1 <= code && code <= 58 || 272 <= code && code <= 274)
    } else if dtype == 2 || dtype == 3 {
        code == 0 || code == 1 || code == 8 && (raw == 1 || raw == 0xffff_ffff)
            || (code == 0x150 || code == 0x151) && raw == 0
    } else {
        false
    };
    if !known {
        return Err(());
    }
    // A key value is handed over as press or release only.
    let value: u64 = if dtype == 1 && raw != 0 { 1 } else { raw };
    match decode_report(dtype as usize, code as usize, value as usize) {
        Ok(RawReport::Key(k, press)) => {
            let transition = if press { Transition::Press } else { Transition::Release };
            Ok(DecodedEvent::KeyEvent { key: KeyCode { code: k }, transition })
        },
        Ok(RawReport::X(v)) => {
            Ok(DecodedEvent::AxisEvent { axis: Axis::AbsoluteX(to_signed(v as u64)) })
        },
        Ok(RawReport::Y(v)) => {
            Ok(DecodedEvent::AxisEvent { axis: Axis::AbsoluteY(to_signed(v as u64)) })
        },
        Ok(RawReport::ScrollUp) => Ok(DecodedEvent::AxisEvent { axis: Axis::ScrollUp }),
        Ok(RawReport::ScrollDown) => Ok(DecodedEvent::AxisEvent { axis: Axis::ScrollDown }),
        Err(()) => Err(()),
    }
}

} // verus!
