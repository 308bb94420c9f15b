//! Conversion of virtio input events, packed into 64-bit words, into
//! pointer and keyboard events for a user interface, with the pointer
//! position tracked by the caller across calls.

mod wire;
mod decoder;
mod keymap;
mod converter;
mod lemmas;

pub use wire::{wire_type, wire_code, wire_value, signed_value, split_event, to_signed};
pub use decoder::{
    KeyCode, Transition, Axis, DecodedEvent, known_key_code, known_axis_report, decoder_defined,
    transition_of, decode_spec, u64_to_decoder,
};
pub use keymap::{NamedKey, KeyToken, special_of, key2special};
pub use converter::{PointerButton, Position, InputEvent, Converter, button_of, event_for, conversion};
pub use lemmas::{
    lemma_unknown_type_gives_nothing, lemma_undecodable_gives_nothing, lemma_unmapped_key_gives_nothing,
    lemma_absolute_x_sets_cursor, lemma_key_keeps_cursor, lemma_scroll_sign,
};
