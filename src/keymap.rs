use vstd::prelude::*;
use crate::decoder::KeyCode;

verus! {

/// A control key that has no printable character.
#[derive(Clone, Copy, Debug, PartialEq, Eq, Structural)]
pub enum NamedKey {
    Escape,
    Backspace,
    Tab,
    Return,
    Control,
    Shift,
    ShiftR,
    Alt,
    CapsLock,
}

/// A portable key: a printable character or a named control key.
#[derive(Clone, Copy, Debug, PartialEq, Eq, Structural)]
pub enum KeyToken {
    Char(char),
    Named(NamedKey),
}

/// The token of each key of the US layout that has one, by key code.
pub open spec fn special_of(code: u16) -> Option<KeyToken> {
    match code {
        1 => Some(KeyToken::Named(NamedKey::Escape)),
        14 => Some(KeyToken::Named(NamedKey::Backspace)),
        15 => Some(KeyToken::Named(NamedKey::Tab)),
        28 => Some(KeyToken::Named(NamedKey::Return)),
        29 => Some(KeyToken::Named(NamedKey::Control)),
        42 => Some(KeyToken::Named(NamedKey::Shift)),
        54 => Some(KeyToken::Named(NamedKey::ShiftR)),
        56 => Some(KeyToken::Named(NamedKey::Alt)),
        58 => Some(KeyToken::Named(NamedKey::CapsLock)),
        30 => Some(KeyToken::Char('a')),
        48 => Some(KeyToken::Char('b')),
        46 => Some(KeyToken::Char('c')),
        32 => Some(KeyToken::Char('d')),
        18 => Some(KeyToken::Char('e')),
        33 => Some(KeyToken::Char('f')),
        34 => Some(KeyToken::Char('g')),
        35 => Some(KeyToken::Char('h')),
        23 => Some(KeyToken::Char('i')),
        36 => Some(KeyToken::Char('j')),
        37 => Some(KeyToken::Char('k')),
        38 => Some(KeyToken::Char('l')),
        50 => Some(KeyToken::Char('m')),
        49 => Some(KeyToken::Char('n')),
        24 => Some(KeyToken::Char('o')),
        25 => Some(KeyToken::Char('p')),
        16 => Some(KeyToken::Char('q')),
        19 => Some(KeyToken::Char('r')),
        31 => Some(KeyToken::Char('s')),
        20 => Some(KeyToken::Char('t')),
        22 => Some(KeyToken::Char('u')),
        47 => Some(KeyToken::Char('v')),
        17 => Some(KeyToken::Char('w')),
        45 => Some(KeyToken::Char('x')),
        21 => Some(KeyToken::Char('y')),
        44 => Some(KeyToken::Char('z')),
        11 => Some(KeyToken::Char('0')),
        2 => Some(KeyToken::Char('1')),
        3 => Some(KeyToken::Char('2')),
        4 => Some(KeyToken::Char('3')),
        5 => Some(KeyToken::Char('4')),
        6 => Some(KeyToken::Char('5')),
        7 => Some(KeyToken::Char('6')),
        8 => Some(KeyToken::Char('7')),
        9 => Some(KeyToken::Char('8')),
        10 => Some(KeyToken::Char('9')),
        57 => Some(KeyToken::Char(' ')),
        12 => Some(KeyToken::Char('-')),
        13 => Some(KeyToken::Char('=')),
        43 => Some(KeyToken::Char('\\')),
        39 => Some(KeyToken::Char(';')),
        51 => Some(KeyToken::Char(',')),
        52 => Some(KeyToken::Char('.')),
        40 => Some(KeyToken::Char('\'')),
        53 => Some(KeyToken::Char('/')),
        _ => None,
    }
}

/// Maps a keyboard key to its token; `None` for a key without one, which is
/// then dropped.
pub fn key2special(key: KeyCode) -> (r: Option<KeyToken>)
    ensures
        r == special_of(key.code),
{
    match key.code {
        1 => Some(KeyToken::Named(NamedKey::Escape)),
        14 => Some(KeyToken::Named(NamedKey::Backspace)),
        15 => Some(KeyToken::Named(NamedKey::Tab)),
        28 => Some(KeyToken::Named(NamedKey::Return)),
        29 => Some(KeyToken::Named(NamedKey::Control)),
        42 => Some(KeyToken::Named(NamedKey::Shift)),
        54 => Some(KeyToken::Named(NamedKey::ShiftR)),
        56 => Some(KeyToken::Named(NamedKey::Alt)),
        58 => Some(KeyToken::Named(NamedKey::CapsLock)),
        30 => Some(KeyToken::Char('a')),
        48 => Some(KeyToken::Char('b')),
        46 => Some(KeyToken::Char('c')),
        32 => Some(KeyToken::Char('d')),
        18 => Some(KeyToken::Char('e')),
        33 => Some(KeyToken::Char('f')),
        34 => Some(KeyToken::Char('g')),
        35 => Some(KeyToken::Char('h')),
        23 => Some(KeyToken::Char('i')),
        36 => Some(KeyToken::Char('j')),
        37 => Some(KeyToken::Char('k')),
        38 => Some(KeyToken::Char('l')),
        50 => Some(KeyToken::Char('m')),
        49 => Some(KeyToken::Char('n')),
        24 => Some(KeyToken::Char('o')),
        25 => Some(KeyToken::Char('p')),
        16 => Some(KeyToken::Char('q')),
        19 => Some(KeyToken::Char('r')),
        31 => Some(KeyToken::Char('s')),
        20 => Some(KeyToken::Char('t')),
        22 => Some(KeyToken::Char('u')),
        47 => Some(KeyToken::Char('v')),
        17 => Some(KeyToken::Char('w')),
        45 => Some(KeyToken::Char('x')),
        21 => Some(KeyToken::Char('y')),
        44 => Some(KeyToken::Char('z')),
        11 => Some(KeyToken::Char('0')),
        2 => Some(KeyToken::Char('1')),
        3 => Some(KeyToken::Char('2')),
        4 => Some(KeyToken::Char('3')),
        5 => Some(KeyToken::Char('4')),
        6 => Some(KeyToken::Char('5')),
        7 => Some(KeyToken::Char('6')),
        8 => Some(KeyToken::Char('7')),
        9 => Some(KeyToken::Char('8')),
        10 => Some(KeyToken::Char('9')),
        57 => Some(KeyToken::Char(' ')),
        12 => Some(KeyToken::Char('-')),
        13 => Some(KeyToken::Char('=')),
        43 => Some(KeyToken::Char('\\')),
        39 => Some(KeyToken::Char(';')),
        51 => Some(KeyToken::Char(',')),
        52 => Some(KeyToken::Char('.')),
        40 => Some(KeyToken::Char('\'')),
        53 => Some(KeyToken::Char('/')),
        _ => None,
    }
}

} // verus!
