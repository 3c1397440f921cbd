//! Keys and mouse buttons: the codes that input events travel under, the
//! keys a primary replays for them, and what it does with each input message.

use vstd::prelude::*;
use crate::protocol::Message;

verus! {

/// A key as the input listener reports it.
#[derive(Debug, Clone, Copy, PartialEq, Eq, Structural)]
pub enum PhysicalKey {
    Alt,
    AltGr,
    Backspace,
    CapsLock,
    ControlLeft,
    ControlRight,
    Delete,
    DownArrow,
    End,
    Escape,
    F1,
    F2,
    F3,
    F4,
    F5,
    F6,
    F7,
    F8,
    F9,
    F10,
    F11,
    F12,
    Home,
    LeftArrow,
    MetaLeft,
    MetaRight,
    PageDown,
    PageUp,
    Return,
    RightArrow,
    ShiftLeft,
    ShiftRight,
    Space,
    Tab,
    UpArrow,
    PrintScreen,
    ScrollLock,
    Pause,
    NumLock,
    BackQuote,
    Num1,
    Num2,
    Num3,
    Num4,
    Num5,
    Num6,
    Num7,
    Num8,
    Num9,
    Num0,
    Minus,
    Equal,
    KeyQ,
    KeyW,
    KeyE,
    KeyR,
    KeyT,
    KeyY,
    KeyU,
    KeyI,
    KeyO,
    KeyP,
    LeftBracket,
    RightBracket,
    KeyA,
    KeyS,
    KeyD,
    KeyF,
    KeyG,
    KeyH,
    KeyJ,
    KeyK,
    KeyL,
    SemiColon,
    Quote,
    BackSlash,
    KeyZ,
    KeyX,
    KeyC,
    KeyV,
    KeyB,
    KeyN,
    KeyM,
    Comma,
    Dot,
    Slash,
    Insert,
    IntlBackslash,
    /// A key the listener reports by its platform code.
    Unknown(u32),
    /// Any other key.
    Other,
}

/// The code a key travels under: its number in the table below, `1000` plus
/// the platform code for keys reported by code, and `999` for any other.
pub open spec fn key_code_of(k: PhysicalKey) -> int {
    match k {
        PhysicalKey::Alt => 1,
        PhysicalKey::AltGr => 2,
        PhysicalKey::Backspace => 3,
        PhysicalKey::CapsLock => 4,
        PhysicalKey::ControlLeft => 5,
        PhysicalKey::ControlRight => 6,
        PhysicalKey::Delete => 7,
        PhysicalKey::DownArrow => 8,
        PhysicalKey::End => 9,
        PhysicalKey::Escape => 10,
        PhysicalKey::F1 => 11,
        PhysicalKey::F2 => 12,
        PhysicalKey::F3 => 13,
        PhysicalKey::F4 => 14,
        PhysicalKey::F5 => 15,
        PhysicalKey::F6 => 16,
        PhysicalKey::F7 => 17,
        PhysicalKey::F8 => 18,
        PhysicalKey::F9 => 19,
        PhysicalKey::F10 => 20,
        PhysicalKey::F11 => 21,
        PhysicalKey::F12 => 22,
        PhysicalKey::Home => 23,
        PhysicalKey::LeftArrow => 24,
        PhysicalKey::MetaLeft => 25,
        PhysicalKey::MetaRight => 26,
        PhysicalKey::PageDown => 27,
        PhysicalKey::PageUp => 28,
        PhysicalKey::Return => 29,
        PhysicalKey::RightArrow => 30,
        PhysicalKey::ShiftLeft => 31,
        PhysicalKey::ShiftRight => 32,
        PhysicalKey::Space => 33,
        PhysicalKey::Tab => 34,
        PhysicalKey::UpArrow => 35,
        PhysicalKey::PrintScreen => 36,
        PhysicalKey::ScrollLock => 37,
        PhysicalKey::Pause => 38,
        PhysicalKey::NumLock => 39,
        PhysicalKey::BackQuote => 40,
        PhysicalKey::Num1 => 41,
        PhysicalKey::Num2 => 42,
        PhysicalKey::Num3 => 43,
        PhysicalKey::Num4 => 44,
        PhysicalKey::Num5 => 45,
        PhysicalKey::Num6 => 46,
        PhysicalKey::Num7 => 47,
        PhysicalKey::Num8 => 48,
        PhysicalKey::Num9 => 49,
        PhysicalKey::Num0 => 50,
        PhysicalKey::Minus => 51,
        PhysicalKey::Equal => 52,
        PhysicalKey::KeyQ => 53,
        PhysicalKey::KeyW => 54,
        PhysicalKey::KeyE => 55,
        PhysicalKey::KeyR => 56,
        PhysicalKey::KeyT => 57,
        PhysicalKey::KeyY => 58,
        PhysicalKey::KeyU => 59,
        PhysicalKey::KeyI => 60,
        PhysicalKey::KeyO => 61,
        PhysicalKey::KeyP => 62,
        PhysicalKey::LeftBracket => 63,
        PhysicalKey::RightBracket => 64,
        PhysicalKey::KeyA => 65,
        PhysicalKey::KeyS => 66,
        PhysicalKey::KeyD => 67,
        PhysicalKey::KeyF => 68,
        PhysicalKey::KeyG => 69,
        PhysicalKey::KeyH => 70,
        PhysicalKey::KeyJ => 71,
        PhysicalKey::KeyK => 72,
        PhysicalKey::KeyL => 73,
        PhysicalKey::SemiColon => 74,
        PhysicalKey::Quote => 75,
        PhysicalKey::BackSlash => 76,
        PhysicalKey::KeyZ => 77,
        PhysicalKey::KeyX => 78,
        PhysicalKey::KeyC => 79,
        PhysicalKey::KeyV => 80,
        PhysicalKey::KeyB => 81,
        PhysicalKey::KeyN => 82,
        PhysicalKey::KeyM => 83,
        PhysicalKey::Comma => 84,
        PhysicalKey::Dot => 85,
        PhysicalKey::Slash => 86,
        PhysicalKey::Insert => 87,
        PhysicalKey::IntlBackslash => 88,
        PhysicalKey::Unknown(c) => 1000 + c,
        PhysicalKey::Other => 999,
    }
}

/// The code a key travels under.
pub fn key_code(k: PhysicalKey) -> (r: u32)
    requires
        k matches PhysicalKey::Unknown(c) ==> c <= u32::MAX - 1000,
    ensures
        r == key_code_of(k),
{
    match k {
        PhysicalKey::Alt => 1,
        PhysicalKey::AltGr => 2,
        PhysicalKey::Backspace => 3,
        PhysicalKey::CapsLock => 4,
        PhysicalKey::ControlLeft => 5,
        PhysicalKey::ControlRight => 6,
        PhysicalKey::Delete => 7,
        PhysicalKey::DownArrow => 8,
        PhysicalKey::End => 9,
        PhysicalKey::Escape => 10,
        PhysicalKey::F1 => 11,
        PhysicalKey::F2 => 12,
        PhysicalKey::F3 => 13,
        PhysicalKey::F4 => 14,
        PhysicalKey::F5 => 15,
        PhysicalKey::F6 => 16,
        PhysicalKey::F7 => 17,
        PhysicalKey::F8 => 18,
        PhysicalKey::F9 => 19,
        PhysicalKey::F10 => 20,
        PhysicalKey::F11 => 21,
        PhysicalKey::F12 => 22,
        PhysicalKey::Home => 23,
        PhysicalKey::LeftArrow => 24,
        PhysicalKey::MetaLeft => 25,
        PhysicalKey::MetaRight => 26,
        PhysicalKey::PageDown => 27,
        PhysicalKey::PageUp => 28,
        PhysicalKey::Return => 29,
        PhysicalKey::RightArrow => 30,
        PhysicalKey::ShiftLeft => 31,
        PhysicalKey::ShiftRight => 32,
        PhysicalKey::Space => 33,
        PhysicalKey::Tab => 34,
        PhysicalKey::UpArrow => 35,
        PhysicalKey::PrintScreen => 36,
        PhysicalKey::ScrollLock => 37,
        PhysicalKey::Pause => 38,
        PhysicalKey::NumLock => 39,
        PhysicalKey::BackQuote => 40,
        PhysicalKey::Num1 => 41,
        PhysicalKey::Num2 => 42,
        PhysicalKey::Num3 => 43,
        PhysicalKey::Num4 => 44,
        PhysicalKey::Num5 => 45,
        PhysicalKey::Num6 => 46,
        PhysicalKey::Num7 => 47,
        PhysicalKey::Num8 => 48,
        PhysicalKey::Num9 => 49,
        PhysicalKey::Num0 => 50,
        PhysicalKey::Minus => 51,
        PhysicalKey::Equal => 52,
        PhysicalKey::KeyQ => 53,
        PhysicalKey::KeyW => 54,
        PhysicalKey::KeyE => 55,
        PhysicalKey::KeyR => 56,
        PhysicalKey::KeyT => 57,
        PhysicalKey::KeyY => 58,
        PhysicalKey::KeyU => 59,
        PhysicalKey::KeyI => 60,
        PhysicalKey::KeyO => 61,
        PhysicalKey::KeyP => 62,
        PhysicalKey::LeftBracket => 63,
        PhysicalKey::RightBracket => 64,
        PhysicalKey::KeyA => 65,
        PhysicalKey::KeyS => 66,
        PhysicalKey::KeyD => 67,
        PhysicalKey::KeyF => 68,
        PhysicalKey::KeyG => 69,
        PhysicalKey::KeyH => 70,
        PhysicalKey::KeyJ => 71,
        PhysicalKey::KeyK => 72,
        PhysicalKey::KeyL => 73,
        PhysicalKey::SemiColon => 74,
        PhysicalKey::Quote => 75,
        PhysicalKey::BackSlash => 76,
        PhysicalKey::KeyZ => 77,
        PhysicalKey::KeyX => 78,
        PhysicalKey::KeyC => 79,
        PhysicalKey::KeyV => 80,
        PhysicalKey::KeyB => 81,
        PhysicalKey::KeyN => 82,
        PhysicalKey::KeyM => 83,
        PhysicalKey::Comma => 84,
        PhysicalKey::Dot => 85,
        PhysicalKey::Slash => 86,
        PhysicalKey::Insert => 87,
        PhysicalKey::IntlBackslash => 88,
        PhysicalKey::Unknown(c) => 1000 + c,
        PhysicalKey::Other => 999,
    }
}

/// The named key that travels under `code`, if one does.
pub open spec fn named_key_of_code(code: int) -> Option<PhysicalKey> {
    if code == 1 {
        Some(PhysicalKey::Alt)
    } else if code == 2 {
        Some(PhysicalKey::AltGr)
    } else if code == 3 {
        Some(PhysicalKey::Backspace)
    } else if code == 4 {
        Some(PhysicalKey::CapsLock)
    } else if code == 5 {
        Some(PhysicalKey::ControlLeft)
    } else if code == 6 {
        Some(PhysicalKey::ControlRight)
    } else if code == 7 {
        Some(PhysicalKey::Delete)
    } else if code == 8 {
        Some(PhysicalKey::DownArrow)
    } else if code == 9 {
        Some(PhysicalKey::End)
    } else if code == 10 {
        Some(PhysicalKey::Escape)
    } else if code == 11 {
        Some(PhysicalKey::F1)
    } else if code == 12 {
        Some(PhysicalKey::F2)
    } else if code == 13 {
        Some(PhysicalKey::F3)
    } else if code == 14 {
        Some(PhysicalKey::F4)
    } else if code == 15 {
        Some(PhysicalKey::F5)
    } else if code == 16 {
        Some(PhysicalKey::F6)
    } else if code == 17 {
        Some(PhysicalKey::F7)
    } else if code == 18 {
        Some(PhysicalKey::F8)
    } else if code == 19 {
        Some(PhysicalKey::F9)
    } else if code == 20 {
        Some(PhysicalKey::F10)
    } else if code == 21 {
        Some(PhysicalKey::F11)
    } else if code == 22 {
        Some(PhysicalKey::F12)
    } else if code == 23 {
        Some(PhysicalKey::Home)
    } else if code == 24 {
        Some(PhysicalKey::LeftArrow)
    } else if code == 25 {
        Some(PhysicalKey::MetaLeft)
    } else if code == 26 {
        Some(PhysicalKey::MetaRight)
    } else if code == 27 {
        Some(PhysicalKey::PageDown)
    } else if code == 28 {
        Some(PhysicalKey::PageUp)
    } else if code == 29 {
        Some(PhysicalKey::Return)
    } else if code == 30 {
        Some(PhysicalKey::RightArrow)
    } else if code == 31 {
        Some(PhysicalKey::ShiftLeft)
    } else if code == 32 {
        Some(PhysicalKey::ShiftRight)
    } else if code == 33 {
        Some(PhysicalKey::Space)
    } else if code == 34 {
        Some(PhysicalKey::Tab)
    } else if code == 35 {
        Some(PhysicalKey::UpArrow)
    } else if code == 36 {
        Some(PhysicalKey::PrintScreen)
    } else if code == 37 {
        Some(PhysicalKey::ScrollLock)
    } else if code == 38 {
        Some(PhysicalKey::Pause)
    } else if code == 39 {
        Some(PhysicalKey::NumLock)
    } else if code == 40 {
        Some(PhysicalKey::BackQuote)
    } else if code == 41 {
        Some(PhysicalKey::Num1)
    } else if code == 42 {
        Some(PhysicalKey::Num2)
    } else if code == 43 {
        Some(PhysicalKey::Num3)
    } else if code == 44 {
        Some(PhysicalKey::Num4)
    } else if code == 45 {
        Some(PhysicalKey::Num5)
    } else if code == 46 {
        Some(PhysicalKey::Num6)
    } else if code == 47 {
        Some(PhysicalKey::Num7)
    } else if code == 48 {
        Some(PhysicalKey::Num8)
    } else if code == 49 {
        Some(PhysicalKey::Num9)
    } else if code == 50 {
        Some(PhysicalKey::Num0)
    } else if code == 51 {
        Some(PhysicalKey::Minus)
    } else if code == 52 {
        Some(PhysicalKey::Equal)
    } else if code == 53 {
        Some(PhysicalKey::KeyQ)
    } else if code == 54 {
        Some(PhysicalKey::KeyW)
    } else if code == 55 {
        Some(PhysicalKey::KeyE)
    } else if code == 56 {
        Some(PhysicalKey::KeyR)
    } else if code == 57 {
        Some(PhysicalKey::KeyT)
    } else if code == 58 {
        Some(PhysicalKey::KeyY)
    } else if code == 59 {
        Some(PhysicalKey::KeyU)
    } else if code == 60 {
        Some(PhysicalKey::KeyI)
    } else if code == 61 {
        Some(PhysicalKey::KeyO)
    } else if code == 62 {
        Some(PhysicalKey::KeyP)
    } else if code == 63 {
        Some(PhysicalKey::LeftBracket)
    } else if code == 64 {
        Some(PhysicalKey::RightBracket)
    } else if code == 65 {
        Some(PhysicalKey::KeyA)
    } else if code == 66 {
        Some(PhysicalKey::KeyS)
    } else if code == 67 {
        Some(PhysicalKey::KeyD)
    } else if code == 68 {
        Some(PhysicalKey::KeyF)
    } else if code == 69 {
        Some(PhysicalKey::KeyG)
    } else if code == 70 {
        Some(PhysicalKey::KeyH)
    } else if code == 71 {
        Some(PhysicalKey::KeyJ)
    } else if code == 72 {
        Some(PhysicalKey::KeyK)
    } else if code == 73 {
        Some(PhysicalKey::KeyL)
    } else if code == 74 {
        Some(PhysicalKey::SemiColon)
    } else if code == 75 {
        Some(PhysicalKey::Quote)
    } else if code == 76 {
        Some(PhysicalKey::BackSlash)
    } else if code == 77 {
        Some(PhysicalKey::KeyZ)
    } else if code == 78 {
        Some(PhysicalKey::KeyX)
    } else if code == 79 {
        Some(PhysicalKey::KeyC)
    } else if code == 80 {
        Some(PhysicalKey::KeyV)
    } else if code == 81 {
        Some(PhysicalKey::KeyB)
    } else if code == 82 {
        Some(PhysicalKey::KeyN)
    } else if code == 83 {
        Some(PhysicalKey::KeyM)
    } else if code == 84 {
        Some(PhysicalKey::Comma)
    } else if code == 85 {
        Some(PhysicalKey::Dot)
    } else if code == 86 {
        Some(PhysicalKey::Slash)
    } else if code == 87 {
        Some(PhysicalKey::Insert)
    } else if code == 88 {
        Some(PhysicalKey::IntlBackslash)
    } else {
        None
    }
}

/// A key the primary can press.
#[derive(Debug, Clone, Copy, PartialEq, Eq, Structural)]
pub enum SimKey {
    Alt,
    Backspace,
    CapsLock,
    Control,
    Delete,
    DownArrow,
    End,
    Escape,
    F1,
    F2,
    F3,
    F4,
    F5,
    F6,
    F7,
    F8,
    F9,
    F10,
    F11,
    F12,
    Home,
    LeftArrow,
    Meta,
    PageDown,
    PageUp,
    Return,
    RightArrow,
    Shift,
    Space,
    Tab,
    UpArrow,
    /// The key that types this character.
    Unicode(char),
}

/// The key the primary presses for a code, if any.
pub open spec fn sim_key_of(code: u32) -> Option<SimKey> {
    if code == 1 {
        Some(SimKey::Alt)
    } else if code == 3 {
        Some(SimKey::Backspace)
    } else if code == 4 {
        Some(SimKey::CapsLock)
    } else if code == 5 {
        Some(SimKey::Control)
    } else if code == 6 {
        Some(SimKey::Control)
    } else if code == 7 {
        Some(SimKey::Delete)
    } else if code == 8 {
        Some(SimKey::DownArrow)
    } else if code == 9 {
        Some(SimKey::End)
    } else if code == 10 {
        Some(SimKey::Escape)
    } else if code == 11 {
        Some(SimKey::F1)
    } else if code == 12 {
        Some(SimKey::F2)
    } else if code == 13 {
        Some(SimKey::F3)
    } else if code == 14 {
        Some(SimKey::F4)
    } else if code == 15 {
        Some(SimKey::F5)
    } else if code == 16 {
        Some(SimKey::F6)
    } else if code == 17 {
        Some(SimKey::F7)
    } else if code == 18 {
        Some(SimKey::F8)
    } else if code == 19 {
        Some(SimKey::F9)
    } else if code == 20 {
        Some(SimKey::F10)
    } else if code == 21 {
        Some(SimKey::F11)
    } else if code == 22 {
        Some(SimKey::F12)
    } else if code == 23 {
        Some(SimKey::Home)
    } else if code == 24 {
        Some(SimKey::LeftArrow)
    } else if code == 25 {
        Some(SimKey::Meta)
    } else if code == 26 {
        Some(SimKey::Meta)
    } else if code == 27 {
        Some(SimKey::PageDown)
    } else if code == 28 {
        Some(SimKey::PageUp)
    } else if code == 29 {
        Some(SimKey::Return)
    } else if code == 30 {
        Some(SimKey::RightArrow)
    } else if code == 31 {
        Some(SimKey::Shift)
    } else if code == 32 {
        Some(SimKey::Shift)
    } else if code == 33 {
        Some(SimKey::Space)
    } else if code == 34 {
        Some(SimKey::Tab)
    } else if code == 35 {
        Some(SimKey::UpArrow)
    } else if code == 40 {
        Some(SimKey::Unicode('`'))
    } else if code == 41 {
        Some(SimKey::Unicode('1'))
    } else if code == 42 {
        Some(SimKey::Unicode('2'))
    } else if code == 43 {
        Some(SimKey::Unicode('3'))
    } else if code == 44 {
        Some(SimKey::Unicode('4'))
    } else if code == 45 {
        Some(SimKey::Unicode('5'))
    } else if code == 46 {
        Some(SimKey::Unicode('6'))
    } else if code == 47 {
        Some(SimKey::Unicode('7'))
    } else if code == 48 {
        Some(SimKey::Unicode('8'))
    } else if code == 49 {
        Some(SimKey::Unicode('9'))
    } else if code == 50 {
        Some(SimKey::Unicode('0'))
    } else if code == 51 {
        Some(SimKey::Unicode('-'))
    } else if code == 52 {
        Some(SimKey::Unicode('='))
    } else if code == 53 {
        Some(SimKey::Unicode('q'))
    } else if code == 54 {
        Some(SimKey::Unicode('w'))
    } else if code == 55 {
        Some(SimKey::Unicode('e'))
    } else if code == 56 {
        Some(SimKey::Unicode('r'))
    } else if code == 57 {
        Some(SimKey::Unicode('t'))
    } else if code == 58 {
        Some(SimKey::Unicode('y'))
    } else if code == 59 {
        Some(SimKey::Unicode('u'))
    } else if code == 60 {
        Some(SimKey::Unicode('i'))
    } else if code == 61 {
        Some(SimKey::Unicode('o'))
    } else if code == 62 {
        Some(SimKey::Unicode('p'))
    } else if code == 63 {
        Some(SimKey::Unicode('['))
    } else if code == 64 {
        Some(SimKey::Unicode(']'))
    } else if code == 65 {
        Some(SimKey::Unicode('a'))
    } else if code == 66 {
        Some(SimKey::Unicode('s'))
    } else if code == 67 {
        Some(SimKey::Unicode('d'))
    } else if code == 68 {
        Some(SimKey::Unicode('f'))
    } else if code == 69 {
        Some(SimKey::Unicode('g'))
    } else if code == 70 {
        Some(SimKey::Unicode('h'))
    } else if code == 71 {
        Some(SimKey::Unicode('j'))
    } else if code == 72 {
        Some(SimKey::Unicode('k'))
    } else if code == 73 {
        Some(SimKey::Unicode('l'))
    } else if code == 74 {
        Some(SimKey::Unicode(';'))
    } else if code == 75 {
        Some(SimKey::Unicode('\''))
    } else if code == 76 {
        Some(SimKey::Unicode('\\'))
    } else if code == 77 {
        Some(SimKey::Unicode('z'))
    } else if code == 78 {
        Some(SimKey::Unicode('x'))
    } else if code == 79 {
        Some(SimKey::Unicode('c'))
    } else if code == 80 {
        Some(SimKey::Unicode('v'))
    } else if code == 81 {
        Some(SimKey::Unicode('b'))
    } else if code == 82 {
        Some(SimKey::Unicode('n'))
    } else if code == 83 {
        Some(SimKey::Unicode('m'))
    } else if code == 84 {
        Some(SimKey::Unicode(','))
    } else if code == 85 {
        Some(SimKey::Unicode('.'))
    } else if code == 86 {
        Some(SimKey::Unicode('/'))
    } else {
        None
    }
}

/// The key the primary presses for a code, if any.
pub fn sim_key(code: u32) -> (r: Option<SimKey>)
    ensures
        r == sim_key_of(code),
{
    match code {
        1 => Some(SimKey::Alt),
        3 => Some(SimKey::Backspace),
        4 => Some(SimKey::CapsLock),
        5 => Some(SimKey::Control),
        6 => Some(SimKey::Control),
        7 => Some(SimKey::Delete),
        8 => Some(SimKey::DownArrow),
        9 => Some(SimKey::End),
        10 => Some(SimKey::Escape),
        11 => Some(SimKey::F1),
        12 => Some(SimKey::F2),
        13 => Some(SimKey::F3),
        14 => Some(SimKey::F4),
        15 => Some(SimKey::F5),
        16 => Some(SimKey::F6),
        17 => Some(SimKey::F7),
        18 => Some(SimKey::F8),
        19 => Some(SimKey::F9),
        20 => Some(SimKey::F10),
        21 => Some(SimKey::F11),
        22 => Some(SimKey::F12),
        23 => Some(SimKey::Home),
        24 => Some(SimKey::LeftArrow),
        25 => Some(SimKey::Meta),
        26 => Some(SimKey::Meta),
        27 => Some(SimKey::PageDown),
        28 => Some(SimKey::PageUp),
        29 => Some(SimKey::Return),
        30 => Some(SimKey::RightArrow),
        31 => Some(SimKey::Shift),
        32 => Some(SimKey::Shift),
        33 => Some(SimKey::Space),
        34 => Some(SimKey::Tab),
        35 => Some(SimKey::UpArrow),
        40 => Some(SimKey::Unicode('`')),
        41 => Some(SimKey::Unicode('1')),
        42 => Some(SimKey::Unicode('2')),
        43 => Some(SimKey::Unicode('3')),
        44 => Some(SimKey::Unicode('4')),
        45 => Some(SimKey::Unicode('5')),
        46 => Some(SimKey::Unicode('6')),
        47 => Some(SimKey::Unicode('7')),
        48 => Some(SimKey::Unicode('8')),
        49 => Some(SimKey::Unicode('9')),
        50 => Some(SimKey::Unicode('0')),
        51 => Some(SimKey::Unicode('-')),
        52 => Some(SimKey::Unicode('=')),
        53 => Some(SimKey::Unicode('q')),
        54 => Some(SimKey::Unicode('w')),
        55 => Some(SimKey::Unicode('e')),
        56 => Some(SimKey::Unicode('r')),
        57 => Some(SimKey::Unicode('t')),
        58 => Some(SimKey::Unicode('y')),
        59 => Some(SimKey::Unicode('u')),
        60 => Some(SimKey::Unicode('i')),
        61 => Some(SimKey::Unicode('o')),
        62 => Some(SimKey::Unicode('p')),
        63 => Some(SimKey::Unicode('[')),
        64 => Some(SimKey::Unicode(']')),
        65 => Some(SimKey::Unicode('a')),
        66 => Some(SimKey::Unicode('s')),
        67 => Some(SimKey::Unicode('d')),
        68 => Some(SimKey::Unicode('f')),
        69 => Some(SimKey::Unicode('g')),
        70 => Some(SimKey::Unicode('h')),
        71 => Some(SimKey::Unicode('j')),
        72 => Some(SimKey::Unicode('k')),
        73 => Some(SimKey::Unicode('l')),
        74 => Some(SimKey::Unicode(';')),
        75 => Some(SimKey::Unicode('\'')),
        76 => Some(SimKey::Unicode('\\')),
        77 => Some(SimKey::Unicode('z')),
        78 => Some(SimKey::Unicode('x')),
        79 => Some(SimKey::Unicode('c')),
        80 => Some(SimKey::Unicode('v')),
        81 => Some(SimKey::Unicode('b')),
        82 => Some(SimKey::Unicode('n')),
        83 => Some(SimKey::Unicode('m')),
        84 => Some(SimKey::Unicode(',')),
        85 => Some(SimKey::Unicode('.')),
        86 => Some(SimKey::Unicode('/')),
        _ => None,
    }
}

/// A key as the window of the display reports it.
#[derive(Debug, Clone, Copy, PartialEq, Eq, Structural)]
pub enum UiKey {
    Backspace,
    Tab,
    Enter,
    Escape,
    Space,
    Delete,
    Home,
    End,
    PageUp,
    PageDown,
    ArrowLeft,
    ArrowRight,
    ArrowUp,
    ArrowDown,
    A,
    B,
    C,
    D,
    E,
    F,
    G,
    H,
    I,
    J,
    K,
    L,
    M,
    N,
    O,
    P,
    Q,
    R,
    S,
    T,
    U,
    V,
    W,
    X,
    Y,
    Z,
    Num0,
    Num1,
    Num2,
    Num3,
    Num4,
    Num5,
    Num6,
    Num7,
    Num8,
    Num9,
    F1,
    F2,
    F3,
    F4,
    F5,
    F6,
    F7,
    F8,
    F9,
    F10,
    F11,
    F12,
    Minus,
    /// Any other key.
    Other,
}

/// The code the display forwards for a key of its window, if it forwards
/// the key at all.
pub open spec fn ui_key_code_of(k: UiKey) -> Option<u32> {
    match k {
        UiKey::Backspace => Some(3),
        UiKey::Tab => Some(34),
        UiKey::Enter => Some(29),
        UiKey::Escape => Some(10),
        UiKey::Space => Some(33),
        UiKey::Delete => Some(7),
        UiKey::Home => Some(23),
        UiKey::End => Some(9),
        UiKey::PageUp => Some(28),
        UiKey::PageDown => Some(27),
        UiKey::ArrowLeft => Some(24),
        UiKey::ArrowRight => Some(30),
        UiKey::ArrowUp => Some(35),
        UiKey::ArrowDown => Some(8),
        UiKey::A => Some(65),
        UiKey::B => Some(81),
        UiKey::C => Some(79),
        UiKey::D => Some(67),
        UiKey::E => Some(55),
        UiKey::F => Some(68),
        UiKey::G => Some(69),
        UiKey::H => Some(70),
        UiKey::I => Some(60),
        UiKey::J => Some(71),
        UiKey::K => Some(72),
        UiKey::L => Some(73),
        UiKey::M => Some(83),
        UiKey::N => Some(82),
        UiKey::O => Some(61),
        UiKey::P => Some(62),
        UiKey::Q => Some(53),
        UiKey::R => Some(56),
        UiKey::S => Some(66),
        UiKey::T => Some(57),
        UiKey::U => Some(59),
        UiKey::V => Some(80),
        UiKey::W => Some(54),
        UiKey::X => Some(78),
        UiKey::Y => Some(58),
        UiKey::Z => Some(77),
        UiKey::Num0 => Some(50),
        UiKey::Num1 => Some(41),
        UiKey::Num2 => Some(42),
        UiKey::Num3 => Some(43),
        UiKey::Num4 => Some(44),
        UiKey::Num5 => Some(45),
        UiKey::Num6 => Some(46),
        UiKey::Num7 => Some(47),
        UiKey::Num8 => Some(48),
        UiKey::Num9 => Some(49),
        UiKey::F1 => Some(11),
        UiKey::F2 => Some(12),
        UiKey::F3 => Some(13),
        UiKey::F4 => Some(14),
        UiKey::F5 => Some(15),
        UiKey::F6 => Some(16),
        UiKey::F7 => Some(17),
        UiKey::F8 => Some(18),
        UiKey::F9 => Some(19),
        UiKey::F10 => Some(20),
        UiKey::F11 => Some(21),
        UiKey::F12 => Some(22),
        UiKey::Minus => Some(51),
        UiKey::Other => None,
    }
}

/// The code the display forwards for a key of its window.
pub fn ui_key_code(k: UiKey) -> (r: Option<u32>)
    ensures
        r == ui_key_code_of(k),
{
    match k {
        UiKey::Backspace => Some(3),
        UiKey::Tab => Some(34),
        UiKey::Enter => Some(29),
        UiKey::Escape => Some(10),
        UiKey::Space => Some(33),
        UiKey::Delete => Some(7),
        UiKey::Home => Some(23),
        UiKey::End => Some(9),
        UiKey::PageUp => Some(28),
        UiKey::PageDown => Some(27),
        UiKey::ArrowLeft => Some(24),
        UiKey::ArrowRight => Some(30),
        UiKey::ArrowUp => Some(35),
        UiKey::ArrowDown => Some(8),
        UiKey::A => Some(65),
        UiKey::B => Some(81),
        UiKey::C => Some(79),
        UiKey::D => Some(67),
        UiKey::E => Some(55),
        UiKey::F => Some(68),
        UiKey::G => Some(69),
        UiKey::H => Some(70),
        UiKey::I => Some(60),
        UiKey::J => Some(71),
        UiKey::K => Some(72),
        UiKey::L => Some(73),
        UiKey::M => Some(83),
        UiKey::N => Some(82),
        UiKey::O => Some(61),
        UiKey::P => Some(62),
        UiKey::Q => Some(53),
        UiKey::R => Some(56),
        UiKey::S => Some(66),
        UiKey::T => Some(57),
        UiKey::U => Some(59),
        UiKey::V => Some(80),
        UiKey::W => Some(54),
        UiKey::X => Some(78),
        UiKey::Y => Some(58),
        UiKey::Z => Some(77),
        UiKey::Num0 => Some(50),
        UiKey::Num1 => Some(41),
        UiKey::Num2 => Some(42),
        UiKey::Num3 => Some(43),
        UiKey::Num4 => Some(44),
        UiKey::Num5 => Some(45),
        UiKey::Num6 => Some(46),
        UiKey::Num7 => Some(47),
        UiKey::Num8 => Some(48),
        UiKey::Num9 => Some(49),
        UiKey::F1 => Some(11),
        UiKey::F2 => Some(12),
        UiKey::F3 => Some(13),
        UiKey::F4 => Some(14),
        UiKey::F5 => Some(15),
        UiKey::F6 => Some(16),
        UiKey::F7 => Some(17),
        UiKey::F8 => Some(18),
        UiKey::F9 => Some(19),
        UiKey::F10 => Some(20),
        UiKey::F11 => Some(21),
        UiKey::F12 => Some(22),
        UiKey::Minus => Some(51),
        UiKey::Other => None,
    }
}

/// The listener's name for a key of the display's window.
pub open spec fn physical_of_ui(k: UiKey) -> PhysicalKey {
    match k {
        UiKey::Backspace => PhysicalKey::Backspace,
        UiKey::Tab => PhysicalKey::Tab,
        UiKey::Enter => PhysicalKey::Return,
        UiKey::Escape => PhysicalKey::Escape,
        UiKey::Space => PhysicalKey::Space,
        UiKey::Delete => PhysicalKey::Delete,
        UiKey::Home => PhysicalKey::Home,
        UiKey::End => PhysicalKey::End,
        UiKey::PageUp => PhysicalKey::PageUp,
        UiKey::PageDown => PhysicalKey::PageDown,
        UiKey::ArrowLeft => PhysicalKey::LeftArrow,
        UiKey::ArrowRight => PhysicalKey::RightArrow,
        UiKey::ArrowUp => PhysicalKey::UpArrow,
        UiKey::ArrowDown => PhysicalKey::DownArrow,
        UiKey::A => PhysicalKey::KeyA,
        UiKey::B => PhysicalKey::KeyB,
        UiKey::C => PhysicalKey::KeyC,
        UiKey::D => PhysicalKey::KeyD,
        UiKey::E => PhysicalKey::KeyE,
        UiKey::F => PhysicalKey::KeyF,
        UiKey::G => PhysicalKey::KeyG,
        UiKey::H => PhysicalKey::KeyH,
        UiKey::I => PhysicalKey::KeyI,
        UiKey::J => PhysicalKey::KeyJ,
        UiKey::K => PhysicalKey::KeyK,
        UiKey::L => PhysicalKey::KeyL,
        UiKey::M => PhysicalKey::KeyM,
        UiKey::N => PhysicalKey::KeyN,
        UiKey::O => PhysicalKey::KeyO,
        UiKey::P => PhysicalKey::KeyP,
        UiKey::Q => PhysicalKey::KeyQ,
        UiKey::R => PhysicalKey::KeyR,
        UiKey::S => PhysicalKey::KeyS,
        UiKey::T => PhysicalKey::KeyT,
        UiKey::U => PhysicalKey::KeyU,
        UiKey::V => PhysicalKey::KeyV,
        UiKey::W => PhysicalKey::KeyW,
        UiKey::X => PhysicalKey::KeyX,
        UiKey::Y => PhysicalKey::KeyY,
        UiKey::Z => PhysicalKey::KeyZ,
        UiKey::Num0 => PhysicalKey::Num0,
        UiKey::Num1 => PhysicalKey::Num1,
        UiKey::Num2 => PhysicalKey::Num2,
        UiKey::Num3 => PhysicalKey::Num3,
        UiKey::Num4 => PhysicalKey::Num4,
        UiKey::Num5 => PhysicalKey::Num5,
        UiKey::Num6 => PhysicalKey::Num6,
        UiKey::Num7 => PhysicalKey::Num7,
        UiKey::Num8 => PhysicalKey::Num8,
        UiKey::Num9 => PhysicalKey::Num9,
        UiKey::F1 => PhysicalKey::F1,
        UiKey::F2 => PhysicalKey::F2,
        UiKey::F3 => PhysicalKey::F3,
        UiKey::F4 => PhysicalKey::F4,
        UiKey::F5 => PhysicalKey::F5,
        UiKey::F6 => PhysicalKey::F6,
        UiKey::F7 => PhysicalKey::F7,
        UiKey::F8 => PhysicalKey::F8,
        UiKey::F9 => PhysicalKey::F9,
        UiKey::F10 => PhysicalKey::F10,
        UiKey::F11 => PhysicalKey::F11,
        UiKey::F12 => PhysicalKey::F12,
        UiKey::Minus => PhysicalKey::Minus,
        UiKey::Other => PhysicalKey::Other,
    }
}

/// A mouse button as the input listener reports it.
#[derive(Debug, Clone, Copy, PartialEq, Eq, Structural)]
pub enum MouseButton {
    Left,
    Right,
    Middle,
    Unknown(u8),
}

/// The code a button travels under: 0, 1, 2 for left, right, middle, and
/// the platform code for others.
pub open spec fn button_code_of(b: MouseButton) -> u8 {
    match b {
        MouseButton::Left => 0,
        MouseButton::Right => 1,
        MouseButton::Middle => 2,
        MouseButton::Unknown(n) => n,
    }
}

/// The code a button travels under.
pub fn button_code(b: MouseButton) -> (r: u8)
    ensures
        r == button_code_of(b),
{
    match b {
        MouseButton::Left => 0,
        MouseButton::Right => 1,
        MouseButton::Middle => 2,
        MouseButton::Unknown(n) => n,
    }
}

/// A button the primary can press.
#[derive(Debug, Clone, Copy, PartialEq, Eq, Structural)]
pub enum SimButton {
    Left,
    Right,
    Middle,
}

/// The button the primary presses for a code: right for 1, middle for 2,
/// left for anything else.
pub open spec fn sim_button_of(code: u8) -> SimButton {
    if code == 1 {
        SimButton::Right
    } else if code == 2 {
        SimButton::Middle
    } else {
        SimButton::Left
    }
}

/// The button the primary presses for a code.
pub fn sim_button(code: u8) -> (r: SimButton)
    ensures
        r == sim_button_of(code),
{
    match code {
        0 => SimButton::Left,
        1 => SimButton::Right,
        2 => SimButton::Middle,
        _ => SimButton::Left,
    }
}

/// One thing the primary does to replay an input message.
#[derive(Debug, Clone, Copy, PartialEq, Eq, Structural)]
pub enum InputAction {
    /// Move the pointer to these fractions of the screen's width and height
    /// (`f32` bit patterns).
    MoveTo { x_ratio_bits: u32, y_ratio_bits: u32 },
    /// Press or release a button.
    Button { button: SimButton, press: bool },
    /// Scroll by `amount` steps, vertically or horizontally.
    Scroll { amount: i32, vertical: bool },
    /// Press or release a key.
    Key { key: SimKey, press: bool },
}

/// What replaying a message does, in order: a pointer move, a button, a
/// vertical then a horizontal scroll for the non-zero amounts, a key where
/// its code names one; nothing for other messages.
pub open spec fn input_actions_of(msg: Message) -> Seq<InputAction> {
    match msg {
        Message::MouseMove { x_ratio_bits, y_ratio_bits } => seq![
            InputAction::MoveTo { x_ratio_bits, y_ratio_bits },
        ],
        Message::MouseClick { button, pressed, .. } => seq![
            InputAction::Button { button: sim_button_of(button), press: pressed },
        ],
        Message::MouseScroll { dx, dy } => (if dy != 0 {
            seq![InputAction::Scroll { amount: dy, vertical: true }]
        } else {
            Seq::empty()
        }) + (if dx != 0 {
            seq![InputAction::Scroll { amount: dx, vertical: false }]
        } else {
            Seq::empty()
        }),
        Message::KeyEvent { key_code, pressed } => match sim_key_of(key_code) {
            Some(key) => seq![InputAction::Key { key, press: pressed }],
            None => Seq::empty(),
        },
        _ => Seq::empty(),
    }
}

/// The actions that replay an input message on the primary.
pub fn input_actions(msg: &Message) -> (r: Vec<InputAction>)
    ensures
        r@ == input_actions_of(*msg),
{
    let mut r: Vec<InputAction> = Vec::new();
    match msg {
        Message::MouseMove { x_ratio_bits, y_ratio_bits } => {
            r.push(InputAction::MoveTo { x_ratio_bits: *x_ratio_bits, y_ratio_bits: *y_ratio_bits });
        },
        Message::MouseClick { button, pressed, .. } => {
            r.push(InputAction::Button { button: sim_button(*button), press: *pressed });
        },
        Message::MouseScroll { dx, dy } => {
            if *dy != 0 {
                r.push(InputAction::Scroll { amount: *dy, vertical: true });
            }
            if *dx != 0 {
                r.push(InputAction::Scroll { amount: *dx, vertical: false });
            }
        },
        Message::KeyEvent { key_code, pressed } => {
            match sim_key(*key_code) {
                Some(key) => r.push(InputAction::Key { key, press: *pressed }),
                None => {},
            }
        },
        _ => {},
    }
    assert(r@ =~= input_actions_of(*msg));
    r
}

/// The key the primary presses when the display's user presses `k`: the
/// key of the same name, both Control, Shift and Meta keys pressing their
/// one key, each character key typing its own unshifted character. AltGr,
/// PrintScreen, ScrollLock, Pause, NumLock, Insert, the international
/// backslash and keys reported only by code are not replayed.
pub open spec fn replayed_key(k: PhysicalKey) -> Option<SimKey> {
    match k {
        PhysicalKey::Alt => Some(SimKey::Alt),
        PhysicalKey::Backspace => Some(SimKey::Backspace),
        PhysicalKey::CapsLock => Some(SimKey::CapsLock),
        PhysicalKey::ControlLeft => Some(SimKey::Control),
        PhysicalKey::ControlRight => Some(SimKey::Control),
        PhysicalKey::Delete => Some(SimKey::Delete),
        PhysicalKey::DownArrow => Some(SimKey::DownArrow),
        PhysicalKey::End => Some(SimKey::End),
        PhysicalKey::Escape => Some(SimKey::Escape),
        PhysicalKey::F1 => Some(SimKey::F1),
        PhysicalKey::F2 => Some(SimKey::F2),
        PhysicalKey::F3 => Some(SimKey::F3),
        PhysicalKey::F4 => Some(SimKey::F4),
        PhysicalKey::F5 => Some(SimKey::F5),
        PhysicalKey::F6 => Some(SimKey::F6),
        PhysicalKey::F7 => Some(SimKey::F7),
        PhysicalKey::F8 => Some(SimKey::F8),
        PhysicalKey::F9 => Some(SimKey::F9),
        PhysicalKey::F10 => Some(SimKey::F10),
        PhysicalKey::F11 => Some(SimKey::F11),
        PhysicalKey::F12 => Some(SimKey::F12),
        PhysicalKey::Home => Some(SimKey::Home),
        PhysicalKey::LeftArrow => Some(SimKey::LeftArrow),
        PhysicalKey::MetaLeft => Some(SimKey::Meta),
        PhysicalKey::MetaRight => Some(SimKey::Meta),
        PhysicalKey::PageDown => Some(SimKey::PageDown),
        PhysicalKey::PageUp => Some(SimKey::PageUp),
        PhysicalKey::Return => Some(SimKey::Return),
        PhysicalKey::RightArrow => Some(SimKey::RightArrow),
        PhysicalKey::ShiftLeft => Some(SimKey::Shift),
        PhysicalKey::ShiftRight => Some(SimKey::Shift),
        PhysicalKey::Space => Some(SimKey::Space),
        PhysicalKey::Tab => Some(SimKey::Tab),
        PhysicalKey::UpArrow => Some(SimKey::UpArrow),
        PhysicalKey::BackQuote => Some(SimKey::Unicode('`')),
        PhysicalKey::Num0 => Some(SimKey::Unicode('0')),
        PhysicalKey::Num1 => Some(SimKey::Unicode('1')),
        PhysicalKey::Num2 => Some(SimKey::Unicode('2')),
        PhysicalKey::Num3 => Some(SimKey::Unicode('3')),
        PhysicalKey::Num4 => Some(SimKey::Unicode('4')),
        PhysicalKey::Num5 => Some(SimKey::Unicode('5')),
        PhysicalKey::Num6 => Some(SimKey::Unicode('6')),
        PhysicalKey::Num7 => Some(SimKey::Unicode('7')),
        PhysicalKey::Num8 => Some(SimKey::Unicode('8')),
        PhysicalKey::Num9 => Some(SimKey::Unicode('9')),
        PhysicalKey::Minus => Some(SimKey::Unicode('-')),
        PhysicalKey::Equal => Some(SimKey::Unicode('=')),
        PhysicalKey::KeyA => Some(SimKey::Unicode('a')),
        PhysicalKey::KeyB => Some(SimKey::Unicode('b')),
        PhysicalKey::KeyC => Some(SimKey::Unicode('c')),
        PhysicalKey::KeyD => Some(SimKey::Unicode('d')),
        PhysicalKey::KeyE => Some(SimKey::Unicode('e')),
        PhysicalKey::KeyF => Some(SimKey::Unicode('f')),
        PhysicalKey::KeyG => Some(SimKey::Unicode('g')),
        PhysicalKey::KeyH => Some(SimKey::Unicode('h')),
        PhysicalKey::KeyI => Some(SimKey::Unicode('i')),
        PhysicalKey::KeyJ => Some(SimKey::Unicode('j')),
        PhysicalKey::KeyK => Some(SimKey::Unicode('k')),
        PhysicalKey::KeyL => Some(SimKey::Unicode('l')),
        PhysicalKey::KeyM => Some(SimKey::Unicode('m')),
        PhysicalKey::KeyN => Some(SimKey::Unicode('n')),
        PhysicalKey::KeyO => Some(SimKey::Unicode('o')),
        PhysicalKey::KeyP => Some(SimKey::Unicode('p')),
        PhysicalKey::KeyQ => Some(SimKey::Unicode('q')),
        PhysicalKey::KeyR => Some(SimKey::Unicode('r')),
        PhysicalKey::KeyS => Some(SimKey::Unicode('s')),
        PhysicalKey::KeyT => Some(SimKey::Unicode('t')),
        PhysicalKey::KeyU => Some(SimKey::Unicode('u')),
        PhysicalKey::KeyV => Some(SimKey::Unicode('v')),
        PhysicalKey::KeyW => Some(SimKey::Unicode('w')),
        PhysicalKey::KeyX => Some(SimKey::Unicode('x')),
        PhysicalKey::KeyY => Some(SimKey::Unicode('y')),
        PhysicalKey::KeyZ => Some(SimKey::Unicode('z')),
        PhysicalKey::LeftBracket => Some(SimKey::Unicode('[')),
        PhysicalKey::RightBracket => Some(SimKey::Unicode(']')),
        PhysicalKey::SemiColon => Some(SimKey::Unicode(';')),
        PhysicalKey::Quote => Some(SimKey::Unicode('\'')),
        PhysicalKey::BackSlash => Some(SimKey::Unicode('\\')),
        PhysicalKey::Comma => Some(SimKey::Unicode(',')),
        PhysicalKey::Dot => Some(SimKey::Unicode('.')),
        PhysicalKey::Slash => Some(SimKey::Unicode('/')),
        PhysicalKey::AltGr => None,
        PhysicalKey::PrintScreen => None,
        PhysicalKey::ScrollLock => None,
        PhysicalKey::Pause => None,
        PhysicalKey::NumLock => None,
        PhysicalKey::Insert => None,
        PhysicalKey::IntlBackslash => None,
        PhysicalKey::Unknown(_) => None,
        PhysicalKey::Other => None,
    }
}

/// A key pressed on the display is pressed on the primary: the code the
/// listener sends for every key it names makes the primary press the key of
/// that name (see `replayed_key`), or nothing for the keys that are not
/// replayed.
pub proof fn law_listener_key_pressed_on_primary(k: PhysicalKey)
    requires
        !(k is Unknown),
    ensures
        sim_key_of(key_code_of(k) as u32) == replayed_key(k),
{
}

/// A key of the display's window that is forwarded is pressed on the
/// primary as the key of the same name.
pub proof fn law_window_key_pressed_on_primary(k: UiKey)
    ensures
        ui_key_code_of(k) matches Some(c) ==> sim_key_of(c) == replayed_key(physical_of_ui(k)),
{
}

/// A key event replays exactly one action on the primary where its code
/// names a key: that key, pressed where the event is a press and released
/// where it is a release; a code that names no key replays nothing. So a
/// press followed by a release of the same code leaves the key up.
pub proof fn law_key_event_replayed(code: u32, pressed: bool)
    ensures
        sim_key_of(code) matches Some(key) ==> input_actions_of(
            Message::KeyEvent { key_code: code, pressed },
        ) =~= seq![InputAction::Key { key, press: pressed }],
        sim_key_of(code) is None ==> input_actions_of(
            Message::KeyEvent { key_code: code, pressed },
        ).len() == 0,
        sim_key_of(code) is Some ==> input_actions_of(
            Message::KeyEvent { key_code: code, pressed: true },
        ) + input_actions_of(Message::KeyEvent { key_code: code, pressed: false })
            =~= seq![
            InputAction::Key { key: sim_key_of(code)->Some_0, press: true },
            InputAction::Key { key: sim_key_of(code)->Some_0, press: false },
        ],
{
}

/// Releasing a named key on the display releases the key of that name on
/// the primary, as pressing it presses it.
pub proof fn law_listener_key_released_on_primary(k: PhysicalKey, pressed: bool)
    requires
        !(k is Unknown),
        replayed_key(k) is Some,
    ensures
        input_actions_of(Message::KeyEvent { key_code: key_code_of(k) as u32, pressed })
            =~= seq![InputAction::Key { key: replayed_key(k)->Some_0, press: pressed }],
{
    law_listener_key_pressed_on_primary(k);
}

/// Every key the display forwards is one the primary can press.
pub proof fn law_forwarded_keys_replayable(k: UiKey)
    ensures
        ui_key_code_of(k) matches Some(c) ==> sim_key_of(c) is Some,
{
}

/// The display's window and the input listener agree: each key the window
/// forwards travels under the code the listener gives the same key.
pub proof fn law_window_and_listener_agree(k: UiKey)
    ensures
        k != UiKey::Other ==> ui_key_code_of(k) == Some(key_code_of(physical_of_ui(k)) as u32),
{
}

/// No two named keys travel under the same code.
pub proof fn law_named_codes_distinct(k: PhysicalKey)
    ensures
        !(k is Unknown) && !(k is Other) ==> named_key_of_code(key_code_of(k)) == Some(k),
{
}

/// A button's code presses that button again on the primary.
pub proof fn law_button_roundtrip(b: MouseButton)
    ensures
        b == MouseButton::Left ==> sim_button_of(button_code_of(b)) == SimButton::Left,
        b == MouseButton::Right ==> sim_button_of(button_code_of(b)) == SimButton::Right,
        b == MouseButton::Middle ==> sim_button_of(button_code_of(b)) == SimButton::Middle,
{
}

/// Every named key the listener reports is one the primary can press,
/// except AltGr, PrintScreen, ScrollLock, Pause, NumLock, Insert and the
/// international backslash, which travel but are not replayed.
pub proof fn law_listener_keys_replayable(k: PhysicalKey)
    ensures
        !(k is Unknown) && !(k is Other) && k != PhysicalKey::AltGr && k
            != PhysicalKey::PrintScreen && k != PhysicalKey::ScrollLock && k != PhysicalKey::Pause
            && k != PhysicalKey::NumLock && k != PhysicalKey::Insert && k
            != PhysicalKey::IntlBackslash ==> sim_key_of(key_code_of(k) as u32) is Some,
{
}

} // verus!
