//! Physical key positions, their wire tags, and the platform tables that
//! name them (Windows scan codes, X11 key names).
use vstd::prelude::*;

verus! {

/// A key identified by its position on an ANSI-standard US keyboard.
#[derive(Clone, Copy, Debug, PartialEq, Eq, Structural, Hash, PartialOrd, Ord)]
pub enum PhysKeyCode {
    AltLeft,
    AltRight,
    ControlLeft,
    ControlRight,
    Backspace,
    CapsLock,
    Delete,
    DownArrow,
    End,
    Escape,
    F1,
    F3,
    F4,
    F5,
    F6,
    F7,
    F8,
    F9,
    F10,
    F11,
    F12,
    F13,
    F14,
    F15,
    F16,
    F17,
    F18,
    F19,
    F2,
    F20,
    Home,
    LeftArrow,
    MetaLeft,
    MetaRight,
    PageDown,
    PageUp,
    Return,
    ShiftLeft,
    ShiftRight,
    Space,
    Tab,
    UpArrow,
    PrintScreen,
    ScrollLock,
    Pause,
    NumLock,
    BackQuote,
    Num1,
    Num2,
    Num3,
    Num4,
    Num5,
    Num6,
    Num7,
    Num8,
    Num9,
    Num0,
    Minus,
    Equal,
    KeyQ,
    KeyW,
    KeyE,
    KeyR,
    KeyT,
    KeyY,
    KeyU,
    KeyI,
    KeyO,
    KeyP,
    LeftBracket,
    RightBracket,
    KeyA,
    KeyS,
    KeyD,
    KeyF,
    KeyG,
    KeyH,
    KeyJ,
    KeyK,
    KeyL,
    SemiColon,
    Quote,
    BackSlash,
    KeyZ,
    KeyX,
    KeyC,
    KeyV,
    KeyB,
    KeyN,
    KeyM,
    Comma,
    Dot,
    Slash,
    Insert,
    KpReturn,
    KpMinus,
    KpPlus,
    KpMultiply,
    KpDivide,
    KpDecimal,
    Kp0,
    Kp1,
    Kp2,
    Kp3,
    Kp4,
    Kp5,
    Kp6,
    Kp7,
    Kp8,
    Kp9,
    Function,
    Help,
    RightArrow,
    KpDelete,
    VolumeDown,
    VolumeUp,
    VolumeMute,
    Menu,
}

/// The number of physical keys.
pub const PHYS_KEY_COUNT: u32 = 118;

/// The position of a physical key in the enumeration, used as its wire tag.
pub open spec fn phys_tag(p: PhysKeyCode) -> u32 {
    match p {
        PhysKeyCode::AltLeft => 0,
        PhysKeyCode::AltRight => 1,
        PhysKeyCode::ControlLeft => 2,
        PhysKeyCode::ControlRight => 3,
        PhysKeyCode::Backspace => 4,
        PhysKeyCode::CapsLock => 5,
        PhysKeyCode::Delete => 6,
        PhysKeyCode::DownArrow => 7,
        PhysKeyCode::End => 8,
        PhysKeyCode::Escape => 9,
        PhysKeyCode::F1 => 10,
        PhysKeyCode::F3 => 11,
        PhysKeyCode::F4 => 12,
        PhysKeyCode::F5 => 13,
        PhysKeyCode::F6 => 14,
        PhysKeyCode::F7 => 15,
        PhysKeyCode::F8 => 16,
        PhysKeyCode::F9 => 17,
        PhysKeyCode::F10 => 18,
        PhysKeyCode::F11 => 19,
        PhysKeyCode::F12 => 20,
        PhysKeyCode::F13 => 21,
        PhysKeyCode::F14 => 22,
        PhysKeyCode::F15 => 23,
        PhysKeyCode::F16 => 24,
        PhysKeyCode::F17 => 25,
        PhysKeyCode::F18 => 26,
        PhysKeyCode::F19 => 27,
        PhysKeyCode::F2 => 28,
        PhysKeyCode::F20 => 29,
        PhysKeyCode::Home => 30,
        PhysKeyCode::LeftArrow => 31,
        PhysKeyCode::MetaLeft => 32,
        PhysKeyCode::MetaRight => 33,
        PhysKeyCode::PageDown => 34,
        PhysKeyCode::PageUp => 35,
        PhysKeyCode::Return => 36,
        PhysKeyCode::ShiftLeft => 37,
        PhysKeyCode::ShiftRight => 38,
        PhysKeyCode::Space => 39,
        PhysKeyCode::Tab => 40,
        PhysKeyCode::UpArrow => 41,
        PhysKeyCode::PrintScreen => 42,
        PhysKeyCode::ScrollLock => 43,
        PhysKeyCode::Pause => 44,
        PhysKeyCode::NumLock => 45,
        PhysKeyCode::BackQuote => 46,
        PhysKeyCode::Num1 => 47,
        PhysKeyCode::Num2 => 48,
        PhysKeyCode::Num3 => 49,
        PhysKeyCode::Num4 => 50,
        PhysKeyCode::Num5 => 51,
        PhysKeyCode::Num6 => 52,
        PhysKeyCode::Num7 => 53,
        PhysKeyCode::Num8 => 54,
        PhysKeyCode::Num9 => 55,
        PhysKeyCode::Num0 => 56,
        PhysKeyCode::Minus => 57,
        PhysKeyCode::Equal => 58,
        PhysKeyCode::KeyQ => 59,
        PhysKeyCode::KeyW => 60,
        PhysKeyCode::KeyE => 61,
        PhysKeyCode::KeyR => 62,
        PhysKeyCode::KeyT => 63,
        PhysKeyCode::KeyY => 64,
        PhysKeyCode::KeyU => 65,
        PhysKeyCode::KeyI => 66,
        PhysKeyCode::KeyO => 67,
        PhysKeyCode::KeyP => 68,
        PhysKeyCode::LeftBracket => 69,
        PhysKeyCode::RightBracket => 70,
        PhysKeyCode::KeyA => 71,
        PhysKeyCode::KeyS => 72,
        PhysKeyCode::KeyD => 73,
        PhysKeyCode::KeyF => 74,
        PhysKeyCode::KeyG => 75,
        PhysKeyCode::KeyH => 76,
        PhysKeyCode::KeyJ => 77,
        PhysKeyCode::KeyK => 78,
        PhysKeyCode::KeyL => 79,
        PhysKeyCode::SemiColon => 80,
        PhysKeyCode::Quote => 81,
        PhysKeyCode::BackSlash => 82,
        PhysKeyCode::KeyZ => 83,
        PhysKeyCode::KeyX => 84,
        PhysKeyCode::KeyC => 85,
        PhysKeyCode::KeyV => 86,
        PhysKeyCode::KeyB => 87,
        PhysKeyCode::KeyN => 88,
        PhysKeyCode::KeyM => 89,
        PhysKeyCode::Comma => 90,
        PhysKeyCode::Dot => 91,
        PhysKeyCode::Slash => 92,
        PhysKeyCode::Insert => 93,
        PhysKeyCode::KpReturn => 94,
        PhysKeyCode::KpMinus => 95,
        PhysKeyCode::KpPlus => 96,
        PhysKeyCode::KpMultiply => 97,
        PhysKeyCode::KpDivide => 98,
        PhysKeyCode::KpDecimal => 99,
        PhysKeyCode::Kp0 => 100,
        PhysKeyCode::Kp1 => 101,
        PhysKeyCode::Kp2 => 102,
        PhysKeyCode::Kp3 => 103,
        PhysKeyCode::Kp4 => 104,
        PhysKeyCode::Kp5 => 105,
        PhysKeyCode::Kp6 => 106,
        PhysKeyCode::Kp7 => 107,
        PhysKeyCode::Kp8 => 108,
        PhysKeyCode::Kp9 => 109,
        PhysKeyCode::Function => 110,
        PhysKeyCode::Help => 111,
        PhysKeyCode::RightArrow => 112,
        PhysKeyCode::KpDelete => 113,
        PhysKeyCode::VolumeDown => 114,
        PhysKeyCode::VolumeUp => 115,
        PhysKeyCode::VolumeMute => 116,
        PhysKeyCode::Menu => 117,
    }
}

/// The physical key whose tag is `t`, if any.
pub open spec fn phys_of_tag(t: u32) -> Option<PhysKeyCode> {
    if t == 0 {
        Some(PhysKeyCode::AltLeft)
    } else if t == 1 {
        Some(PhysKeyCode::AltRight)
    } else if t == 2 {
        Some(PhysKeyCode::ControlLeft)
    } else if t == 3 {
        Some(PhysKeyCode::ControlRight)
    } else if t == 4 {
        Some(PhysKeyCode::Backspace)
    } else if t == 5 {
        Some(PhysKeyCode::CapsLock)
    } else if t == 6 {
        Some(PhysKeyCode::Delete)
    } else if t == 7 {
        Some(PhysKeyCode::DownArrow)
    } else if t == 8 {
        Some(PhysKeyCode::End)
    } else if t == 9 {
        Some(PhysKeyCode::Escape)
    } else if t == 10 {
        Some(PhysKeyCode::F1)
    } else if t == 11 {
        Some(PhysKeyCode::F3)
    } else if t == 12 {
        Some(PhysKeyCode::F4)
    } else if t == 13 {
        Some(PhysKeyCode::F5)
    } else if t == 14 {
        Some(PhysKeyCode::F6)
    } else if t == 15 {
        Some(PhysKeyCode::F7)
    } else if t == 16 {
        Some(PhysKeyCode::F8)
    } else if t == 17 {
        Some(PhysKeyCode::F9)
    } else if t == 18 {
        Some(PhysKeyCode::F10)
    } else if t == 19 {
        Some(PhysKeyCode::F11)
    } else if t == 20 {
        Some(PhysKeyCode::F12)
    } else if t == 21 {
        Some(PhysKeyCode::F13)
    } else if t == 22 {
        Some(PhysKeyCode::F14)
    } else if t == 23 {
        Some(PhysKeyCode::F15)
    } else if t == 24 {
        Some(PhysKeyCode::F16)
    } else if t == 25 {
        Some(PhysKeyCode::F17)
    } else if t == 26 {
        Some(PhysKeyCode::F18)
    } else if t == 27 {
        Some(PhysKeyCode::F19)
    } else if t == 28 {
        Some(PhysKeyCode::F2)
    } else if t == 29 {
        Some(PhysKeyCode::F20)
    } else if t == 30 {
        Some(PhysKeyCode::Home)
    } else if t == 31 {
        Some(PhysKeyCode::LeftArrow)
    } else if t == 32 {
        Some(PhysKeyCode::MetaLeft)
    } else if t == 33 {
        Some(PhysKeyCode::MetaRight)
    } else if t == 34 {
        Some(PhysKeyCode::PageDown)
    } else if t == 35 {
        Some(PhysKeyCode::PageUp)
    } else if t == 36 {
        Some(PhysKeyCode::Return)
    } else if t == 37 {
        Some(PhysKeyCode::ShiftLeft)
    } else if t == 38 {
        Some(PhysKeyCode::ShiftRight)
    } else if t == 39 {
        Some(PhysKeyCode::Space)
    } else if t == 40 {
        Some(PhysKeyCode::Tab)
    } else if t == 41 {
        Some(PhysKeyCode::UpArrow)
    } else if t == 42 {
        Some(PhysKeyCode::PrintScreen)
    } else if t == 43 {
        Some(PhysKeyCode::ScrollLock)
    } else if t == 44 {
        Some(PhysKeyCode::Pause)
    } else if t == 45 {
        Some(PhysKeyCode::NumLock)
    } else if t == 46 {
        Some(PhysKeyCode::BackQuote)
    } else if t == 47 {
        Some(PhysKeyCode::Num1)
    } else if t == 48 {
        Some(PhysKeyCode::Num2)
    } else if t == 49 {
        Some(PhysKeyCode::Num3)
    } else if t == 50 {
        Some(PhysKeyCode::Num4)
    } else if t == 51 {
        Some(PhysKeyCode::Num5)
    } else if t == 52 {
        Some(PhysKeyCode::Num6)
    } else if t == 53 {
        Some(PhysKeyCode::Num7)
    } else if t == 54 {
        Some(PhysKeyCode::Num8)
    } else if t == 55 {
        Some(PhysKeyCode::Num9)
    } else if t == 56 {
        Some(PhysKeyCode::Num0)
    } else if t == 57 {
        Some(PhysKeyCode::Minus)
    } else if t == 58 {
        Some(PhysKeyCode::Equal)
    } else if t == 59 {
        Some(PhysKeyCode::KeyQ)
    } else if t == 60 {
        Some(PhysKeyCode::KeyW)
    } else if t == 61 {
        Some(PhysKeyCode::KeyE)
    } else if t == 62 {
        Some(PhysKeyCode::KeyR)
    } else if t == 63 {
        Some(PhysKeyCode::KeyT)
    } else if t == 64 {
        Some(PhysKeyCode::KeyY)
    } else if t == 65 {
        Some(PhysKeyCode::KeyU)
    } else if t == 66 {
        Some(PhysKeyCode::KeyI)
    } else if t == 67 {
        Some(PhysKeyCode::KeyO)
    } else if t == 68 {
        Some(PhysKeyCode::KeyP)
    } else if t == 69 {
        Some(PhysKeyCode::LeftBracket)
    } else if t == 70 {
        Some(PhysKeyCode::RightBracket)
    } else if t == 71 {
        Some(PhysKeyCode::KeyA)
    } else if t == 72 {
        Some(PhysKeyCode::KeyS)
    } else if t == 73 {
        Some(PhysKeyCode::KeyD)
    } else if t == 74 {
        Some(PhysKeyCode::KeyF)
    } else if t == 75 {
        Some(PhysKeyCode::KeyG)
    } else if t == 76 {
        Some(PhysKeyCode::KeyH)
    } else if t == 77 {
        Some(PhysKeyCode::KeyJ)
    } else if t == 78 {
        Some(PhysKeyCode::KeyK)
    } else if t == 79 {
        Some(PhysKeyCode::KeyL)
    } else if t == 80 {
        Some(PhysKeyCode::SemiColon)
    } else if t == 81 {
        Some(PhysKeyCode::Quote)
    } else if t == 82 {
        Some(PhysKeyCode::BackSlash)
    } else if t == 83 {
        Some(PhysKeyCode::KeyZ)
    } else if t == 84 {
        Some(PhysKeyCode::KeyX)
    } else if t == 85 {
        Some(PhysKeyCode::KeyC)
    } else if t == 86 {
        Some(PhysKeyCode::KeyV)
    } else if t == 87 {
        Some(PhysKeyCode::KeyB)
    } else if t == 88 {
        Some(PhysKeyCode::KeyN)
    } else if t == 89 {
        Some(PhysKeyCode::KeyM)
    } else if t == 90 {
        Some(PhysKeyCode::Comma)
    } else if t == 91 {
        Some(PhysKeyCode::Dot)
    } else if t == 92 {
        Some(PhysKeyCode::Slash)
    } else if t == 93 {
        Some(PhysKeyCode::Insert)
    } else if t == 94 {
        Some(PhysKeyCode::KpReturn)
    } else if t == 95 {
        Some(PhysKeyCode::KpMinus)
    } else if t == 96 {
        Some(PhysKeyCode::KpPlus)
    } else if t == 97 {
        Some(PhysKeyCode::KpMultiply)
    } else if t == 98 {
        Some(PhysKeyCode::KpDivide)
    } else if t == 99 {
        Some(PhysKeyCode::KpDecimal)
    } else if t == 100 {
        Some(PhysKeyCode::Kp0)
    } else if t == 101 {
        Some(PhysKeyCode::Kp1)
    } else if t == 102 {
        Some(PhysKeyCode::Kp2)
    } else if t == 103 {
        Some(PhysKeyCode::Kp3)
    } else if t == 104 {
        Some(PhysKeyCode::Kp4)
    } else if t == 105 {
        Some(PhysKeyCode::Kp5)
    } else if t == 106 {
        Some(PhysKeyCode::Kp6)
    } else if t == 107 {
        Some(PhysKeyCode::Kp7)
    } else if t == 108 {
        Some(PhysKeyCode::Kp8)
    } else if t == 109 {
        Some(PhysKeyCode::Kp9)
    } else if t == 110 {
        Some(PhysKeyCode::Function)
    } else if t == 111 {
        Some(PhysKeyCode::Help)
    } else if t == 112 {
        Some(PhysKeyCode::RightArrow)
    } else if t == 113 {
        Some(PhysKeyCode::KpDelete)
    } else if t == 114 {
        Some(PhysKeyCode::VolumeDown)
    } else if t == 115 {
        Some(PhysKeyCode::VolumeUp)
    } else if t == 116 {
        Some(PhysKeyCode::VolumeMute)
    } else if t == 117 {
        Some(PhysKeyCode::Menu)
    } else {
        None
    }
}

/// Every physical key is recovered from its tag.
pub proof fn lemma_phys_tag_inverse(p: PhysKeyCode)
    ensures
        phys_of_tag(phys_tag(p)) == Some(p),
        phys_tag(p) < PHYS_KEY_COUNT,
{
}

/// Only the tags below the number of keys name a key.
pub proof fn lemma_phys_of_tag_some(t: u32)
    ensures
        phys_of_tag(t) is Some <==> t < PHYS_KEY_COUNT,
        phys_of_tag(t) matches Some(p) ==> phys_tag(p) == t,
{
}

impl PhysKeyCode {
    /// The wire tag of this key.
    pub fn tag(&self) -> (r: u32)
        ensures
            r == phys_tag(*self),
    {
        match self {
            PhysKeyCode::AltLeft => 0,
            PhysKeyCode::AltRight => 1,
            PhysKeyCode::ControlLeft => 2,
            PhysKeyCode::ControlRight => 3,
            PhysKeyCode::Backspace => 4,
            PhysKeyCode::CapsLock => 5,
            PhysKeyCode::Delete => 6,
            PhysKeyCode::DownArrow => 7,
            PhysKeyCode::End => 8,
            PhysKeyCode::Escape => 9,
            PhysKeyCode::F1 => 10,
            PhysKeyCode::F3 => 11,
            PhysKeyCode::F4 => 12,
            PhysKeyCode::F5 => 13,
            PhysKeyCode::F6 => 14,
            PhysKeyCode::F7 => 15,
            PhysKeyCode::F8 => 16,
            PhysKeyCode::F9 => 17,
            PhysKeyCode::F10 => 18,
            PhysKeyCode::F11 => 19,
            PhysKeyCode::F12 => 20,
            PhysKeyCode::F13 => 21,
            PhysKeyCode::F14 => 22,
            PhysKeyCode::F15 => 23,
            PhysKeyCode::F16 => 24,
            PhysKeyCode::F17 => 25,
            PhysKeyCode::F18 => 26,
            PhysKeyCode::F19 => 27,
            PhysKeyCode::F2 => 28,
            PhysKeyCode::F20 => 29,
            PhysKeyCode::Home => 30,
            PhysKeyCode::LeftArrow => 31,
            PhysKeyCode::MetaLeft => 32,
            PhysKeyCode::MetaRight => 33,
            PhysKeyCode::PageDown => 34,
            PhysKeyCode::PageUp => 35,
            PhysKeyCode::Return => 36,
            PhysKeyCode::ShiftLeft => 37,
            PhysKeyCode::ShiftRight => 38,
            PhysKeyCode::Space => 39,
            PhysKeyCode::Tab => 40,
            PhysKeyCode::UpArrow => 41,
            PhysKeyCode::PrintScreen => 42,
            PhysKeyCode::ScrollLock => 43,
            PhysKeyCode::Pause => 44,
            PhysKeyCode::NumLock => 45,
            PhysKeyCode::BackQuote => 46,
            PhysKeyCode::Num1 => 47,
            PhysKeyCode::Num2 => 48,
            PhysKeyCode::Num3 => 49,
            PhysKeyCode::Num4 => 50,
            PhysKeyCode::Num5 => 51,
            PhysKeyCode::Num6 => 52,
            PhysKeyCode::Num7 => 53,
            PhysKeyCode::Num8 => 54,
            PhysKeyCode::Num9 => 55,
            PhysKeyCode::Num0 => 56,
            PhysKeyCode::Minus => 57,
            PhysKeyCode::Equal => 58,
            PhysKeyCode::KeyQ => 59,
            PhysKeyCode::KeyW => 60,
            PhysKeyCode::KeyE => 61,
            PhysKeyCode::KeyR => 62,
            PhysKeyCode::KeyT => 63,
            PhysKeyCode::KeyY => 64,
            PhysKeyCode::KeyU => 65,
            PhysKeyCode::KeyI => 66,
            PhysKeyCode::KeyO => 67,
            PhysKeyCode::KeyP => 68,
            PhysKeyCode::LeftBracket => 69,
            PhysKeyCode::RightBracket => 70,
            PhysKeyCode::KeyA => 71,
            PhysKeyCode::KeyS => 72,
            PhysKeyCode::KeyD => 73,
            PhysKeyCode::KeyF => 74,
            PhysKeyCode::KeyG => 75,
            PhysKeyCode::KeyH => 76,
            PhysKeyCode::KeyJ => 77,
            PhysKeyCode::KeyK => 78,
            PhysKeyCode::KeyL => 79,
            PhysKeyCode::SemiColon => 80,
            PhysKeyCode::Quote => 81,
            PhysKeyCode::BackSlash => 82,
            PhysKeyCode::KeyZ => 83,
            PhysKeyCode::KeyX => 84,
            PhysKeyCode::KeyC => 85,
            PhysKeyCode::KeyV => 86,
            PhysKeyCode::KeyB => 87,
            PhysKeyCode::KeyN => 88,
            PhysKeyCode::KeyM => 89,
            PhysKeyCode::Comma => 90,
            PhysKeyCode::Dot => 91,
            PhysKeyCode::Slash => 92,
            PhysKeyCode::Insert => 93,
            PhysKeyCode::KpReturn => 94,
            PhysKeyCode::KpMinus => 95,
            PhysKeyCode::KpPlus => 96,
            PhysKeyCode::KpMultiply => 97,
            PhysKeyCode::KpDivide => 98,
            PhysKeyCode::KpDecimal => 99,
            PhysKeyCode::Kp0 => 100,
            PhysKeyCode::Kp1 => 101,
            PhysKeyCode::Kp2 => 102,
            PhysKeyCode::Kp3 => 103,
            PhysKeyCode::Kp4 => 104,
            PhysKeyCode::Kp5 => 105,
            PhysKeyCode::Kp6 => 106,
            PhysKeyCode::Kp7 => 107,
            PhysKeyCode::Kp8 => 108,
            PhysKeyCode::Kp9 => 109,
            PhysKeyCode::Function => 110,
            PhysKeyCode::Help => 111,
            PhysKeyCode::RightArrow => 112,
            PhysKeyCode::KpDelete => 113,
            PhysKeyCode::VolumeDown => 114,
            PhysKeyCode::VolumeUp => 115,
            PhysKeyCode::VolumeMute => 116,
            PhysKeyCode::Menu => 117,
        }
    }

    /// The key with wire tag `t`, or `None` for an unknown tag.
    pub fn from_tag(t: u32) -> (r: Option<PhysKeyCode>)
        ensures
            r == phys_of_tag(t),
    {
        if t == 0 {
            Some(PhysKeyCode::AltLeft)
        } else if t == 1 {
            Some(PhysKeyCode::AltRight)
        } else if t == 2 {
            Some(PhysKeyCode::ControlLeft)
        } else if t == 3 {
            Some(PhysKeyCode::ControlRight)
        } else if t == 4 {
            Some(PhysKeyCode::Backspace)
        } else if t == 5 {
            Some(PhysKeyCode::CapsLock)
        } else if t == 6 {
            Some(PhysKeyCode::Delete)
        } else if t == 7 {
            Some(PhysKeyCode::DownArrow)
        } else if t == 8 {
            Some(PhysKeyCode::End)
        } else if t == 9 {
            Some(PhysKeyCode::Escape)
        } else if t == 10 {
            Some(PhysKeyCode::F1)
        } else if t == 11 {
            Some(PhysKeyCode::F3)
        } else if t == 12 {
            Some(PhysKeyCode::F4)
        } else if t == 13 {
            Some(PhysKeyCode::F5)
        } else if t == 14 {
            Some(PhysKeyCode::F6)
        } else if t == 15 {
            Some(PhysKeyCode::F7)
        } else if t == 16 {
            Some(PhysKeyCode::F8)
        } else if t == 17 {
            Some(PhysKeyCode::F9)
        } else if t == 18 {
            Some(PhysKeyCode::F10)
        } else if t == 19 {
            Some(PhysKeyCode::F11)
        } else if t == 20 {
            Some(PhysKeyCode::F12)
        } else if t == 21 {
            Some(PhysKeyCode::F13)
        } else if t == 22 {
            Some(PhysKeyCode::F14)
        } else if t == 23 {
            Some(PhysKeyCode::F15)
        } else if t == 24 {
            Some(PhysKeyCode::F16)
        } else if t == 25 {
            Some(PhysKeyCode::F17)
        } else if t == 26 {
            Some(PhysKeyCode::F18)
        } else if t == 27 {
            Some(PhysKeyCode::F19)
        } else if t == 28 {
            Some(PhysKeyCode::F2)
        } else if t == 29 {
            Some(PhysKeyCode::F20)
        } else if t == 30 {
            Some(PhysKeyCode::Home)
        } else if t == 31 {
            Some(PhysKeyCode::LeftArrow)
        } else if t == 32 {
            Some(PhysKeyCode::MetaLeft)
        } else if t == 33 {
            Some(PhysKeyCode::MetaRight)
        } else if t == 34 {
            Some(PhysKeyCode::PageDown)
        } else if t == 35 {
            Some(PhysKeyCode::PageUp)
        } else if t == 36 {
            Some(PhysKeyCode::Return)
        } else if t == 37 {
            Some(PhysKeyCode::ShiftLeft)
        } else if t == 38 {
            Some(PhysKeyCode::ShiftRight)
        } else if t == 39 {
            Some(PhysKeyCode::Space)
        } else if t == 40 {
            Some(PhysKeyCode::Tab)
        } else if t == 41 {
            Some(PhysKeyCode::UpArrow)
        } else if t == 42 {
            Some(PhysKeyCode::PrintScreen)
        } else if t == 43 {
            Some(PhysKeyCode::ScrollLock)
        } else if t == 44 {
            Some(PhysKeyCode::Pause)
        } else if t == 45 {
            Some(PhysKeyCode::NumLock)
        } else if t == 46 {
            Some(PhysKeyCode::BackQuote)
        } else if t == 47 {
            Some(PhysKeyCode::Num1)
        } else if t == 48 {
            Some(PhysKeyCode::Num2)
        } else if t == 49 {
            Some(PhysKeyCode::Num3)
        } else if t == 50 {
            Some(PhysKeyCode::Num4)
        } else if t == 51 {
            Some(PhysKeyCode::Num5)
        } else if t == 52 {
            Some(PhysKeyCode::Num6)
        } else if t == 53 {
            Some(PhysKeyCode::Num7)
        } else if t == 54 {
            Some(PhysKeyCode::Num8)
        } else if t == 55 {
            Some(PhysKeyCode::Num9)
        } else if t == 56 {
            Some(PhysKeyCode::Num0)
        } else if t == 57 {
            Some(PhysKeyCode::Minus)
        } else if t == 58 {
            Some(PhysKeyCode::Equal)
        } else if t == 59 {
            Some(PhysKeyCode::KeyQ)
        } else if t == 60 {
            Some(PhysKeyCode::KeyW)
        } else if t == 61 {
            Some(PhysKeyCode::KeyE)
        } else if t == 62 {
            Some(PhysKeyCode::KeyR)
        } else if t == 63 {
            Some(PhysKeyCode::KeyT)
        } else if t == 64 {
            Some(PhysKeyCode::KeyY)
        } else if t == 65 {
            Some(PhysKeyCode::KeyU)
        } else if t == 66 {
            Some(PhysKeyCode::KeyI)
        } else if t == 67 {
            Some(PhysKeyCode::KeyO)
        } else if t == 68 {
            Some(PhysKeyCode::KeyP)
        } else if t == 69 {
            Some(PhysKeyCode::LeftBracket)
        } else if t == 70 {
            Some(PhysKeyCode::RightBracket)
        } else if t == 71 {
            Some(PhysKeyCode::KeyA)
        } else if t == 72 {
            Some(PhysKeyCode::KeyS)
        } else if t == 73 {
            Some(PhysKeyCode::KeyD)
        } else if t == 74 {
            Some(PhysKeyCode::KeyF)
        } else if t == 75 {
            Some(PhysKeyCode::KeyG)
        } else if t == 76 {
            Some(PhysKeyCode::KeyH)
        } else if t == 77 {
            Some(PhysKeyCode::KeyJ)
        } else if t == 78 {
            Some(PhysKeyCode::KeyK)
        } else if t == 79 {
            Some(PhysKeyCode::KeyL)
        } else if t == 80 {
            Some(PhysKeyCode::SemiColon)
        } else if t == 81 {
            Some(PhysKeyCode::Quote)
        } else if t == 82 {
            Some(PhysKeyCode::BackSlash)
        } else if t == 83 {
            Some(PhysKeyCode::KeyZ)
        } else if t == 84 {
            Some(PhysKeyCode::KeyX)
        } else if t == 85 {
            Some(PhysKeyCode::KeyC)
        } else if t == 86 {
            Some(PhysKeyCode::KeyV)
        } else if t == 87 {
            Some(PhysKeyCode::KeyB)
        } else if t == 88 {
            Some(PhysKeyCode::KeyN)
        } else if t == 89 {
            Some(PhysKeyCode::KeyM)
        } else if t == 90 {
            Some(PhysKeyCode::Comma)
        } else if t == 91 {
            Some(PhysKeyCode::Dot)
        } else if t == 92 {
            Some(PhysKeyCode::Slash)
        } else if t == 93 {
            Some(PhysKeyCode::Insert)
        } else if t == 94 {
            Some(PhysKeyCode::KpReturn)
        } else if t == 95 {
            Some(PhysKeyCode::KpMinus)
        } else if t == 96 {
            Some(PhysKeyCode::KpPlus)
        } else if t == 97 {
            Some(PhysKeyCode::KpMultiply)
        } else if t == 98 {
            Some(PhysKeyCode::KpDivide)
        } else if t == 99 {
            Some(PhysKeyCode::KpDecimal)
        } else if t == 100 {
            Some(PhysKeyCode::Kp0)
        } else if t == 101 {
            Some(PhysKeyCode::Kp1)
        } else if t == 102 {
            Some(PhysKeyCode::Kp2)
        } else if t == 103 {
            Some(PhysKeyCode::Kp3)
        } else if t == 104 {
            Some(PhysKeyCode::Kp4)
        } else if t == 105 {
            Some(PhysKeyCode::Kp5)
        } else if t == 106 {
            Some(PhysKeyCode::Kp6)
        } else if t == 107 {
            Some(PhysKeyCode::Kp7)
        } else if t == 108 {
            Some(PhysKeyCode::Kp8)
        } else if t == 109 {
            Some(PhysKeyCode::Kp9)
        } else if t == 110 {
            Some(PhysKeyCode::Function)
        } else if t == 111 {
            Some(PhysKeyCode::Help)
        } else if t == 112 {
            Some(PhysKeyCode::RightArrow)
        } else if t == 113 {
            Some(PhysKeyCode::KpDelete)
        } else if t == 114 {
            Some(PhysKeyCode::VolumeDown)
        } else if t == 115 {
            Some(PhysKeyCode::VolumeUp)
        } else if t == 116 {
            Some(PhysKeyCode::VolumeMute)
        } else if t == 117 {
            Some(PhysKeyCode::Menu)
        } else {
            None
        }
    }

    /// Whether the key is one of the side-specific Shift, Control, Meta or Alt keys.
    pub open spec fn spec_is_modifier(self) -> bool {
        match self {
            PhysKeyCode::ShiftLeft | PhysKeyCode::ShiftRight | PhysKeyCode::ControlLeft
            | PhysKeyCode::ControlRight | PhysKeyCode::MetaLeft | PhysKeyCode::MetaRight
            | PhysKeyCode::AltLeft | PhysKeyCode::AltRight => true,
            _ => false,
        }
    }

    /// Return true if the key represents a modifier key.
    pub fn is_modifier(&self) -> (r: bool)
        ensures
            r == self.spec_is_modifier(),
    {
        match self {
            PhysKeyCode::ShiftLeft | PhysKeyCode::ShiftRight | PhysKeyCode::ControlLeft
            | PhysKeyCode::ControlRight | PhysKeyCode::MetaLeft | PhysKeyCode::MetaRight
            | PhysKeyCode::AltLeft | PhysKeyCode::AltRight => true,
            _ => false,
        }
    }
}

/// The Windows scan-code table, one entry per physical key, in table order.
pub open spec fn win_scan_table() -> Seq<(u32, PhysKeyCode)> {
    seq![
        (0x01u32, PhysKeyCode::Escape),
        (0x3Bu32, PhysKeyCode::F1),
        (0x3Cu32, PhysKeyCode::F2),
        (0x3Du32, PhysKeyCode::F3),
        (0x3Eu32, PhysKeyCode::F4),
        (0x3Fu32, PhysKeyCode::F5),
        (0x40u32, PhysKeyCode::F6),
        (0x41u32, PhysKeyCode::F7),
        (0x42u32, PhysKeyCode::F8),
        (0x43u32, PhysKeyCode::F9),
        (0x44u32, PhysKeyCode::F10),
        (0x57u32, PhysKeyCode::F11),
        (0x58u32, PhysKeyCode::F12),
        (0xE037u32, PhysKeyCode::PrintScreen),
        (0x46u32, PhysKeyCode::ScrollLock),
        (0x0000u32, PhysKeyCode::Pause),
        (0x29u32, PhysKeyCode::BackQuote),
        (0x02u32, PhysKeyCode::Num1),
        (0x03u32, PhysKeyCode::Num2),
        (0x04u32, PhysKeyCode::Num3),
        (0x05u32, PhysKeyCode::Num4),
        (0x06u32, PhysKeyCode::Num5),
        (0x07u32, PhysKeyCode::Num6),
        (0x08u32, PhysKeyCode::Num7),
        (0x09u32, PhysKeyCode::Num8),
        (0x0Au32, PhysKeyCode::Num9),
        (0x0Bu32, PhysKeyCode::Num0),
        (0x0Cu32, PhysKeyCode::Minus),
        (0x0Du32, PhysKeyCode::Equal),
        (0x2Bu32, PhysKeyCode::BackSlash),
        (0x0Eu32, PhysKeyCode::Backspace),
        (0xE052u32, PhysKeyCode::Insert),
        (0xE047u32, PhysKeyCode::Home),
        (0xE049u32, PhysKeyCode::PageUp),
        (0x45u32, PhysKeyCode::NumLock),
        (0xE035u32, PhysKeyCode::KpDivide),
        (0x37u32, PhysKeyCode::KpMultiply),
        (0x4Au32, PhysKeyCode::KpMinus),
        (0x0Fu32, PhysKeyCode::Tab),
        (0x10u32, PhysKeyCode::KeyQ),
        (0x11u32, PhysKeyCode::KeyW),
        (0x12u32, PhysKeyCode::KeyE),
        (0x13u32, PhysKeyCode::KeyR),
        (0x14u32, PhysKeyCode::KeyT),
        (0x15u32, PhysKeyCode::KeyY),
        (0x16u32, PhysKeyCode::KeyU),
        (0x17u32, PhysKeyCode::KeyI),
        (0x18u32, PhysKeyCode::KeyO),
        (0x19u32, PhysKeyCode::KeyP),
        (0x1Au32, PhysKeyCode::LeftBracket),
        (0x1Bu32, PhysKeyCode::RightBracket),
        (0xE053u32, PhysKeyCode::Delete),
        (0xE04Fu32, PhysKeyCode::End),
        (0xE051u32, PhysKeyCode::PageDown),
        (0x47u32, PhysKeyCode::Kp7),
        (0x48u32, PhysKeyCode::Kp8),
        (0x49u32, PhysKeyCode::Kp9),
        (0x4Eu32, PhysKeyCode::KpPlus),
        (0x3Au32, PhysKeyCode::CapsLock),
        (0x1Eu32, PhysKeyCode::KeyA),
        (0x1Fu32, PhysKeyCode::KeyS),
        (0x20u32, PhysKeyCode::KeyD),
        (0x21u32, PhysKeyCode::KeyF),
        (0x22u32, PhysKeyCode::KeyG),
        (0x23u32, PhysKeyCode::KeyH),
        (0x24u32, PhysKeyCode::KeyJ),
        (0x25u32, PhysKeyCode::KeyK),
        (0x26u32, PhysKeyCode::KeyL),
        (0x27u32, PhysKeyCode::SemiColon),
        (0x28u32, PhysKeyCode::Quote),
        (0x1Cu32, PhysKeyCode::Return),
        (0x4Bu32, PhysKeyCode::Kp4),
        (0x4Cu32, PhysKeyCode::Kp5),
        (0x4Du32, PhysKeyCode::Kp6),
        (0x2Au32, PhysKeyCode::ShiftLeft),
        (0x2Cu32, PhysKeyCode::KeyZ),
        (0x2Du32, PhysKeyCode::KeyX),
        (0x2Eu32, PhysKeyCode::KeyC),
        (0x2Fu32, PhysKeyCode::KeyV),
        (0x30u32, PhysKeyCode::KeyB),
        (0x31u32, PhysKeyCode::KeyN),
        (0x32u32, PhysKeyCode::KeyM),
        (0x33u32, PhysKeyCode::Comma),
        (0x34u32, PhysKeyCode::Dot),
        (0x35u32, PhysKeyCode::Slash),
        (0x36u32, PhysKeyCode::ShiftRight),
        (0xE048u32, PhysKeyCode::UpArrow),
        (0x4Fu32, PhysKeyCode::Kp1),
        (0x50u32, PhysKeyCode::Kp2),
        (0x51u32, PhysKeyCode::Kp3),
        (0xE01Cu32, PhysKeyCode::KpReturn),
        (0x1Du32, PhysKeyCode::ControlLeft),
        (0x38u32, PhysKeyCode::AltLeft),
        (0x39u32, PhysKeyCode::Space),
        (0xE038u32, PhysKeyCode::AltRight),
        (0xE01Du32, PhysKeyCode::ControlRight),
        (0xE04Bu32, PhysKeyCode::LeftArrow),
        (0xE050u32, PhysKeyCode::DownArrow),
        (0xE04Du32, PhysKeyCode::RightArrow),
        (0x52u32, PhysKeyCode::Kp0),
        (0xE053u32, PhysKeyCode::KpDelete),
        (0xE05Bu32, PhysKeyCode::MetaLeft),
        (0xE05Cu32, PhysKeyCode::MetaRight),
        (0xE020u32, PhysKeyCode::VolumeMute),
        (0xE02Eu32, PhysKeyCode::VolumeDown),
        (0xE030u32, PhysKeyCode::VolumeUp),
        (0xE05Du32, PhysKeyCode::Menu),
        (0x53u32, PhysKeyCode::KpDecimal),
        (0x0000u32, PhysKeyCode::Help),
    ]
}

/// The Windows scan-code table as pairs `(scan code, physical key)`.
pub fn win_scan_pairs() -> (r: Vec<(u32, PhysKeyCode)>)
    ensures
        r@ == win_scan_table(),
{
    let r: Vec<(u32, PhysKeyCode)> = vec![
        (0x01u32, PhysKeyCode::Escape),
        (0x3Bu32, PhysKeyCode::F1),
        (0x3Cu32, PhysKeyCode::F2),
        (0x3Du32, PhysKeyCode::F3),
        (0x3Eu32, PhysKeyCode::F4),
        (0x3Fu32, PhysKeyCode::F5),
        (0x40u32, PhysKeyCode::F6),
        (0x41u32, PhysKeyCode::F7),
        (0x42u32, PhysKeyCode::F8),
        (0x43u32, PhysKeyCode::F9),
        (0x44u32, PhysKeyCode::F10),
        (0x57u32, PhysKeyCode::F11),
        (0x58u32, PhysKeyCode::F12),
        (0xE037u32, PhysKeyCode::PrintScreen),
        (0x46u32, PhysKeyCode::ScrollLock),
        (0x0000u32, PhysKeyCode::Pause),
        (0x29u32, PhysKeyCode::BackQuote),
        (0x02u32, PhysKeyCode::Num1),
        (0x03u32, PhysKeyCode::Num2),
        (0x04u32, PhysKeyCode::Num3),
        (0x05u32, PhysKeyCode::Num4),
        (0x06u32, PhysKeyCode::Num5),
        (0x07u32, PhysKeyCode::Num6),
        (0x08u32, PhysKeyCode::Num7),
        (0x09u32, PhysKeyCode::Num8),
        (0x0Au32, PhysKeyCode::Num9),
        (0x0Bu32, PhysKeyCode::Num0),
        (0x0Cu32, PhysKeyCode::Minus),
        (0x0Du32, PhysKeyCode::Equal),
        (0x2Bu32, PhysKeyCode::BackSlash),
        (0x0Eu32, PhysKeyCode::Backspace),
        (0xE052u32, PhysKeyCode::Insert),
        (0xE047u32, PhysKeyCode::Home),
        (0xE049u32, PhysKeyCode::PageUp),
        (0x45u32, PhysKeyCode::NumLock),
        (0xE035u32, PhysKeyCode::KpDivide),
        (0x37u32, PhysKeyCode::KpMultiply),
        (0x4Au32, PhysKeyCode::KpMinus),
        (0x0Fu32, PhysKeyCode::Tab),
        (0x10u32, PhysKeyCode::KeyQ),
        (0x11u32, PhysKeyCode::KeyW),
        (0x12u32, PhysKeyCode::KeyE),
        (0x13u32, PhysKeyCode::KeyR),
        (0x14u32, PhysKeyCode::KeyT),
        (0x15u32, PhysKeyCode::KeyY),
        (0x16u32, PhysKeyCode::KeyU),
        (0x17u32, PhysKeyCode::KeyI),
        (0x18u32, PhysKeyCode::KeyO),
        (0x19u32, PhysKeyCode::KeyP),
        (0x1Au32, PhysKeyCode::LeftBracket),
        (0x1Bu32, PhysKeyCode::RightBracket),
        (0xE053u32, PhysKeyCode::Delete),
        (0xE04Fu32, PhysKeyCode::End),
        (0xE051u32, PhysKeyCode::PageDown),
        (0x47u32, PhysKeyCode::Kp7),
        (0x48u32, PhysKeyCode::Kp8),
        (0x49u32, PhysKeyCode::Kp9),
        (0x4Eu32, PhysKeyCode::KpPlus),
        (0x3Au32, PhysKeyCode::CapsLock),
        (0x1Eu32, PhysKeyCode::KeyA),
        (0x1Fu32, PhysKeyCode::KeyS),
        (0x20u32, PhysKeyCode::KeyD),
        (0x21u32, PhysKeyCode::KeyF),
        (0x22u32, PhysKeyCode::KeyG),
        (0x23u32, PhysKeyCode::KeyH),
        (0x24u32, PhysKeyCode::KeyJ),
        (0x25u32, PhysKeyCode::KeyK),
        (0x26u32, PhysKeyCode::KeyL),
        (0x27u32, PhysKeyCode::SemiColon),
        (0x28u32, PhysKeyCode::Quote),
        (0x1Cu32, PhysKeyCode::Return),
        (0x4Bu32, PhysKeyCode::Kp4),
        (0x4Cu32, PhysKeyCode::Kp5),
        (0x4Du32, PhysKeyCode::Kp6),
        (0x2Au32, PhysKeyCode::ShiftLeft),
        (0x2Cu32, PhysKeyCode::KeyZ),
        (0x2Du32, PhysKeyCode::KeyX),
        (0x2Eu32, PhysKeyCode::KeyC),
        (0x2Fu32, PhysKeyCode::KeyV),
        (0x30u32, PhysKeyCode::KeyB),
        (0x31u32, PhysKeyCode::KeyN),
        (0x32u32, PhysKeyCode::KeyM),
        (0x33u32, PhysKeyCode::Comma),
        (0x34u32, PhysKeyCode::Dot),
        (0x35u32, PhysKeyCode::Slash),
        (0x36u32, PhysKeyCode::ShiftRight),
        (0xE048u32, PhysKeyCode::UpArrow),
        (0x4Fu32, PhysKeyCode::Kp1),
        (0x50u32, PhysKeyCode::Kp2),
        (0x51u32, PhysKeyCode::Kp3),
        (0xE01Cu32, PhysKeyCode::KpReturn),
        (0x1Du32, PhysKeyCode::ControlLeft),
        (0x38u32, PhysKeyCode::AltLeft),
        (0x39u32, PhysKeyCode::Space),
        (0xE038u32, PhysKeyCode::AltRight),
        (0xE01Du32, PhysKeyCode::ControlRight),
        (0xE04Bu32, PhysKeyCode::LeftArrow),
        (0xE050u32, PhysKeyCode::DownArrow),
        (0xE04Du32, PhysKeyCode::RightArrow),
        (0x52u32, PhysKeyCode::Kp0),
        (0xE053u32, PhysKeyCode::KpDelete),
        (0xE05Bu32, PhysKeyCode::MetaLeft),
        (0xE05Cu32, PhysKeyCode::MetaRight),
        (0xE020u32, PhysKeyCode::VolumeMute),
        (0xE02Eu32, PhysKeyCode::VolumeDown),
        (0xE030u32, PhysKeyCode::VolumeUp),
        (0xE05Du32, PhysKeyCode::Menu),
        (0x53u32, PhysKeyCode::KpDecimal),
        (0x0000u32, PhysKeyCode::Help),
    ];
    r
}

/// The X11 key names (as in the evdev keycodes file) of the physical keys,
/// in table order.
pub open spec fn x11_name_table() -> Seq<(Seq<char>, PhysKeyCode)> {
    seq![
        ("ESC"@, PhysKeyCode::Escape),
        ("FK01"@, PhysKeyCode::F1),
        ("FK02"@, PhysKeyCode::F2),
        ("FK03"@, PhysKeyCode::F3),
        ("FK04"@, PhysKeyCode::F4),
        ("FK05"@, PhysKeyCode::F5),
        ("FK06"@, PhysKeyCode::F6),
        ("FK07"@, PhysKeyCode::F7),
        ("FK08"@, PhysKeyCode::F8),
        ("FK09"@, PhysKeyCode::F9),
        ("FK10"@, PhysKeyCode::F10),
        ("FK11"@, PhysKeyCode::F11),
        ("FK12"@, PhysKeyCode::F12),
        ("PRSC"@, PhysKeyCode::PrintScreen),
        ("SCLK"@, PhysKeyCode::ScrollLock),
        ("PAUS"@, PhysKeyCode::Pause),
        ("TLDE"@, PhysKeyCode::BackQuote),
        ("AE01"@, PhysKeyCode::Num1),
        ("AE02"@, PhysKeyCode::Num2),
        ("AE03"@, PhysKeyCode::Num3),
        ("AE04"@, PhysKeyCode::Num4),
        ("AE05"@, PhysKeyCode::Num5),
        ("AE06"@, PhysKeyCode::Num6),
        ("AE07"@, PhysKeyCode::Num7),
        ("AE08"@, PhysKeyCode::Num8),
        ("AE09"@, PhysKeyCode::Num9),
        ("AE10"@, PhysKeyCode::Num0),
        ("AE11"@, PhysKeyCode::Minus),
        ("AE12"@, PhysKeyCode::Equal),
        ("BKSL"@, PhysKeyCode::BackSlash),
        ("BKSP"@, PhysKeyCode::Backspace),
        ("INS"@, PhysKeyCode::Insert),
        ("HOME"@, PhysKeyCode::Home),
        ("PGUP"@, PhysKeyCode::PageUp),
        ("NMLK"@, PhysKeyCode::NumLock),
        ("KPDV"@, PhysKeyCode::KpDivide),
        ("KPMU"@, PhysKeyCode::KpMultiply),
        ("KPSU"@, PhysKeyCode::KpMinus),
        ("TAB"@, PhysKeyCode::Tab),
        ("AD01"@, PhysKeyCode::KeyQ),
        ("AD02"@, PhysKeyCode::KeyW),
        ("AD03"@, PhysKeyCode::KeyE),
        ("AD04"@, PhysKeyCode::KeyR),
        ("AD05"@, PhysKeyCode::KeyT),
        ("AD06"@, PhysKeyCode::KeyY),
        ("AD07"@, PhysKeyCode::KeyU),
        ("AD08"@, PhysKeyCode::KeyI),
        ("AD09"@, PhysKeyCode::KeyO),
        ("AD10"@, PhysKeyCode::KeyP),
        ("AD11"@, PhysKeyCode::LeftBracket),
        ("AD12"@, PhysKeyCode::RightBracket),
        ("DELE"@, PhysKeyCode::Delete),
        ("END"@, PhysKeyCode::End),
        ("PGDN"@, PhysKeyCode::PageDown),
        ("KP7"@, PhysKeyCode::Kp7),
        ("KP8"@, PhysKeyCode::Kp8),
        ("KP9"@, PhysKeyCode::Kp9),
        ("KPAD"@, PhysKeyCode::KpPlus),
        ("CAPS"@, PhysKeyCode::CapsLock),
        ("AC01"@, PhysKeyCode::KeyA),
        ("AC02"@, PhysKeyCode::KeyS),
        ("AC03"@, PhysKeyCode::KeyD),
        ("AC04"@, PhysKeyCode::KeyF),
        ("AC05"@, PhysKeyCode::KeyG),
        ("AC06"@, PhysKeyCode::KeyH),
        ("AC07"@, PhysKeyCode::KeyJ),
        ("AC08"@, PhysKeyCode::KeyK),
        ("AC09"@, PhysKeyCode::KeyL),
        ("AC10"@, PhysKeyCode::SemiColon),
        ("AC11"@, PhysKeyCode::Quote),
        ("RTRN"@, PhysKeyCode::Return),
        ("KP4"@, PhysKeyCode::Kp4),
        ("KP5"@, PhysKeyCode::Kp5),
        ("KP6"@, PhysKeyCode::Kp6),
        ("LFSH"@, PhysKeyCode::ShiftLeft),
        ("AB01"@, PhysKeyCode::KeyZ),
        ("AB02"@, PhysKeyCode::KeyX),
        ("AB03"@, PhysKeyCode::KeyC),
        ("AB04"@, PhysKeyCode::KeyV),
        ("AB05"@, PhysKeyCode::KeyB),
        ("AB06"@, PhysKeyCode::KeyN),
        ("AB07"@, PhysKeyCode::KeyM),
        ("AB08"@, PhysKeyCode::Comma),
        ("AB09"@, PhysKeyCode::Dot),
        ("AB10"@, PhysKeyCode::Slash),
        ("RTSH"@, PhysKeyCode::ShiftRight),
        ("UP"@, PhysKeyCode::UpArrow),
        ("KP1"@, PhysKeyCode::Kp1),
        ("KP2"@, PhysKeyCode::Kp2),
        ("KP3"@, PhysKeyCode::Kp3),
        ("KPEN"@, PhysKeyCode::KpReturn),
        ("LCTL"@, PhysKeyCode::ControlLeft),
        ("LALT"@, PhysKeyCode::AltLeft),
        ("SPCE"@, PhysKeyCode::Space),
        ("RALT"@, PhysKeyCode::AltRight),
        ("RCTL"@, PhysKeyCode::ControlRight),
        ("LEFT"@, PhysKeyCode::LeftArrow),
        ("DOWN"@, PhysKeyCode::DownArrow),
        ("RGHT"@, PhysKeyCode::RightArrow),
        ("KP0"@, PhysKeyCode::Kp0),
        ("KPDL"@, PhysKeyCode::KpDelete),
        ("LWIN"@, PhysKeyCode::MetaLeft),
        ("RWIN"@, PhysKeyCode::MetaRight),
        ("MUTE"@, PhysKeyCode::VolumeMute),
        ("VOL-"@, PhysKeyCode::VolumeDown),
        ("VOL+"@, PhysKeyCode::VolumeUp),
        ("HELP"@, PhysKeyCode::Help),
    ]
}

/// The X11 key names of the physical keys, for looking their key codes up
/// in a keymap.
pub fn x11_key_names() -> (r: Vec<(&'static str, PhysKeyCode)>)
    ensures
        r@.len() == x11_name_table().len(),
        forall|i: int| 0 <= i < r@.len() ==> (#[trigger] r@[i]).0@ == x11_name_table()[i].0 && r@[i].1 == x11_name_table()[i].1,
{
    let r: Vec<(&'static str, PhysKeyCode)> = vec![
        ("ESC", PhysKeyCode::Escape),
        ("FK01", PhysKeyCode::F1),
        ("FK02", PhysKeyCode::F2),
        ("FK03", PhysKeyCode::F3),
        ("FK04", PhysKeyCode::F4),
        ("FK05", PhysKeyCode::F5),
        ("FK06", PhysKeyCode::F6),
        ("FK07", PhysKeyCode::F7),
        ("FK08", PhysKeyCode::F8),
        ("FK09", PhysKeyCode::F9),
        ("FK10", PhysKeyCode::F10),
        ("FK11", PhysKeyCode::F11),
        ("FK12", PhysKeyCode::F12),
        ("PRSC", PhysKeyCode::PrintScreen),
        ("SCLK", PhysKeyCode::ScrollLock),
        ("PAUS", PhysKeyCode::Pause),
        ("TLDE", PhysKeyCode::BackQuote),
        ("AE01", PhysKeyCode::Num1),
        ("AE02", PhysKeyCode::Num2),
        ("AE03", PhysKeyCode::Num3),
        ("AE04", PhysKeyCode::Num4),
        ("AE05", PhysKeyCode::Num5),
        ("AE06", PhysKeyCode::Num6),
        ("AE07", PhysKeyCode::Num7),
        ("AE08", PhysKeyCode::Num8),
        ("AE09", PhysKeyCode::Num9),
        ("AE10", PhysKeyCode::Num0),
        ("AE11", PhysKeyCode::Minus),
        ("AE12", PhysKeyCode::Equal),
        ("BKSL", PhysKeyCode::BackSlash),
        ("BKSP", PhysKeyCode::Backspace),
        ("INS", PhysKeyCode::Insert),
        ("HOME", PhysKeyCode::Home),
        ("PGUP", PhysKeyCode::PageUp),
        ("NMLK", PhysKeyCode::NumLock),
        ("KPDV", PhysKeyCode::KpDivide),
        ("KPMU", PhysKeyCode::KpMultiply),
        ("KPSU", PhysKeyCode::KpMinus),
        ("TAB", PhysKeyCode::Tab),
        ("AD01", PhysKeyCode::KeyQ),
        ("AD02", PhysKeyCode::KeyW),
        ("AD03", PhysKeyCode::KeyE),
        ("AD04", PhysKeyCode::KeyR),
        ("AD05", PhysKeyCode::KeyT),
        ("AD06", PhysKeyCode::KeyY),
        ("AD07", PhysKeyCode::KeyU),
        ("AD08", PhysKeyCode::KeyI),
        ("AD09", PhysKeyCode::KeyO),
        ("AD10", PhysKeyCode::KeyP),
        ("AD11", PhysKeyCode::LeftBracket),
        ("AD12", PhysKeyCode::RightBracket),
        ("DELE", PhysKeyCode::Delete),
        ("END", PhysKeyCode::End),
        ("PGDN", PhysKeyCode::PageDown),
        ("KP7", PhysKeyCode::Kp7),
        ("KP8", PhysKeyCode::Kp8),
        ("KP9", PhysKeyCode::Kp9),
        ("KPAD", PhysKeyCode::KpPlus),
        ("CAPS", PhysKeyCode::CapsLock),
        ("AC01", PhysKeyCode::KeyA),
        ("AC02", PhysKeyCode::KeyS),
        ("AC03", PhysKeyCode::KeyD),
        ("AC04", PhysKeyCode::KeyF),
        ("AC05", PhysKeyCode::KeyG),
        ("AC06", PhysKeyCode::KeyH),
        ("AC07", PhysKeyCode::KeyJ),
        ("AC08", PhysKeyCode::KeyK),
        ("AC09", PhysKeyCode::KeyL),
        ("AC10", PhysKeyCode::SemiColon),
        ("AC11", PhysKeyCode::Quote),
        ("RTRN", PhysKeyCode::Return),
        ("KP4", PhysKeyCode::Kp4),
        ("KP5", PhysKeyCode::Kp5),
        ("KP6", PhysKeyCode::Kp6),
        ("LFSH", PhysKeyCode::ShiftLeft),
        ("AB01", PhysKeyCode::KeyZ),
        ("AB02", PhysKeyCode::KeyX),
        ("AB03", PhysKeyCode::KeyC),
        ("AB04", PhysKeyCode::KeyV),
        ("AB05", PhysKeyCode::KeyB),
        ("AB06", PhysKeyCode::KeyN),
        ("AB07", PhysKeyCode::KeyM),
        ("AB08", PhysKeyCode::Comma),
        ("AB09", PhysKeyCode::Dot),
        ("AB10", PhysKeyCode::Slash),
        ("RTSH", PhysKeyCode::ShiftRight),
        ("UP", PhysKeyCode::UpArrow),
        ("KP1", PhysKeyCode::Kp1),
        ("KP2", PhysKeyCode::Kp2),
        ("KP3", PhysKeyCode::Kp3),
        ("KPEN", PhysKeyCode::KpReturn),
        ("LCTL", PhysKeyCode::ControlLeft),
        ("LALT", PhysKeyCode::AltLeft),
        ("SPCE", PhysKeyCode::Space),
        ("RALT", PhysKeyCode::AltRight),
        ("RCTL", PhysKeyCode::ControlRight),
        ("LEFT", PhysKeyCode::LeftArrow),
        ("DOWN", PhysKeyCode::DownArrow),
        ("RGHT", PhysKeyCode::RightArrow),
        ("KP0", PhysKeyCode::Kp0),
        ("KPDL", PhysKeyCode::KpDelete),
        ("LWIN", PhysKeyCode::MetaLeft),
        ("RWIN", PhysKeyCode::MetaRight),
        ("MUTE", PhysKeyCode::VolumeMute),
        ("VOL-", PhysKeyCode::VolumeDown),
        ("VOL+", PhysKeyCode::VolumeUp),
        ("HELP", PhysKeyCode::Help),
    ];
    r
}

} // verus!
