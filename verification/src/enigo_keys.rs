//! Named keys of the desktop automation library.

use vstd::prelude::*;
use crate::key_codes::KeyCode;
use crate::native_keys::EnigoKey;

verus! {

/// The named key or character of the automation library for `key`, where it has one.
pub open spec fn spec_enigo_key(key: KeyCode) -> Option<EnigoKey> {
    match key {
        KeyCode::KEY_ESC => Some(EnigoKey::Escape),
        KeyCode::KEY_1 => Some(EnigoKey::Num1),
        KeyCode::KEY_2 => Some(EnigoKey::Num2),
        KeyCode::KEY_3 => Some(EnigoKey::Num3),
        KeyCode::KEY_4 => Some(EnigoKey::Num4),
        KeyCode::KEY_5 => Some(EnigoKey::Num5),
        KeyCode::KEY_6 => Some(EnigoKey::Num6),
        KeyCode::KEY_7 => Some(EnigoKey::Num7),
        KeyCode::KEY_8 => Some(EnigoKey::Num8),
        KeyCode::KEY_9 => Some(EnigoKey::Num9),
        KeyCode::KEY_10 => Some(EnigoKey::Num0),
        KeyCode::KEY_MINUS => Some(EnigoKey::OEMMinus),
        KeyCode::KEY_EQUAL => Some(EnigoKey::OEMNECEqual),
        KeyCode::KEY_BACKSPACE => Some(EnigoKey::Backspace),
        KeyCode::KEY_TAB => Some(EnigoKey::Tab),
        KeyCode::KEY_Q => Some(EnigoKey::Q),
        KeyCode::KEY_W => Some(EnigoKey::W),
        KeyCode::KEY_E => Some(EnigoKey::E),
        KeyCode::KEY_R => Some(EnigoKey::R),
        KeyCode::KEY_T => Some(EnigoKey::T),
        KeyCode::KEY_Y => Some(EnigoKey::Y),
        KeyCode::KEY_U => Some(EnigoKey::U),
        KeyCode::KEY_I => Some(EnigoKey::I),
        KeyCode::KEY_O => Some(EnigoKey::O),
        KeyCode::KEY_P => Some(EnigoKey::P),
        KeyCode::KEY_LEFTBRACE => Some(EnigoKey::Unicode('[')),
        KeyCode::KEY_RIGHTBRACE => Some(EnigoKey::Unicode(']')),
        KeyCode::KEY_ENTER => Some(EnigoKey::Return),
        KeyCode::KEY_LEFTCTRL => Some(EnigoKey::LControl),
        KeyCode::KEY_A => Some(EnigoKey::A),
        KeyCode::KEY_S => Some(EnigoKey::S),
        KeyCode::KEY_D => Some(EnigoKey::D),
        KeyCode::KEY_F => Some(EnigoKey::F),
        KeyCode::KEY_G => Some(EnigoKey::G),
        KeyCode::KEY_H => Some(EnigoKey::H),
        KeyCode::KEY_J => Some(EnigoKey::J),
        KeyCode::KEY_K => Some(EnigoKey::K),
        KeyCode::KEY_L => Some(EnigoKey::L),
        KeyCode::KEY_SEMICOLON => Some(EnigoKey::Unicode(';')),
        KeyCode::KEY_APOSTROPHE => Some(EnigoKey::Unicode('\'')),
        KeyCode::KEY_GRAVE => Some(EnigoKey::Unicode('`')),
        KeyCode::KEY_LEFTSHIFT => Some(EnigoKey::LShift),
        KeyCode::KEY_BACKSLASH => Some(EnigoKey::Unicode('\\')),
        KeyCode::KEY_Z => Some(EnigoKey::Z),
        KeyCode::KEY_X => Some(EnigoKey::X),
        KeyCode::KEY_C => Some(EnigoKey::C),
        KeyCode::KEY_V => Some(EnigoKey::V),
        KeyCode::KEY_B => Some(EnigoKey::B),
        KeyCode::KEY_N => Some(EnigoKey::N),
        KeyCode::KEY_M => Some(EnigoKey::M),
        KeyCode::KEY_COMMA => Some(EnigoKey::OEMComma),
        KeyCode::KEY_DOT => Some(EnigoKey::OEMPeriod),
        KeyCode::KEY_SLASH => Some(EnigoKey::Unicode('/')),
        KeyCode::KEY_RIGHTSHIFT => Some(EnigoKey::RShift),
        KeyCode::KEY_LEFTALT => Some(EnigoKey::Alt),
        KeyCode::KEY_SPACE => Some(EnigoKey::Space),
        KeyCode::KEY_CAPSLOCK => Some(EnigoKey::CapsLock),
        KeyCode::KEY_F1 => Some(EnigoKey::F1),
        KeyCode::KEY_F2 => Some(EnigoKey::F2),
        KeyCode::KEY_F3 => Some(EnigoKey::F3),
        KeyCode::KEY_F4 => Some(EnigoKey::F4),
        KeyCode::KEY_F5 => Some(EnigoKey::F5),
        KeyCode::KEY_F6 => Some(EnigoKey::F6),
        KeyCode::KEY_F7 => Some(EnigoKey::F7),
        KeyCode::KEY_F8 => Some(EnigoKey::F8),
        KeyCode::KEY_F9 => Some(EnigoKey::F9),
        KeyCode::KEY_F10 => Some(EnigoKey::F10),
        KeyCode::KEY_NUMLOCK => Some(EnigoKey::Numlock),
        KeyCode::KEY_KP7 => Some(EnigoKey::Numpad7),
        KeyCode::KEY_KP8 => Some(EnigoKey::Numpad8),
        KeyCode::KEY_KP9 => Some(EnigoKey::Numpad9),
        KeyCode::KEY_KPMINUS => Some(EnigoKey::OEMMinus),
        KeyCode::KEY_KP4 => Some(EnigoKey::Numpad4),
        KeyCode::KEY_KP5 => Some(EnigoKey::Numpad5),
        KeyCode::KEY_KP6 => Some(EnigoKey::Numpad6),
        KeyCode::KEY_KPPLUS => Some(EnigoKey::OEMPlus),
        KeyCode::KEY_KP1 => Some(EnigoKey::Numpad1),
        KeyCode::KEY_KP2 => Some(EnigoKey::Numpad2),
        KeyCode::KEY_KP3 => Some(EnigoKey::Numpad3),
        KeyCode::KEY_KP0 => Some(EnigoKey::Numpad0),
        KeyCode::KEY_F11 => Some(EnigoKey::F11),
        KeyCode::KEY_F12 => Some(EnigoKey::F12),
        KeyCode::KEY_RIGHTCTRL => Some(EnigoKey::RControl),
        KeyCode::KEY_UP => Some(EnigoKey::UpArrow),
        KeyCode::KEY_PAGEUP => Some(EnigoKey::PageUp),
        KeyCode::KEY_LEFT => Some(EnigoKey::LeftArrow),
        KeyCode::KEY_RIGHT => Some(EnigoKey::RightArrow),
        KeyCode::KEY_END => Some(EnigoKey::End),
        KeyCode::KEY_DOWN => Some(EnigoKey::DownArrow),
        KeyCode::KEY_PAGEDOWN => Some(EnigoKey::PageDown),
        KeyCode::KEY_INSERT => Some(EnigoKey::Insert),
        KeyCode::KEY_DELETE => Some(EnigoKey::Delete),
        KeyCode::KEY_LEFTMETA => Some(EnigoKey::LWin),
        KeyCode::KEY_RIGHTMETA => Some(EnigoKey::RWin),
        _ => None,
    }
}

/// Looks up the named key or character of the automation library for `key`.
pub fn enigo_key(key: KeyCode) -> (r: Option<EnigoKey>)
    ensures
        r == spec_enigo_key(key),
{
    match key {
        KeyCode::KEY_ESC => Some(EnigoKey::Escape),
        KeyCode::KEY_1 => Some(EnigoKey::Num1),
        KeyCode::KEY_2 => Some(EnigoKey::Num2),
        KeyCode::KEY_3 => Some(EnigoKey::Num3),
        KeyCode::KEY_4 => Some(EnigoKey::Num4),
        KeyCode::KEY_5 => Some(EnigoKey::Num5),
        KeyCode::KEY_6 => Some(EnigoKey::Num6),
        KeyCode::KEY_7 => Some(EnigoKey::Num7),
        KeyCode::KEY_8 => Some(EnigoKey::Num8),
        KeyCode::KEY_9 => Some(EnigoKey::Num9),
        KeyCode::KEY_10 => Some(EnigoKey::Num0),
        KeyCode::KEY_MINUS => Some(EnigoKey::OEMMinus),
        KeyCode::KEY_EQUAL => Some(EnigoKey::OEMNECEqual),
        KeyCode::KEY_BACKSPACE => Some(EnigoKey::Backspace),
        KeyCode::KEY_TAB => Some(EnigoKey::Tab),
        KeyCode::KEY_Q => Some(EnigoKey::Q),
        KeyCode::KEY_W => Some(EnigoKey::W),
        KeyCode::KEY_E => Some(EnigoKey::E),
        KeyCode::KEY_R => Some(EnigoKey::R),
        KeyCode::KEY_T => Some(EnigoKey::T),
        KeyCode::KEY_Y => Some(EnigoKey::Y),
        KeyCode::KEY_U => Some(EnigoKey::U),
        KeyCode::KEY_I => Some(EnigoKey::I),
        KeyCode::KEY_O => Some(EnigoKey::O),
        KeyCode::KEY_P => Some(EnigoKey::P),
        KeyCode::KEY_LEFTBRACE => Some(EnigoKey::Unicode('[')),
        KeyCode::KEY_RIGHTBRACE => Some(EnigoKey::Unicode(']')),
        KeyCode::KEY_ENTER => Some(EnigoKey::Return),
        KeyCode::KEY_LEFTCTRL => Some(EnigoKey::LControl),
        KeyCode::KEY_A => Some(EnigoKey::A),
        KeyCode::KEY_S => Some(EnigoKey::S),
        KeyCode::KEY_D => Some(EnigoKey::D),
        KeyCode::KEY_F => Some(EnigoKey::F),
        KeyCode::KEY_G => Some(EnigoKey::G),
        KeyCode::KEY_H => Some(EnigoKey::H),
        KeyCode::KEY_J => Some(EnigoKey::J),
        KeyCode::KEY_K => Some(EnigoKey::K),
        KeyCode::KEY_L => Some(EnigoKey::L),
        KeyCode::KEY_SEMICOLON => Some(EnigoKey::Unicode(';')),
        KeyCode::KEY_APOSTROPHE => Some(EnigoKey::Unicode('\'')),
        KeyCode::KEY_GRAVE => Some(EnigoKey::Unicode('`')),
        KeyCode::KEY_LEFTSHIFT => Some(EnigoKey::LShift),
        KeyCode::KEY_BACKSLASH => Some(EnigoKey::Unicode('\\')),
        KeyCode::KEY_Z => Some(EnigoKey::Z),
        KeyCode::KEY_X => Some(EnigoKey::X),
        KeyCode::KEY_C => Some(EnigoKey::C),
        KeyCode::KEY_V => Some(EnigoKey::V),
        KeyCode::KEY_B => Some(EnigoKey::B),
        KeyCode::KEY_N => Some(EnigoKey::N),
        KeyCode::KEY_M => Some(EnigoKey::M),
        KeyCode::KEY_COMMA => Some(EnigoKey::OEMComma),
        KeyCode::KEY_DOT => Some(EnigoKey::OEMPeriod),
        KeyCode::KEY_SLASH => Some(EnigoKey::Unicode('/')),
        KeyCode::KEY_RIGHTSHIFT => Some(EnigoKey::RShift),
        KeyCode::KEY_LEFTALT => Some(EnigoKey::Alt),
        KeyCode::KEY_SPACE => Some(EnigoKey::Space),
        KeyCode::KEY_CAPSLOCK => Some(EnigoKey::CapsLock),
        KeyCode::KEY_F1 => Some(EnigoKey::F1),
        KeyCode::KEY_F2 => Some(EnigoKey::F2),
        KeyCode::KEY_F3 => Some(EnigoKey::F3),
        KeyCode::KEY_F4 => Some(EnigoKey::F4),
        KeyCode::KEY_F5 => Some(EnigoKey::F5),
        KeyCode::KEY_F6 => Some(EnigoKey::F6),
        KeyCode::KEY_F7 => Some(EnigoKey::F7),
        KeyCode::KEY_F8 => Some(EnigoKey::F8),
        KeyCode::KEY_F9 => Some(EnigoKey::F9),
        KeyCode::KEY_F10 => Some(EnigoKey::F10),
        KeyCode::KEY_NUMLOCK => Some(EnigoKey::Numlock),
        KeyCode::KEY_KP7 => Some(EnigoKey::Numpad7),
        KeyCode::KEY_KP8 => Some(EnigoKey::Numpad8),
        KeyCode::KEY_KP9 => Some(EnigoKey::Numpad9),
        KeyCode::KEY_KPMINUS => Some(EnigoKey::OEMMinus),
        KeyCode::KEY_KP4 => Some(EnigoKey::Numpad4),
        KeyCode::KEY_KP5 => Some(EnigoKey::Numpad5),
        KeyCode::KEY_KP6 => Some(EnigoKey::Numpad6),
        KeyCode::KEY_KPPLUS => Some(EnigoKey::OEMPlus),
        KeyCode::KEY_KP1 => Some(EnigoKey::Numpad1),
        KeyCode::KEY_KP2 => Some(EnigoKey::Numpad2),
        KeyCode::KEY_KP3 => Some(EnigoKey::Numpad3),
        KeyCode::KEY_KP0 => Some(EnigoKey::Numpad0),
        KeyCode::KEY_F11 => Some(EnigoKey::F11),
        KeyCode::KEY_F12 => Some(EnigoKey::F12),
        KeyCode::KEY_RIGHTCTRL => Some(EnigoKey::RControl),
        KeyCode::KEY_UP => Some(EnigoKey::UpArrow),
        KeyCode::KEY_PAGEUP => Some(EnigoKey::PageUp),
        KeyCode::KEY_LEFT => Some(EnigoKey::LeftArrow),
        KeyCode::KEY_RIGHT => Some(EnigoKey::RightArrow),
        KeyCode::KEY_END => Some(EnigoKey::End),
        KeyCode::KEY_DOWN => Some(EnigoKey::DownArrow),
        KeyCode::KEY_PAGEDOWN => Some(EnigoKey::PageDown),
        KeyCode::KEY_INSERT => Some(EnigoKey::Insert),
        KeyCode::KEY_DELETE => Some(EnigoKey::Delete),
        KeyCode::KEY_LEFTMETA => Some(EnigoKey::LWin),
        KeyCode::KEY_RIGHTMETA => Some(EnigoKey::RWin),
        _ => None,
    }
}

} // verus!
