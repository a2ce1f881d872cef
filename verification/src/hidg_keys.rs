//! Keys of the USB gadget keyboard.

use vstd::prelude::*;
use crate::key_codes::KeyCode;
use crate::native_keys::HidgKey;

verus! {

/// The key of the gadget keyboard for `key`, where it has one.
pub open spec fn spec_hidg_key(key: KeyCode) -> Option<HidgKey> {
    match key {
        KeyCode::KEY_ESC => Some(HidgKey::Esc),
        KeyCode::KEY_1 => Some(HidgKey::Num1),
        KeyCode::KEY_2 => Some(HidgKey::Num2),
        KeyCode::KEY_3 => Some(HidgKey::Num3),
        KeyCode::KEY_4 => Some(HidgKey::Num4),
        KeyCode::KEY_5 => Some(HidgKey::Num5),
        KeyCode::KEY_6 => Some(HidgKey::Num6),
        KeyCode::KEY_7 => Some(HidgKey::Num7),
        KeyCode::KEY_8 => Some(HidgKey::Num8),
        KeyCode::KEY_9 => Some(HidgKey::Num9),
        KeyCode::KEY_10 => Some(HidgKey::Num0),
        KeyCode::KEY_MINUS => Some(HidgKey::Minus),
        KeyCode::KEY_EQUAL => Some(HidgKey::Equal),
        KeyCode::KEY_BACKSPACE => Some(HidgKey::BackSpace),
        KeyCode::KEY_TAB => Some(HidgKey::Tab),
        KeyCode::KEY_Q => Some(HidgKey::Q),
        KeyCode::KEY_W => Some(HidgKey::W),
        KeyCode::KEY_E => Some(HidgKey::E),
        KeyCode::KEY_R => Some(HidgKey::R),
        KeyCode::KEY_T => Some(HidgKey::T),
        KeyCode::KEY_Y => Some(HidgKey::Y),
        KeyCode::KEY_U => Some(HidgKey::U),
        KeyCode::KEY_I => Some(HidgKey::I),
        KeyCode::KEY_O => Some(HidgKey::O),
        KeyCode::KEY_P => Some(HidgKey::P),
        KeyCode::KEY_LEFTBRACE => Some(HidgKey::LeftBrace),
        KeyCode::KEY_RIGHTBRACE => Some(HidgKey::RightBrace),
        KeyCode::KEY_ENTER => Some(HidgKey::Enter),
        KeyCode::KEY_LEFTCTRL => Some(HidgKey::LeftCtrl),
        KeyCode::KEY_A => Some(HidgKey::A),
        KeyCode::KEY_S => Some(HidgKey::S),
        KeyCode::KEY_D => Some(HidgKey::D),
        KeyCode::KEY_F => Some(HidgKey::F),
        KeyCode::KEY_G => Some(HidgKey::G),
        KeyCode::KEY_H => Some(HidgKey::H),
        KeyCode::KEY_J => Some(HidgKey::J),
        KeyCode::KEY_K => Some(HidgKey::K),
        KeyCode::KEY_L => Some(HidgKey::L),
        KeyCode::KEY_SEMICOLON => Some(HidgKey::Semicolon),
        KeyCode::KEY_APOSTROPHE => Some(HidgKey::Apostrophe),
        KeyCode::KEY_GRAVE => Some(HidgKey::Grave),
        KeyCode::KEY_LEFTSHIFT => Some(HidgKey::LeftShift),
        KeyCode::KEY_BACKSLASH => Some(HidgKey::BackSlash),
        KeyCode::KEY_Z => Some(HidgKey::Z),
        KeyCode::KEY_X => Some(HidgKey::X),
        KeyCode::KEY_C => Some(HidgKey::C),
        KeyCode::KEY_V => Some(HidgKey::V),
        KeyCode::KEY_B => Some(HidgKey::B),
        KeyCode::KEY_N => Some(HidgKey::N),
        KeyCode::KEY_M => Some(HidgKey::M),
        KeyCode::KEY_COMMA => Some(HidgKey::Comma),
        KeyCode::KEY_DOT => Some(HidgKey::Dot),
        KeyCode::KEY_SLASH => Some(HidgKey::Slash),
        KeyCode::KEY_RIGHTSHIFT => Some(HidgKey::RightShift),
        KeyCode::KEY_LEFTALT => Some(HidgKey::LeftAlt),
        KeyCode::KEY_SPACE => Some(HidgKey::Space),
        KeyCode::KEY_CAPSLOCK => Some(HidgKey::CapsLock),
        KeyCode::KEY_F1 => Some(HidgKey::F1),
        KeyCode::KEY_F2 => Some(HidgKey::F2),
        KeyCode::KEY_F3 => Some(HidgKey::F3),
        KeyCode::KEY_F4 => Some(HidgKey::F4),
        KeyCode::KEY_F5 => Some(HidgKey::F5),
        KeyCode::KEY_F6 => Some(HidgKey::F6),
        KeyCode::KEY_F7 => Some(HidgKey::F7),
        KeyCode::KEY_F8 => Some(HidgKey::F8),
        KeyCode::KEY_F9 => Some(HidgKey::F9),
        KeyCode::KEY_F10 => Some(HidgKey::F10),
        KeyCode::KEY_KP7 => Some(HidgKey::KeyPad7),
        KeyCode::KEY_KP8 => Some(HidgKey::KeyPad8),
        KeyCode::KEY_KP9 => Some(HidgKey::KeyPad9),
        KeyCode::KEY_KPMINUS => Some(HidgKey::KeyPadMinus),
        KeyCode::KEY_KP4 => Some(HidgKey::KeyPad4),
        KeyCode::KEY_KP5 => Some(HidgKey::KeyPad5),
        KeyCode::KEY_KP6 => Some(HidgKey::KeyPad6),
        KeyCode::KEY_KPPLUS => Some(HidgKey::KeyPadPlus),
        KeyCode::KEY_KP1 => Some(HidgKey::KeyPad1),
        KeyCode::KEY_KP2 => Some(HidgKey::KeyPad2),
        KeyCode::KEY_KP3 => Some(HidgKey::KeyPad3),
        KeyCode::KEY_KP0 => Some(HidgKey::KeyPad0),
        KeyCode::KEY_KPDOT => Some(HidgKey::KeyPadDot),
        KeyCode::KEY_F11 => Some(HidgKey::F11),
        KeyCode::KEY_F12 => Some(HidgKey::F12),
        KeyCode::KEY_KPENTER => Some(HidgKey::KeyPadEnter),
        KeyCode::KEY_RIGHTCTRL => Some(HidgKey::RightCtrl),
        KeyCode::KEY_KPSLASH => Some(HidgKey::KeyPadSlash),
        KeyCode::KEY_RIGHTALT => Some(HidgKey::RightAlt),
        KeyCode::KEY_HOME => Some(HidgKey::Home),
        KeyCode::KEY_UP => Some(HidgKey::Up),
        KeyCode::KEY_PAGEUP => Some(HidgKey::PageUp),
        KeyCode::KEY_LEFT => Some(HidgKey::Left),
        KeyCode::KEY_RIGHT => Some(HidgKey::Right),
        KeyCode::KEY_END => Some(HidgKey::End),
        KeyCode::KEY_DOWN => Some(HidgKey::Down),
        KeyCode::KEY_PAGEDOWN => Some(HidgKey::PageDown),
        KeyCode::KEY_INSERT => Some(HidgKey::Insert),
        KeyCode::KEY_DELETE => Some(HidgKey::Delete),
        KeyCode::KEY_MUTE => Some(HidgKey::Mute),
        KeyCode::KEY_VOLUMEDOWN => Some(HidgKey::VolumeDown),
        KeyCode::KEY_VOLUMEUP => Some(HidgKey::VolumeUp),
        KeyCode::KEY_KPEQUAL => Some(HidgKey::KeyPadEqual),
        KeyCode::KEY_KPPLUSMINUS => Some(HidgKey::KeyPadMinus),
        KeyCode::KEY_LEFTMETA => Some(HidgKey::LeftMeta),
        KeyCode::KEY_RIGHTMETA => Some(HidgKey::RightMeta),
        _ => None,
    }
}

/// Looks up the key of the gadget keyboard for `key`.
pub fn hidg_key(key: KeyCode) -> (r: Option<HidgKey>)
    ensures
        r == spec_hidg_key(key),
{
    match key {
        KeyCode::KEY_ESC => Some(HidgKey::Esc),
        KeyCode::KEY_1 => Some(HidgKey::Num1),
        KeyCode::KEY_2 => Some(HidgKey::Num2),
        KeyCode::KEY_3 => Some(HidgKey::Num3),
        KeyCode::KEY_4 => Some(HidgKey::Num4),
        KeyCode::KEY_5 => Some(HidgKey::Num5),
        KeyCode::KEY_6 => Some(HidgKey::Num6),
        KeyCode::KEY_7 => Some(HidgKey::Num7),
        KeyCode::KEY_8 => Some(HidgKey::Num8),
        KeyCode::KEY_9 => Some(HidgKey::Num9),
        KeyCode::KEY_10 => Some(HidgKey::Num0),
        KeyCode::KEY_MINUS => Some(HidgKey::Minus),
        KeyCode::KEY_EQUAL => Some(HidgKey::Equal),
        KeyCode::KEY_BACKSPACE => Some(HidgKey::BackSpace),
        KeyCode::KEY_TAB => Some(HidgKey::Tab),
        KeyCode::KEY_Q => Some(HidgKey::Q),
        KeyCode::KEY_W => Some(HidgKey::W),
        KeyCode::KEY_E => Some(HidgKey::E),
        KeyCode::KEY_R => Some(HidgKey::R),
        KeyCode::KEY_T => Some(HidgKey::T),
        KeyCode::KEY_Y => Some(HidgKey::Y),
        KeyCode::KEY_U => Some(HidgKey::U),
        KeyCode::KEY_I => Some(HidgKey::I),
        KeyCode::KEY_O => Some(HidgKey::O),
        KeyCode::KEY_P => Some(HidgKey::P),
        KeyCode::KEY_LEFTBRACE => Some(HidgKey::LeftBrace),
        KeyCode::KEY_RIGHTBRACE => Some(HidgKey::RightBrace),
        KeyCode::KEY_ENTER => Some(HidgKey::Enter),
        KeyCode::KEY_LEFTCTRL => Some(HidgKey::LeftCtrl),
        KeyCode::KEY_A => Some(HidgKey::A),
        KeyCode::KEY_S => Some(HidgKey::S),
        KeyCode::KEY_D => Some(HidgKey::D),
        KeyCode::KEY_F => Some(HidgKey::F),
        KeyCode::KEY_G => Some(HidgKey::G),
        KeyCode::KEY_H => Some(HidgKey::H),
        KeyCode::KEY_J => Some(HidgKey::J),
        KeyCode::KEY_K => Some(HidgKey::K),
        KeyCode::KEY_L => Some(HidgKey::L),
        KeyCode::KEY_SEMICOLON => Some(HidgKey::Semicolon),
        KeyCode::KEY_APOSTROPHE => Some(HidgKey::Apostrophe),
        KeyCode::KEY_GRAVE => Some(HidgKey::Grave),
        KeyCode::KEY_LEFTSHIFT => Some(HidgKey::LeftShift),
        KeyCode::KEY_BACKSLASH => Some(HidgKey::BackSlash),
        KeyCode::KEY_Z => Some(HidgKey::Z),
        KeyCode::KEY_X => Some(HidgKey::X),
        KeyCode::KEY_C => Some(HidgKey::C),
        KeyCode::KEY_V => Some(HidgKey::V),
        KeyCode::KEY_B => Some(HidgKey::B),
        KeyCode::KEY_N => Some(HidgKey::N),
        KeyCode::KEY_M => Some(HidgKey::M),
        KeyCode::KEY_COMMA => Some(HidgKey::Comma),
        KeyCode::KEY_DOT => Some(HidgKey::Dot),
        KeyCode::KEY_SLASH => Some(HidgKey::Slash),
        KeyCode::KEY_RIGHTSHIFT => Some(HidgKey::RightShift),
        KeyCode::KEY_LEFTALT => Some(HidgKey::LeftAlt),
        KeyCode::KEY_SPACE => Some(HidgKey::Space),
        KeyCode::KEY_CAPSLOCK => Some(HidgKey::CapsLock),
        KeyCode::KEY_F1 => Some(HidgKey::F1),
        KeyCode::KEY_F2 => Some(HidgKey::F2),
        KeyCode::KEY_F3 => Some(HidgKey::F3),
        KeyCode::KEY_F4 => Some(HidgKey::F4),
        KeyCode::KEY_F5 => Some(HidgKey::F5),
        KeyCode::KEY_F6 => Some(HidgKey::F6),
        KeyCode::KEY_F7 => Some(HidgKey::F7),
        KeyCode::KEY_F8 => Some(HidgKey::F8),
        KeyCode::KEY_F9 => Some(HidgKey::F9),
        KeyCode::KEY_F10 => Some(HidgKey::F10),
        KeyCode::KEY_KP7 => Some(HidgKey::KeyPad7),
        KeyCode::KEY_KP8 => Some(HidgKey::KeyPad8),
        KeyCode::KEY_KP9 => Some(HidgKey::KeyPad9),
        KeyCode::KEY_KPMINUS => Some(HidgKey::KeyPadMinus),
        KeyCode::KEY_KP4 => Some(HidgKey::KeyPad4),
        KeyCode::KEY_KP5 => Some(HidgKey::KeyPad5),
        KeyCode::KEY_KP6 => Some(HidgKey::KeyPad6),
        KeyCode::KEY_KPPLUS => Some(HidgKey::KeyPadPlus),
        KeyCode::KEY_KP1 => Some(HidgKey::KeyPad1),
        KeyCode::KEY_KP2 => Some(HidgKey::KeyPad2),
        KeyCode::KEY_KP3 => Some(HidgKey::KeyPad3),
        KeyCode::KEY_KP0 => Some(HidgKey::KeyPad0),
        KeyCode::KEY_KPDOT => Some(HidgKey::KeyPadDot),
        KeyCode::KEY_F11 => Some(HidgKey::F11),
        KeyCode::KEY_F12 => Some(HidgKey::F12),
        KeyCode::KEY_KPENTER => Some(HidgKey::KeyPadEnter),
        KeyCode::KEY_RIGHTCTRL => Some(HidgKey::RightCtrl),
        KeyCode::KEY_KPSLASH => Some(HidgKey::KeyPadSlash),
        KeyCode::KEY_RIGHTALT => Some(HidgKey::RightAlt),
        KeyCode::KEY_HOME => Some(HidgKey::Home),
        KeyCode::KEY_UP => Some(HidgKey::Up),
        KeyCode::KEY_PAGEUP => Some(HidgKey::PageUp),
        KeyCode::KEY_LEFT => Some(HidgKey::Left),
        KeyCode::KEY_RIGHT => Some(HidgKey::Right),
        KeyCode::KEY_END => Some(HidgKey::End),
        KeyCode::KEY_DOWN => Some(HidgKey::Down),
        KeyCode::KEY_PAGEDOWN => Some(HidgKey::PageDown),
        KeyCode::KEY_INSERT => Some(HidgKey::Insert),
        KeyCode::KEY_DELETE => Some(HidgKey::Delete),
        KeyCode::KEY_MUTE => Some(HidgKey::Mute),
        KeyCode::KEY_VOLUMEDOWN => Some(HidgKey::VolumeDown),
        KeyCode::KEY_VOLUMEUP => Some(HidgKey::VolumeUp),
        KeyCode::KEY_KPEQUAL => Some(HidgKey::KeyPadEqual),
        KeyCode::KEY_KPPLUSMINUS => Some(HidgKey::KeyPadMinus),
        KeyCode::KEY_LEFTMETA => Some(HidgKey::LeftMeta),
        KeyCode::KEY_RIGHTMETA => Some(HidgKey::RightMeta),
        _ => None,
    }
}

} // verus!
