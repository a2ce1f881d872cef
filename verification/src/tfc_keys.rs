//! Keys of the platform injection context.

use vstd::prelude::*;
use crate::key_codes::KeyCode;
use crate::native_keys::TfcKey;

verus! {

/// The key of the injection context for `key`, where it has one.
pub open spec fn spec_tfc_key(key: KeyCode) -> Option<TfcKey> {
    match key {
        KeyCode::KEY_ESC => Some(TfcKey::Escape),
        KeyCode::KEY_1 => Some(TfcKey::N1),
        KeyCode::KEY_2 => Some(TfcKey::N2),
        KeyCode::KEY_3 => Some(TfcKey::N3),
        KeyCode::KEY_4 => Some(TfcKey::N4),
        KeyCode::KEY_5 => Some(TfcKey::N5),
        KeyCode::KEY_6 => Some(TfcKey::N6),
        KeyCode::KEY_7 => Some(TfcKey::N7),
        KeyCode::KEY_8 => Some(TfcKey::N8),
        KeyCode::KEY_9 => Some(TfcKey::N9),
        KeyCode::KEY_10 => Some(TfcKey::N0),
        KeyCode::KEY_MINUS => Some(TfcKey::Minus),
        KeyCode::KEY_EQUAL => Some(TfcKey::Equal),
        KeyCode::KEY_BACKSPACE => Some(TfcKey::DeleteOrBackspace),
        KeyCode::KEY_TAB => Some(TfcKey::Tab),
        KeyCode::KEY_Q => Some(TfcKey::Q),
        KeyCode::KEY_W => Some(TfcKey::W),
        KeyCode::KEY_E => Some(TfcKey::E),
        KeyCode::KEY_R => Some(TfcKey::R),
        KeyCode::KEY_T => Some(TfcKey::T),
        KeyCode::KEY_Y => Some(TfcKey::Y),
        KeyCode::KEY_U => Some(TfcKey::U),
        KeyCode::KEY_I => Some(TfcKey::I),
        KeyCode::KEY_O => Some(TfcKey::O),
        KeyCode::KEY_P => Some(TfcKey::P),
        KeyCode::KEY_LEFTBRACE => Some(TfcKey::LeftBracket),
        KeyCode::KEY_RIGHTBRACE => Some(TfcKey::RightBracket),
        KeyCode::KEY_ENTER => Some(TfcKey::ReturnOrEnter),
        KeyCode::KEY_LEFTCTRL => Some(TfcKey::Control),
        KeyCode::KEY_A => Some(TfcKey::A),
        KeyCode::KEY_S => Some(TfcKey::S),
        KeyCode::KEY_D => Some(TfcKey::D),
        KeyCode::KEY_F => Some(TfcKey::F),
        KeyCode::KEY_G => Some(TfcKey::G),
        KeyCode::KEY_H => Some(TfcKey::H),
        KeyCode::KEY_J => Some(TfcKey::J),
        KeyCode::KEY_K => Some(TfcKey::K),
        KeyCode::KEY_L => Some(TfcKey::L),
        KeyCode::KEY_SEMICOLON => Some(TfcKey::Semicolon),
        KeyCode::KEY_APOSTROPHE => Some(TfcKey::Quote),
        KeyCode::KEY_GRAVE => Some(TfcKey::Grave),
        KeyCode::KEY_LEFTSHIFT => Some(TfcKey::Shift),
        KeyCode::KEY_BACKSLASH => Some(TfcKey::Backslash),
        KeyCode::KEY_Z => Some(TfcKey::Z),
        KeyCode::KEY_X => Some(TfcKey::X),
        KeyCode::KEY_C => Some(TfcKey::C),
        KeyCode::KEY_V => Some(TfcKey::V),
        KeyCode::KEY_B => Some(TfcKey::B),
        KeyCode::KEY_N => Some(TfcKey::N),
        KeyCode::KEY_M => Some(TfcKey::M),
        KeyCode::KEY_COMMA => Some(TfcKey::Comma),
        KeyCode::KEY_DOT => Some(TfcKey::Period),
        KeyCode::KEY_SLASH => Some(TfcKey::Slash),
        KeyCode::KEY_RIGHTSHIFT => Some(TfcKey::RightShift),
        KeyCode::KEY_LEFTALT => Some(TfcKey::Alt),
        KeyCode::KEY_SPACE => Some(TfcKey::Space),
        KeyCode::KEY_CAPSLOCK => Some(TfcKey::CapsLock),
        KeyCode::KEY_F1 => Some(TfcKey::F1),
        KeyCode::KEY_F2 => Some(TfcKey::F2),
        KeyCode::KEY_F3 => Some(TfcKey::F3),
        KeyCode::KEY_F4 => Some(TfcKey::F4),
        KeyCode::KEY_F5 => Some(TfcKey::F5),
        KeyCode::KEY_F6 => Some(TfcKey::F6),
        KeyCode::KEY_F7 => Some(TfcKey::F7),
        KeyCode::KEY_F8 => Some(TfcKey::F8),
        KeyCode::KEY_F9 => Some(TfcKey::F9),
        KeyCode::KEY_F10 => Some(TfcKey::F10),
        KeyCode::KEY_KP7 => Some(TfcKey::Numpad7),
        KeyCode::KEY_KP8 => Some(TfcKey::Numpad8),
        KeyCode::KEY_KP9 => Some(TfcKey::Numpad9),
        KeyCode::KEY_KPMINUS => Some(TfcKey::NumpadMinus),
        KeyCode::KEY_KP4 => Some(TfcKey::Numpad4),
        KeyCode::KEY_KP5 => Some(TfcKey::Numpad5),
        KeyCode::KEY_KP6 => Some(TfcKey::Numpad6),
        KeyCode::KEY_KPPLUS => Some(TfcKey::NumpadPlus),
        KeyCode::KEY_KP1 => Some(TfcKey::Numpad1),
        KeyCode::KEY_KP2 => Some(TfcKey::Numpad2),
        KeyCode::KEY_KP3 => Some(TfcKey::Numpad3),
        KeyCode::KEY_KP0 => Some(TfcKey::Numpad0),
        KeyCode::KEY_KPDOT => Some(TfcKey::NumpadDecimal),
        KeyCode::KEY_F11 => Some(TfcKey::F11),
        KeyCode::KEY_F12 => Some(TfcKey::F12),
        KeyCode::KEY_KPENTER => Some(TfcKey::NumpadEnter),
        KeyCode::KEY_RIGHTCTRL => Some(TfcKey::RightControl),
        KeyCode::KEY_KPSLASH => Some(TfcKey::NumpadDivide),
        KeyCode::KEY_RIGHTALT => Some(TfcKey::RightAlt),
        KeyCode::KEY_HOME => Some(TfcKey::Home),
        KeyCode::KEY_UP => Some(TfcKey::UpArrow),
        KeyCode::KEY_PAGEUP => Some(TfcKey::PageUp),
        KeyCode::KEY_LEFT => Some(TfcKey::LeftArrow),
        KeyCode::KEY_RIGHT => Some(TfcKey::RightArrow),
        KeyCode::KEY_END => Some(TfcKey::End),
        KeyCode::KEY_DOWN => Some(TfcKey::DownArrow),
        KeyCode::KEY_PAGEDOWN => Some(TfcKey::PageDown),
        KeyCode::KEY_INSERT => Some(TfcKey::Insert),
        KeyCode::KEY_DELETE => Some(TfcKey::ForwardDelete),
        KeyCode::KEY_MUTE => Some(TfcKey::Mute),
        KeyCode::KEY_VOLUMEDOWN => Some(TfcKey::VolumeDown),
        KeyCode::KEY_VOLUMEUP => Some(TfcKey::VolumeUp),
        KeyCode::KEY_KPEQUAL => Some(TfcKey::NumpadEquals),
        KeyCode::KEY_KPPLUSMINUS => Some(TfcKey::NumpadMinus),
        KeyCode::KEY_LEFTMETA => Some(TfcKey::Meta),
        KeyCode::KEY_RIGHTMETA => Some(TfcKey::RightMeta),
        _ => None,
    }
}

/// Looks up the key of the injection context for `key`.
pub fn tfc_key(key: KeyCode) -> (r: Option<TfcKey>)
    ensures
        r == spec_tfc_key(key),
{
    match key {
        KeyCode::KEY_ESC => Some(TfcKey::Escape),
        KeyCode::KEY_1 => Some(TfcKey::N1),
        KeyCode::KEY_2 => Some(TfcKey::N2),
        KeyCode::KEY_3 => Some(TfcKey::N3),
        KeyCode::KEY_4 => Some(TfcKey::N4),
        KeyCode::KEY_5 => Some(TfcKey::N5),
        KeyCode::KEY_6 => Some(TfcKey::N6),
        KeyCode::KEY_7 => Some(TfcKey::N7),
        KeyCode::KEY_8 => Some(TfcKey::N8),
        KeyCode::KEY_9 => Some(TfcKey::N9),
        KeyCode::KEY_10 => Some(TfcKey::N0),
        KeyCode::KEY_MINUS => Some(TfcKey::Minus),
        KeyCode::KEY_EQUAL => Some(TfcKey::Equal),
        KeyCode::KEY_BACKSPACE => Some(TfcKey::DeleteOrBackspace),
        KeyCode::KEY_TAB => Some(TfcKey::Tab),
        KeyCode::KEY_Q => Some(TfcKey::Q),
        KeyCode::KEY_W => Some(TfcKey::W),
        KeyCode::KEY_E => Some(TfcKey::E),
        KeyCode::KEY_R => Some(TfcKey::R),
        KeyCode::KEY_T => Some(TfcKey::T),
        KeyCode::KEY_Y => Some(TfcKey::Y),
        KeyCode::KEY_U => Some(TfcKey::U),
        KeyCode::KEY_I => Some(TfcKey::I),
        KeyCode::KEY_O => Some(TfcKey::O),
        KeyCode::KEY_P => Some(TfcKey::P),
        KeyCode::KEY_LEFTBRACE => Some(TfcKey::LeftBracket),
        KeyCode::KEY_RIGHTBRACE => Some(TfcKey::RightBracket),
        KeyCode::KEY_ENTER => Some(TfcKey::ReturnOrEnter),
        KeyCode::KEY_LEFTCTRL => Some(TfcKey::Control),
        KeyCode::KEY_A => Some(TfcKey::A),
        KeyCode::KEY_S => Some(TfcKey::S),
        KeyCode::KEY_D => Some(TfcKey::D),
        KeyCode::KEY_F => Some(TfcKey::F),
        KeyCode::KEY_G => Some(TfcKey::G),
        KeyCode::KEY_H => Some(TfcKey::H),
        KeyCode::KEY_J => Some(TfcKey::J),
        KeyCode::KEY_K => Some(TfcKey::K),
        KeyCode::KEY_L => Some(TfcKey::L),
        KeyCode::KEY_SEMICOLON => Some(TfcKey::Semicolon),
        KeyCode::KEY_APOSTROPHE => Some(TfcKey::Quote),
        KeyCode::KEY_GRAVE => Some(TfcKey::Grave),
        KeyCode::KEY_LEFTSHIFT => Some(TfcKey::Shift),
        KeyCode::KEY_BACKSLASH => Some(TfcKey::Backslash),
        KeyCode::KEY_Z => Some(TfcKey::Z),
        KeyCode::KEY_X => Some(TfcKey::X),
        KeyCode::KEY_C => Some(TfcKey::C),
        KeyCode::KEY_V => Some(TfcKey::V),
        KeyCode::KEY_B => Some(TfcKey::B),
        KeyCode::KEY_N => Some(TfcKey::N),
        KeyCode::KEY_M => Some(TfcKey::M),
        KeyCode::KEY_COMMA => Some(TfcKey::Comma),
        KeyCode::KEY_DOT => Some(TfcKey::Period),
        KeyCode::KEY_SLASH => Some(TfcKey::Slash),
        KeyCode::KEY_RIGHTSHIFT => Some(TfcKey::RightShift),
        KeyCode::KEY_LEFTALT => Some(TfcKey::Alt),
        KeyCode::KEY_SPACE => Some(TfcKey::Space),
        KeyCode::KEY_CAPSLOCK => Some(TfcKey::CapsLock),
        KeyCode::KEY_F1 => Some(TfcKey::F1),
        KeyCode::KEY_F2 => Some(TfcKey::F2),
        KeyCode::KEY_F3 => Some(TfcKey::F3),
        KeyCode::KEY_F4 => Some(TfcKey::F4),
        KeyCode::KEY_F5 => Some(TfcKey::F5),
        KeyCode::KEY_F6 => Some(TfcKey::F6),
        KeyCode::KEY_F7 => Some(TfcKey::F7),
        KeyCode::KEY_F8 => Some(TfcKey::F8),
        KeyCode::KEY_F9 => Some(TfcKey::F9),
        KeyCode::KEY_F10 => Some(TfcKey::F10),
        KeyCode::KEY_KP7 => Some(TfcKey::Numpad7),
        KeyCode::KEY_KP8 => Some(TfcKey::Numpad8),
        KeyCode::KEY_KP9 => Some(TfcKey::Numpad9),
        KeyCode::KEY_KPMINUS => Some(TfcKey::NumpadMinus),
        KeyCode::KEY_KP4 => Some(TfcKey::Numpad4),
        KeyCode::KEY_KP5 => Some(TfcKey::Numpad5),
        KeyCode::KEY_KP6 => Some(TfcKey::Numpad6),
        KeyCode::KEY_KPPLUS => Some(TfcKey::NumpadPlus),
        KeyCode::KEY_KP1 => Some(TfcKey::Numpad1),
        KeyCode::KEY_KP2 => Some(TfcKey::Numpad2),
        KeyCode::KEY_KP3 => Some(TfcKey::Numpad3),
        KeyCode::KEY_KP0 => Some(TfcKey::Numpad0),
        KeyCode::KEY_KPDOT => Some(TfcKey::NumpadDecimal),
        KeyCode::KEY_F11 => Some(TfcKey::F11),
        KeyCode::KEY_F12 => Some(TfcKey::F12),
        KeyCode::KEY_KPENTER => Some(TfcKey::NumpadEnter),
        KeyCode::KEY_RIGHTCTRL => Some(TfcKey::RightControl),
        KeyCode::KEY_KPSLASH => Some(TfcKey::NumpadDivide),
        KeyCode::KEY_RIGHTALT => Some(TfcKey::RightAlt),
        KeyCode::KEY_HOME => Some(TfcKey::Home),
        KeyCode::KEY_UP => Some(TfcKey::UpArrow),
        KeyCode::KEY_PAGEUP => Some(TfcKey::PageUp),
        KeyCode::KEY_LEFT => Some(TfcKey::LeftArrow),
        KeyCode::KEY_RIGHT => Some(TfcKey::RightArrow),
        KeyCode::KEY_END => Some(TfcKey::End),
        KeyCode::KEY_DOWN => Some(TfcKey::DownArrow),
        KeyCode::KEY_PAGEDOWN => Some(TfcKey::PageDown),
        KeyCode::KEY_INSERT => Some(TfcKey::Insert),
        KeyCode::KEY_DELETE => Some(TfcKey::ForwardDelete),
        KeyCode::KEY_MUTE => Some(TfcKey::Mute),
        KeyCode::KEY_VOLUMEDOWN => Some(TfcKey::VolumeDown),
        KeyCode::KEY_VOLUMEUP => Some(TfcKey::VolumeUp),
        KeyCode::KEY_KPEQUAL => Some(TfcKey::NumpadEquals),
        KeyCode::KEY_KPPLUSMINUS => Some(TfcKey::NumpadMinus),
        KeyCode::KEY_LEFTMETA => Some(TfcKey::Meta),
        KeyCode::KEY_RIGHTMETA => Some(TfcKey::RightMeta),
        _ => None,
    }
}

} // verus!
