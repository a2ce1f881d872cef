//! Usage codes of the keys of the USB gadget keyboard.

use vstd::prelude::*;
use crate::native_keys::HidgKey;

verus! {

/// The usage code by which the gadget keyboard reports `key`.
pub open spec fn spec_usage_code(key: HidgKey) -> u8 {
    match key {
        HidgKey::Esc => 0x29,
        HidgKey::Num1 => 0x1e,
        HidgKey::Num2 => 0x1f,
        HidgKey::Num3 => 0x20,
        HidgKey::Num4 => 0x21,
        HidgKey::Num5 => 0x22,
        HidgKey::Num6 => 0x23,
        HidgKey::Num7 => 0x24,
        HidgKey::Num8 => 0x25,
        HidgKey::Num9 => 0x26,
        HidgKey::Num0 => 0x27,
        HidgKey::Minus => 0x2d,
        HidgKey::Equal => 0x2e,
        HidgKey::BackSpace => 0x2a,
        HidgKey::Tab => 0x2b,
        HidgKey::Q => 0x14,
        HidgKey::W => 0x1a,
        HidgKey::E => 0x08,
        HidgKey::R => 0x15,
        HidgKey::T => 0x17,
        HidgKey::Y => 0x1c,
        HidgKey::U => 0x18,
        HidgKey::I => 0x0c,
        HidgKey::O => 0x12,
        HidgKey::P => 0x13,
        HidgKey::LeftBrace => 0x2f,
        HidgKey::RightBrace => 0x30,
        HidgKey::Enter => 0x28,
        HidgKey::LeftCtrl => 0xe0,
        HidgKey::A => 0x04,
        HidgKey::S => 0x16,
        HidgKey::D => 0x07,
        HidgKey::F => 0x09,
        HidgKey::G => 0x0a,
        HidgKey::H => 0x0b,
        HidgKey::J => 0x0d,
        HidgKey::K => 0x0e,
        HidgKey::L => 0x0f,
        HidgKey::Semicolon => 0x33,
        HidgKey::Apostrophe => 0x34,
        HidgKey::Grave => 0x35,
        HidgKey::LeftShift => 0xe1,
        HidgKey::BackSlash => 0x31,
        HidgKey::Z => 0x1d,
        HidgKey::X => 0x1b,
        HidgKey::C => 0x06,
        HidgKey::V => 0x19,
        HidgKey::B => 0x05,
        HidgKey::N => 0x11,
        HidgKey::M => 0x10,
        HidgKey::Comma => 0x36,
        HidgKey::Dot => 0x37,
        HidgKey::Slash => 0x38,
        HidgKey::RightShift => 0xe5,
        HidgKey::LeftAlt => 0xe2,
        HidgKey::Space => 0x2c,
        HidgKey::CapsLock => 0x39,
        HidgKey::F1 => 0x3a,
        HidgKey::F2 => 0x3b,
        HidgKey::F3 => 0x3c,
        HidgKey::F4 => 0x3d,
        HidgKey::F5 => 0x3e,
        HidgKey::F6 => 0x3f,
        HidgKey::F7 => 0x40,
        HidgKey::F8 => 0x41,
        HidgKey::F9 => 0x42,
        HidgKey::F10 => 0x43,
        HidgKey::KeyPad7 => 0x5f,
        HidgKey::KeyPad8 => 0x60,
        HidgKey::KeyPad9 => 0x61,
        HidgKey::KeyPadMinus => 0x56,
        HidgKey::KeyPad4 => 0x5c,
        HidgKey::KeyPad5 => 0x5d,
        HidgKey::KeyPad6 => 0x5e,
        HidgKey::KeyPadPlus => 0x57,
        HidgKey::KeyPad1 => 0x59,
        HidgKey::KeyPad2 => 0x5a,
        HidgKey::KeyPad3 => 0x5b,
        HidgKey::KeyPad0 => 0x62,
        HidgKey::KeyPadDot => 0x63,
        HidgKey::F11 => 0x44,
        HidgKey::F12 => 0x45,
        HidgKey::KeyPadEnter => 0x58,
        HidgKey::RightCtrl => 0xe4,
        HidgKey::KeyPadSlash => 0x54,
        HidgKey::RightAlt => 0xe6,
        HidgKey::Home => 0x4a,
        HidgKey::Up => 0x52,
        HidgKey::PageUp => 0x4b,
        HidgKey::Left => 0x50,
        HidgKey::Right => 0x4f,
        HidgKey::End => 0x4d,
        HidgKey::Down => 0x51,
        HidgKey::PageDown => 0x4e,
        HidgKey::Insert => 0x49,
        HidgKey::Delete => 0x4c,
        HidgKey::Mute => 0x7f,
        HidgKey::VolumeDown => 0x81,
        HidgKey::VolumeUp => 0x80,
        HidgKey::KeyPadEqual => 0x67,
        HidgKey::LeftMeta => 0xe3,
        HidgKey::RightMeta => 0xe7,
    }
}

/// Whether `code` is the usage code of a key.
pub open spec fn is_usage_code(code: u8) -> bool {
    exists|key: HidgKey| spec_usage_code(key) == code
}

/// Whether `code` is the usage code of one of the eight modifier keys,
/// which a report holds as a mask and not in a slot.
pub open spec fn is_modifier_code(code: u8) -> bool {
    0xe0 <= code <= 0xe7
}

/// The usage code by which the gadget keyboard reports `key`.
pub fn usage_code(key: HidgKey) -> (r: u8)
    ensures
        r == spec_usage_code(key),
        is_usage_code(r),
        0 < r <= 0xe7,
{
    match key {
        HidgKey::Esc => 0x29,
        HidgKey::Num1 => 0x1e,
        HidgKey::Num2 => 0x1f,
        HidgKey::Num3 => 0x20,
        HidgKey::Num4 => 0x21,
        HidgKey::Num5 => 0x22,
        HidgKey::Num6 => 0x23,
        HidgKey::Num7 => 0x24,
        HidgKey::Num8 => 0x25,
        HidgKey::Num9 => 0x26,
        HidgKey::Num0 => 0x27,
        HidgKey::Minus => 0x2d,
        HidgKey::Equal => 0x2e,
        HidgKey::BackSpace => 0x2a,
        HidgKey::Tab => 0x2b,
        HidgKey::Q => 0x14,
        HidgKey::W => 0x1a,
        HidgKey::E => 0x08,
        HidgKey::R => 0x15,
        HidgKey::T => 0x17,
        HidgKey::Y => 0x1c,
        HidgKey::U => 0x18,
        HidgKey::I => 0x0c,
        HidgKey::O => 0x12,
        HidgKey::P => 0x13,
        HidgKey::LeftBrace => 0x2f,
        HidgKey::RightBrace => 0x30,
        HidgKey::Enter => 0x28,
        HidgKey::LeftCtrl => 0xe0,
        HidgKey::A => 0x04,
        HidgKey::S => 0x16,
        HidgKey::D => 0x07,
        HidgKey::F => 0x09,
        HidgKey::G => 0x0a,
        HidgKey::H => 0x0b,
        HidgKey::J => 0x0d,
        HidgKey::K => 0x0e,
        HidgKey::L => 0x0f,
        HidgKey::Semicolon => 0x33,
        HidgKey::Apostrophe => 0x34,
        HidgKey::Grave => 0x35,
        HidgKey::LeftShift => 0xe1,
        HidgKey::BackSlash => 0x31,
        HidgKey::Z => 0x1d,
        HidgKey::X => 0x1b,
        HidgKey::C => 0x06,
        HidgKey::V => 0x19,
        HidgKey::B => 0x05,
        HidgKey::N => 0x11,
        HidgKey::M => 0x10,
        HidgKey::Comma => 0x36,
        HidgKey::Dot => 0x37,
        HidgKey::Slash => 0x38,
        HidgKey::RightShift => 0xe5,
        HidgKey::LeftAlt => 0xe2,
        HidgKey::Space => 0x2c,
        HidgKey::CapsLock => 0x39,
        HidgKey::F1 => 0x3a,
        HidgKey::F2 => 0x3b,
        HidgKey::F3 => 0x3c,
        HidgKey::F4 => 0x3d,
        HidgKey::F5 => 0x3e,
        HidgKey::F6 => 0x3f,
        HidgKey::F7 => 0x40,
        HidgKey::F8 => 0x41,
        HidgKey::F9 => 0x42,
        HidgKey::F10 => 0x43,
        HidgKey::KeyPad7 => 0x5f,
        HidgKey::KeyPad8 => 0x60,
        HidgKey::KeyPad9 => 0x61,
        HidgKey::KeyPadMinus => 0x56,
        HidgKey::KeyPad4 => 0x5c,
        HidgKey::KeyPad5 => 0x5d,
        HidgKey::KeyPad6 => 0x5e,
        HidgKey::KeyPadPlus => 0x57,
        HidgKey::KeyPad1 => 0x59,
        HidgKey::KeyPad2 => 0x5a,
        HidgKey::KeyPad3 => 0x5b,
        HidgKey::KeyPad0 => 0x62,
        HidgKey::KeyPadDot => 0x63,
        HidgKey::F11 => 0x44,
        HidgKey::F12 => 0x45,
        HidgKey::KeyPadEnter => 0x58,
        HidgKey::RightCtrl => 0xe4,
        HidgKey::KeyPadSlash => 0x54,
        HidgKey::RightAlt => 0xe6,
        HidgKey::Home => 0x4a,
        HidgKey::Up => 0x52,
        HidgKey::PageUp => 0x4b,
        HidgKey::Left => 0x50,
        HidgKey::Right => 0x4f,
        HidgKey::End => 0x4d,
        HidgKey::Down => 0x51,
        HidgKey::PageDown => 0x4e,
        HidgKey::Insert => 0x49,
        HidgKey::Delete => 0x4c,
        HidgKey::Mute => 0x7f,
        HidgKey::VolumeDown => 0x81,
        HidgKey::VolumeUp => 0x80,
        HidgKey::KeyPadEqual => 0x67,
        HidgKey::LeftMeta => 0xe3,
        HidgKey::RightMeta => 0xe7,
    }
}

} // verus!
