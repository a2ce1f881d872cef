use input_emulator::hidg_reports::{button_code, HidgReports, Outcome};
use input_emulator::hidg_usage::usage_code;
use input_emulator::native_keys::{EnigoKey, HidgKey, MouseButton, NativeInput, NativeKey};
use input_emulator::plan::Operation;

/// Every key of the gadget keyboard with the key of the device class that
/// it stands for.
fn gadget_keys() -> Vec<(HidgKey, hidg::Key)> {
    vec![
        (HidgKey::Esc, hidg::Key::Esc),
        (HidgKey::Num1, hidg::Key::Num1),
        (HidgKey::Num2, hidg::Key::Num2),
        (HidgKey::Num3, hidg::Key::Num3),
        (HidgKey::Num4, hidg::Key::Num4),
        (HidgKey::Num5, hidg::Key::Num5),
        (HidgKey::Num6, hidg::Key::Num6),
        (HidgKey::Num7, hidg::Key::Num7),
        (HidgKey::Num8, hidg::Key::Num8),
        (HidgKey::Num9, hidg::Key::Num9),
        (HidgKey::Num0, hidg::Key::Num0),
        (HidgKey::Minus, hidg::Key::Minus),
        (HidgKey::Equal, hidg::Key::Equal),
        (HidgKey::BackSpace, hidg::Key::BackSpace),
        (HidgKey::Tab, hidg::Key::Tab),
        (HidgKey::Q, hidg::Key::Q),
        (HidgKey::W, hidg::Key::W),
        (HidgKey::E, hidg::Key::E),
        (HidgKey::R, hidg::Key::R),
        (HidgKey::T, hidg::Key::T),
        (HidgKey::Y, hidg::Key::Y),
        (HidgKey::U, hidg::Key::U),
        (HidgKey::I, hidg::Key::I),
        (HidgKey::O, hidg::Key::O),
        (HidgKey::P, hidg::Key::P),
        (HidgKey::LeftBrace, hidg::Key::LeftBrace),
        (HidgKey::RightBrace, hidg::Key::RightBrace),
        (HidgKey::Enter, hidg::Key::Enter),
        (HidgKey::LeftCtrl, hidg::Key::LeftCtrl),
        (HidgKey::A, hidg::Key::A),
        (HidgKey::S, hidg::Key::S),
        (HidgKey::D, hidg::Key::D),
        (HidgKey::F, hidg::Key::F),
        (HidgKey::G, hidg::Key::G),
        (HidgKey::H, hidg::Key::H),
        (HidgKey::J, hidg::Key::J),
        (HidgKey::K, hidg::Key::K),
        (HidgKey::L, hidg::Key::L),
        (HidgKey::Semicolon, hidg::Key::Semicolon),
        (HidgKey::Apostrophe, hidg::Key::Apostrophe),
        (HidgKey::Grave, hidg::Key::Grave),
        (HidgKey::LeftShift, hidg::Key::LeftShift),
        (HidgKey::BackSlash, hidg::Key::BackSlash),
        (HidgKey::Z, hidg::Key::Z),
        (HidgKey::X, hidg::Key::X),
        (HidgKey::C, hidg::Key::C),
        (HidgKey::V, hidg::Key::V),
        (HidgKey::B, hidg::Key::B),
        (HidgKey::N, hidg::Key::N),
        (HidgKey::M, hidg::Key::M),
        (HidgKey::Comma, hidg::Key::Comma),
        (HidgKey::Dot, hidg::Key::Dot),
        (HidgKey::Slash, hidg::Key::Slash),
        (HidgKey::RightShift, hidg::Key::RightShift),
        (HidgKey::LeftAlt, hidg::Key::LeftAlt),
        (HidgKey::Space, hidg::Key::Space),
        (HidgKey::CapsLock, hidg::Key::CapsLock),
        (HidgKey::F1, hidg::Key::F1),
        (HidgKey::F2, hidg::Key::F2),
        (HidgKey::F3, hidg::Key::F3),
        (HidgKey::F4, hidg::Key::F4),
        (HidgKey::F5, hidg::Key::F5),
        (HidgKey::F6, hidg::Key::F6),
        (HidgKey::F7, hidg::Key::F7),
        (HidgKey::F8, hidg::Key::F8),
        (HidgKey::F9, hidg::Key::F9),
        (HidgKey::F10, hidg::Key::F10),
        (HidgKey::KeyPad7, hidg::Key::KeyPad7),
        (HidgKey::KeyPad8, hidg::Key::KeyPad8),
        (HidgKey::KeyPad9, hidg::Key::KeyPad9),
        (HidgKey::KeyPadMinus, hidg::Key::KeyPadMinus),
        (HidgKey::KeyPad4, hidg::Key::KeyPad4),
        (HidgKey::KeyPad5, hidg::Key::KeyPad5),
        (HidgKey::KeyPad6, hidg::Key::KeyPad6),
        (HidgKey::KeyPadPlus, hidg::Key::KeyPadPlus),
        (HidgKey::KeyPad1, hidg::Key::KeyPad1),
        (HidgKey::KeyPad2, hidg::Key::KeyPad2),
        (HidgKey::KeyPad3, hidg::Key::KeyPad3),
        (HidgKey::KeyPad0, hidg::Key::KeyPad0),
        (HidgKey::KeyPadDot, hidg::Key::KeyPadDot),
        (HidgKey::F11, hidg::Key::F11),
        (HidgKey::F12, hidg::Key::F12),
        (HidgKey::KeyPadEnter, hidg::Key::KeyPadEnter),
        (HidgKey::RightCtrl, hidg::Key::RightCtrl),
        (HidgKey::KeyPadSlash, hidg::Key::KeyPadSlash),
        (HidgKey::RightAlt, hidg::Key::RightAlt),
        (HidgKey::Home, hidg::Key::Home),
        (HidgKey::Up, hidg::Key::Up),
        (HidgKey::PageUp, hidg::Key::PageUp),
        (HidgKey::Left, hidg::Key::Left),
        (HidgKey::Right, hidg::Key::Right),
        (HidgKey::End, hidg::Key::End),
        (HidgKey::Down, hidg::Key::Down),
        (HidgKey::PageDown, hidg::Key::PageDown),
        (HidgKey::Insert, hidg::Key::Insert),
        (HidgKey::Delete, hidg::Key::Delete),
        (HidgKey::Mute, hidg::Key::Mute),
        (HidgKey::VolumeDown, hidg::Key::VolumeDown),
        (HidgKey::VolumeUp, hidg::Key::VolumeUp),
        (HidgKey::KeyPadEqual, hidg::Key::KeyPadEqual),
        (HidgKey::LeftMeta, hidg::Key::LeftMeta),
        (HidgKey::RightMeta, hidg::Key::RightMeta),
    ]
}

fn key(key: HidgKey) -> NativeInput {
    NativeInput::Key(NativeKey::Hidg(key))
}

#[test]
fn usage_codes_are_those_of_the_device_class() {
    let keys = gadget_keys();
    assert_eq!(keys.len(), 102);
    for (own, theirs) in keys {
        assert_eq!(usage_code(own), theirs as u8);
    }
    assert_eq!(usage_code(HidgKey::A), 0x04);
    assert_eq!(usage_code(HidgKey::RightMeta), 0xe7);
}

#[test]
fn button_codes_are_those_of_the_device_class() {
    assert_eq!(button_code(MouseButton::Left), hidg::Button::Primary as u8);
    assert_eq!(button_code(MouseButton::Right), hidg::Button::Secondary as u8);
    assert_eq!(button_code(MouseButton::Middle), hidg::Button::Tertiary as u8);
}

#[test]
fn new_reports_hold_nothing() {
    let reports = HidgReports::new();
    assert_eq!(reports.pointer(), (0, 0));
    assert_eq!(reports.wheel(), 0);
    assert_eq!(reports.buttons(), 0);
    assert_eq!(reports.keyboard_bytes(), vec![0u8; 8]);
    assert_eq!(reports.mouse_report().pointer(), (0, 0));
    assert_eq!(reports.keyboard_report().count_pressed(), 0);
}

#[test]
fn pointer_adds_up_in_the_report() {
    let mut reports = HidgReports::new();
    assert_eq!(reports.apply(Operation::Move(3, -2)), Outcome::SendMouse);
    assert_eq!(reports.pointer(), (3, -2));
    assert_eq!(reports.apply(Operation::MoveX(10)), Outcome::SendMouse);
    assert_eq!(reports.apply(Operation::MoveY(-5)), Outcome::SendMouse);
    assert_eq!(reports.pointer(), (13, -7));
    assert_eq!(reports.mouse_report().pointer(), (13, -7));
    assert_eq!(reports.wheel(), 0);
    assert_eq!(reports.buttons(), 0);
}

#[test]
fn pointer_that_would_leave_the_report_is_refused() {
    let mut reports = HidgReports::new();
    assert_eq!(reports.apply(Operation::MoveX(32767)), Outcome::SendMouse);
    assert_eq!(reports.apply(Operation::MoveX(1)), Outcome::Refused);
    assert_eq!(reports.apply(Operation::Move(1, 0)), Outcome::Refused);
    assert_eq!(reports.pointer(), (32767, 0));
    assert_eq!(reports.apply(Operation::MoveY(-32768)), Outcome::SendMouse);
    assert_eq!(reports.apply(Operation::MoveY(-1)), Outcome::Refused);
    assert_eq!(reports.apply(Operation::Move(-1, -1)), Outcome::Refused);
    assert_eq!(reports.pointer(), (32767, -32768));
    assert_eq!(reports.apply(Operation::Move(-1, 1)), Outcome::SendMouse);
    assert_eq!(reports.pointer(), (32766, -32767));
}

#[test]
fn coordinates_are_cut_to_the_width_of_the_report() {
    let mut reports = HidgReports::new();
    assert_eq!(reports.apply(Operation::MoveX(65536 + 7)), Outcome::SendMouse);
    assert_eq!(reports.pointer(), (7, 0));
    assert_eq!(reports.apply(Operation::MoveY(-65536 - 9)), Outcome::SendMouse);
    assert_eq!(reports.pointer(), (7, -9));
    assert_eq!(reports.apply(Operation::ScrollY(256 + 3)), Outcome::SendMouse);
    assert_eq!(reports.wheel(), 3);
}

#[test]
fn wheel_adds_up_in_the_report() {
    let mut reports = HidgReports::new();
    assert_eq!(reports.apply(Operation::ScrollY(100)), Outcome::SendMouse);
    assert_eq!(reports.apply(Operation::ScrollY(27)), Outcome::SendMouse);
    assert_eq!(reports.wheel(), 127);
    assert_eq!(reports.apply(Operation::ScrollY(1)), Outcome::Refused);
    assert_eq!(reports.wheel(), 127);
    assert_eq!(reports.apply(Operation::ScrollY(-128)), Outcome::SendMouse);
    assert_eq!(reports.wheel(), -1);
    assert_eq!(reports.mouse_report().wheel(), -1);
    assert_eq!(reports.pointer(), (0, 0));
}

#[test]
fn horizontal_scroll_changes_nothing() {
    let mut reports = HidgReports::new();
    assert_eq!(reports.apply(Operation::ScrollX(5)), Outcome::Pending);
    assert_eq!(reports.pointer(), (0, 0));
    assert_eq!(reports.wheel(), 0);
    assert_eq!(reports.buttons(), 0);
    assert_eq!(reports.keyboard_bytes(), vec![0u8; 8]);
}

#[test]
fn buttons_are_bits_of_the_mask() {
    let mut reports = HidgReports::new();
    assert_eq!(reports.apply(Operation::Press(NativeInput::Button(MouseButton::Left))), Outcome::Pending);
    assert_eq!(reports.buttons(), 0x01);
    assert_eq!(reports.apply(Operation::Press(NativeInput::Button(MouseButton::Middle))), Outcome::Pending);
    assert_eq!(reports.buttons(), 0x05);
    assert_eq!(reports.apply(Operation::Press(NativeInput::Button(MouseButton::Right))), Outcome::Pending);
    assert_eq!(reports.buttons(), 0x07);
    assert_eq!(reports.apply(Operation::Release(NativeInput::Button(MouseButton::Left))), Outcome::Pending);
    assert_eq!(reports.buttons(), 0x06);
    assert_eq!(reports.apply(Operation::Release(NativeInput::Button(MouseButton::Left))), Outcome::Pending);
    assert_eq!(reports.buttons(), 0x06);
    assert_eq!(reports.apply(Operation::Release(NativeInput::Button(MouseButton::Middle))), Outcome::Pending);
    assert_eq!(reports.buttons(), 0x02);
    assert_eq!(reports.pointer(), (0, 0));
}

#[test]
fn keys_fill_the_slots_of_the_keyboard_report() {
    let mut reports = HidgReports::new();
    assert_eq!(reports.apply(Operation::Press(key(HidgKey::A))), Outcome::Pending);
    assert_eq!(reports.keyboard_bytes(), vec![0, 0, 0x04, 0, 0, 0, 0, 0]);
    assert_eq!(reports.apply(Operation::Press(key(HidgKey::LeftShift))), Outcome::Pending);
    assert_eq!(reports.keyboard_bytes(), vec![0x02, 0, 0x04, 0, 0, 0, 0, 0]);
    assert_eq!(reports.apply(Operation::Press(key(HidgKey::Esc))), Outcome::Pending);
    assert_eq!(reports.keyboard_bytes(), vec![0x02, 0, 0x04, 0x29, 0, 0, 0, 0]);
    assert_eq!(reports.apply(Operation::Release(key(HidgKey::A))), Outcome::Pending);
    assert_eq!(reports.keyboard_bytes(), vec![0x02, 0, 0x29, 0, 0, 0, 0, 0]);
    assert_eq!(reports.apply(Operation::Release(key(HidgKey::LeftShift))), Outcome::Pending);
    assert_eq!(reports.apply(Operation::Release(key(HidgKey::Esc))), Outcome::Pending);
    assert_eq!(reports.keyboard_bytes(), vec![0u8; 8]);
    assert_eq!(reports.buttons(), 0);
}

#[test]
fn keys_of_other_backends_are_not_taken() {
    let mut reports = HidgReports::new();
    assert_eq!(reports.apply(Operation::Press(NativeInput::Key(NativeKey::Code(30)))), Outcome::Refused);
    assert_eq!(reports.apply(Operation::Release(NativeInput::Key(NativeKey::Enigo(EnigoKey::Other(30))))), Outcome::Refused);
    assert_eq!(reports.keyboard_bytes(), vec![0u8; 8]);
    assert_eq!(reports.buttons(), 0);
}
