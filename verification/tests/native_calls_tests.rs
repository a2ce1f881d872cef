use input_emulator::backend::Backend;
use input_emulator::input_emulator::InputEmulator;
use input_emulator::key_codes::KeyCode;
use input_emulator::native_calls::{enigo_call, opposite, tfc_call, Axis, Direction, EnigoCall, TfcCall};
use input_emulator::native_keys::{EnigoKey, HidgKey, MouseButton, NativeInput, NativeKey, TfcKey};
use input_emulator::plan::{BackendCall, Delivery, Operation};

fn normal(operation: Operation) -> BackendCall {
    BackendCall::Perform(operation, Delivery::Normal)
}

#[test]
fn opposite_of_a_coordinate() {
    assert_eq!(opposite(5), Some(-5));
    assert_eq!(opposite(-7), Some(7));
    assert_eq!(opposite(0), Some(0));
    assert_eq!(opposite(i32::MAX), Some(i32::MIN + 1));
    assert_eq!(opposite(i32::MIN + 1), Some(i32::MAX));
    assert_eq!(opposite(i32::MIN), None);
}

#[test]
fn automation_library_moves_along_both_axes() {
    assert_eq!(enigo_call(normal(Operation::Move(3, -4))), Some(EnigoCall::MoveMouse(3, -4)));
    assert_eq!(enigo_call(normal(Operation::MoveX(3))), Some(EnigoCall::MoveMouse(3, 0)));
    assert_eq!(enigo_call(normal(Operation::MoveY(-4))), Some(EnigoCall::MoveMouse(0, -4)));
    assert_eq!(enigo_call(normal(Operation::MoveY(i32::MIN))), Some(EnigoCall::MoveMouse(0, i32::MIN)));
}

#[test]
fn automation_library_scrolls_along_a_named_axis() {
    assert_eq!(enigo_call(normal(Operation::ScrollX(2))), Some(EnigoCall::Scroll(2, Axis::Horizontal)));
    assert_eq!(enigo_call(normal(Operation::ScrollY(-2))), Some(EnigoCall::Scroll(-2, Axis::Vertical)));
}

#[test]
fn automation_library_takes_buttons_and_its_own_keys() {
    let left = NativeInput::Button(MouseButton::Left);
    assert_eq!(enigo_call(normal(Operation::Press(left))), Some(EnigoCall::Button(MouseButton::Left, Direction::Press)));
    assert_eq!(enigo_call(normal(Operation::Release(left))), Some(EnigoCall::Button(MouseButton::Left, Direction::Release)));
    let a = NativeInput::Key(NativeKey::Enigo(EnigoKey::Other(30)));
    assert_eq!(enigo_call(normal(Operation::Press(a))), Some(EnigoCall::Key(EnigoKey::Other(30), Direction::Press)));
    assert_eq!(enigo_call(normal(Operation::Release(a))), Some(EnigoCall::Key(EnigoKey::Other(30), Direction::Release)));
    assert_eq!(enigo_call(normal(Operation::Press(NativeInput::Key(NativeKey::Code(30))))), None);
    assert_eq!(enigo_call(normal(Operation::Release(NativeInput::Key(NativeKey::Tfc(TfcKey::A))))), None);
}

#[test]
fn injection_context_counts_y_the_other_way() {
    assert_eq!(tfc_call(normal(Operation::Move(3, -4))), Some(TfcCall::MouseMoveRel(3, 4)));
    assert_eq!(tfc_call(normal(Operation::MoveX(3))), Some(TfcCall::MouseMoveRel(3, 0)));
    assert_eq!(tfc_call(normal(Operation::MoveY(5))), Some(TfcCall::MouseMoveRel(0, -5)));
    assert_eq!(tfc_call(normal(Operation::ScrollX(2))), Some(TfcCall::MouseScroll(2, 0)));
    assert_eq!(tfc_call(normal(Operation::ScrollY(2))), Some(TfcCall::MouseScroll(0, -2)));
    assert_eq!(tfc_call(normal(Operation::MoveX(i32::MIN))), Some(TfcCall::MouseMoveRel(i32::MIN, 0)));
}

#[test]
fn injection_context_cannot_turn_the_least_coordinate_round() {
    assert_eq!(tfc_call(normal(Operation::MoveY(i32::MIN))), None);
    assert_eq!(tfc_call(normal(Operation::Move(1, i32::MIN))), None);
    assert_eq!(tfc_call(normal(Operation::ScrollY(i32::MIN))), None);
}

#[test]
fn injection_context_takes_buttons_and_its_own_keys() {
    let right = NativeInput::Button(MouseButton::Right);
    assert_eq!(tfc_call(normal(Operation::Press(right))), Some(TfcCall::MouseDown(MouseButton::Right)));
    assert_eq!(tfc_call(normal(Operation::Release(right))), Some(TfcCall::MouseUp(MouseButton::Right)));
    let a = NativeInput::Key(NativeKey::Tfc(TfcKey::A));
    assert_eq!(tfc_call(normal(Operation::Press(a))), Some(TfcCall::KeyDown(TfcKey::A)));
    assert_eq!(tfc_call(normal(Operation::Release(a))), Some(TfcCall::KeyUp(TfcKey::A)));
    assert_eq!(tfc_call(normal(Operation::Press(NativeInput::Key(NativeKey::Hidg(HidgKey::A))))), None);
}

#[test]
fn calls_that_these_backends_lack_have_no_native_call() {
    for call in [
        BackendCall::Perform(Operation::MoveX(1), Delivery::Raw),
        BackendCall::Perform(Operation::MoveX(1), Delivery::Buffered),
        BackendCall::Synchronize,
        BackendCall::SynchronizeMouse,
        BackendCall::SynchronizeKeyboard,
    ] {
        assert_eq!(enigo_call(call), None);
        assert_eq!(tfc_call(call), None);
    }
}

#[test]
fn every_planned_call_has_a_native_call() {
    let keys = [KeyCode::KEY_A, KeyCode::KEY_ENTER, KeyCode::MOUSE_LEFT, KeyCode::KEY_F12];
    for backend in [Backend::EnigoLinux, Backend::EnigoWindows, Backend::Tfc] {
        let emulator = InputEmulator::new(backend);
        let mut plans = vec![
            emulator.gradual_move_mouse(5, -3),
            emulator.gradual_scroll_raw(-2, 2),
            emulator.buffered_gradual_move_mouse(1, 1),
            emulator.move_mouse_raw(10, 20),
            emulator.buffered_scroll_y(4),
            emulator.finish_operation_mouse(),
        ];
        for key in keys {
            plans.push(emulator.press(key).unwrap());
            plans.push(emulator.buffered_release(key).unwrap());
        }
        for plan in plans {
            for call in plan.expand() {
                if backend == Backend::Tfc {
                    assert!(tfc_call(call).is_some());
                } else {
                    assert!(enigo_call(call).is_some());
                }
            }
        }
    }
}
