//! The calls of the backends whose calls take other arguments than the
//! operation itself.
//!
//! The desktop automation library moves along both axes at once and scrolls
//! along a named axis; the platform injection context counts Y and the
//! vertical wheel the other way round. Both take a mouse button and a key
//! by different calls.

use vstd::prelude::*;
use crate::backend::Backend;
use crate::key_codes::KeyCode;
use crate::native_keys::{EnigoKey, MouseButton, NativeInput, NativeKey, TfcKey};
use crate::plan::{BackendCall, Delivery, Operation};
use crate::translation::native_input;
use crate::OS_Input_Coord;

verus! {

/// An axis of scrolling.
#[derive(PartialEq, Eq, Structural, Copy, Clone, Debug, Hash)]
pub enum Axis {
    Horizontal,
    Vertical,
}

/// The direction of a key or button transition.
#[derive(PartialEq, Eq, Structural, Copy, Clone, Debug, Hash)]
pub enum Direction {
    Press,
    Release,
}

/// A call of the desktop automation library.
#[derive(PartialEq, Eq, Structural, Copy, Clone, Debug, Hash)]
pub enum EnigoCall {
    /// A move of the pointer relative to where it is.
    MoveMouse(OS_Input_Coord, OS_Input_Coord),
    Scroll(OS_Input_Coord, Axis),
    Button(MouseButton, Direction),
    Key(EnigoKey, Direction),
}

/// A call of the platform injection context.
#[derive(PartialEq, Eq, Structural, Copy, Clone, Debug, Hash)]
pub enum TfcCall {
    MouseMoveRel(OS_Input_Coord, OS_Input_Coord),
    MouseScroll(OS_Input_Coord, OS_Input_Coord),
    MouseDown(MouseButton),
    MouseUp(MouseButton),
    KeyDown(TfcKey),
    KeyUp(TfcKey),
}

/// The opposite of a coordinate. The least coordinate has none.
pub open spec fn spec_opposite(v: OS_Input_Coord) -> Option<OS_Input_Coord> {
    if v == i32::MIN {
        None
    } else {
        Some((-v) as i32)
    }
}

/// The opposite of a coordinate. The least coordinate has none.
pub fn opposite(v: OS_Input_Coord) -> (r: Option<OS_Input_Coord>)
    ensures
        r == spec_opposite(v),
        r is Some <==> v > i32::MIN,
        r is Some ==> r->Some_0 as int == -(v as int),
{
    if v == i32::MIN {
        None
    } else {
        Some(-v)
    }
}

/// The call of the automation library for a call of a plan: one for every
/// operation that is delivered by the ordinary call and acts on a button or
/// on a key of this library, none for anything else.
pub open spec fn spec_enigo_call(call: BackendCall) -> Option<EnigoCall> {
    match call {
        BackendCall::Perform(operation, Delivery::Normal) => match operation {
            Operation::Move(x, y) => Some(EnigoCall::MoveMouse(x, y)),
            Operation::MoveX(x) => Some(EnigoCall::MoveMouse(x, 0)),
            Operation::MoveY(y) => Some(EnigoCall::MoveMouse(0, y)),
            Operation::ScrollX(value) => Some(EnigoCall::Scroll(value, Axis::Horizontal)),
            Operation::ScrollY(value) => Some(EnigoCall::Scroll(value, Axis::Vertical)),
            Operation::Press(NativeInput::Button(button)) => Some(
                EnigoCall::Button(button, Direction::Press),
            ),
            Operation::Release(NativeInput::Button(button)) => Some(
                EnigoCall::Button(button, Direction::Release),
            ),
            Operation::Press(NativeInput::Key(NativeKey::Enigo(key))) => Some(
                EnigoCall::Key(key, Direction::Press),
            ),
            Operation::Release(NativeInput::Key(NativeKey::Enigo(key))) => Some(
                EnigoCall::Key(key, Direction::Release),
            ),
            _ => None,
        },
        _ => None,
    }
}

/// The call of the automation library for a call of a plan.
pub fn enigo_call(call: BackendCall) -> (r: Option<EnigoCall>)
    ensures
        r == spec_enigo_call(call),
{
    match call {
        BackendCall::Perform(operation, Delivery::Normal) => match operation {
            Operation::Move(x, y) => Some(EnigoCall::MoveMouse(x, y)),
            Operation::MoveX(x) => Some(EnigoCall::MoveMouse(x, 0)),
            Operation::MoveY(y) => Some(EnigoCall::MoveMouse(0, y)),
            Operation::ScrollX(value) => Some(EnigoCall::Scroll(value, Axis::Horizontal)),
            Operation::ScrollY(value) => Some(EnigoCall::Scroll(value, Axis::Vertical)),
            Operation::Press(NativeInput::Button(button)) => Some(
                EnigoCall::Button(button, Direction::Press),
            ),
            Operation::Release(NativeInput::Button(button)) => Some(
                EnigoCall::Button(button, Direction::Release),
            ),
            Operation::Press(NativeInput::Key(NativeKey::Enigo(key))) => Some(
                EnigoCall::Key(key, Direction::Press),
            ),
            Operation::Release(NativeInput::Key(NativeKey::Enigo(key))) => Some(
                EnigoCall::Key(key, Direction::Release),
            ),
            _ => None,
        },
        _ => None,
    }
}

/// The call of the injection context for a call of a plan: one for every
/// operation that is delivered by the ordinary call and acts on a button or
/// on a key of this context, with Y and the vertical wheel turned round;
/// none where that coordinate has no opposite, and none for anything else.
pub open spec fn spec_tfc_call(call: BackendCall) -> Option<TfcCall> {
    match call {
        BackendCall::Perform(operation, Delivery::Normal) => match operation {
            Operation::Move(x, y) => match spec_opposite(y) {
                Some(dy) => Some(TfcCall::MouseMoveRel(x, dy)),
                None => None,
            },
            Operation::MoveX(x) => Some(TfcCall::MouseMoveRel(x, 0)),
            Operation::MoveY(y) => match spec_opposite(y) {
                Some(dy) => Some(TfcCall::MouseMoveRel(0, dy)),
                None => None,
            },
            Operation::ScrollX(value) => Some(TfcCall::MouseScroll(value, 0)),
            Operation::ScrollY(value) => match spec_opposite(value) {
                Some(dy) => Some(TfcCall::MouseScroll(0, dy)),
                None => None,
            },
            Operation::Press(NativeInput::Button(button)) => Some(TfcCall::MouseDown(button)),
            Operation::Release(NativeInput::Button(button)) => Some(TfcCall::MouseUp(button)),
            Operation::Press(NativeInput::Key(NativeKey::Tfc(key))) => Some(TfcCall::KeyDown(key)),
            Operation::Release(NativeInput::Key(NativeKey::Tfc(key))) => Some(TfcCall::KeyUp(key)),
            _ => None,
        },
        _ => None,
    }
}

/// The call of the injection context for a call of a plan.
pub fn tfc_call(call: BackendCall) -> (r: Option<TfcCall>)
    ensures
        r == spec_tfc_call(call),
{
    match call {
        BackendCall::Perform(operation, Delivery::Normal) => match operation {
            Operation::Move(x, y) => match opposite(y) {
                Some(dy) => Some(TfcCall::MouseMoveRel(x, dy)),
                None => None,
            },
            Operation::MoveX(x) => Some(TfcCall::MouseMoveRel(x, 0)),
            Operation::MoveY(y) => match opposite(y) {
                Some(dy) => Some(TfcCall::MouseMoveRel(0, dy)),
                None => None,
            },
            Operation::ScrollX(value) => Some(TfcCall::MouseScroll(value, 0)),
            Operation::ScrollY(value) => match opposite(value) {
                Some(dy) => Some(TfcCall::MouseScroll(0, dy)),
                None => None,
            },
            Operation::Press(NativeInput::Button(button)) => Some(TfcCall::MouseDown(button)),
            Operation::Release(NativeInput::Button(button)) => Some(TfcCall::MouseUp(button)),
            Operation::Press(NativeInput::Key(NativeKey::Tfc(key))) => Some(TfcCall::KeyDown(key)),
            Operation::Release(NativeInput::Key(NativeKey::Tfc(key))) => Some(TfcCall::KeyUp(key)),
            _ => None,
        },
        _ => None,
    }
}

/// Whether an operation is a motion that the injection context cannot turn
/// round.
pub open spec fn has_no_opposite(operation: Operation) -> bool {
    match operation {
        Operation::Move(_, y) => y == i32::MIN,
        Operation::MoveY(y) => y == i32::MIN,
        Operation::ScrollY(value) => value == i32::MIN,
        _ => false,
    }
}

/// Every motion has a call of the automation library, and every motion that
/// can be turned round has a call of the injection context.
pub proof fn law_motions_have_native_calls(operation: Operation)
    requires
        operation.is_motion(),
    ensures
        spec_enigo_call(BackendCall::Perform(operation, Delivery::Normal)) is Some,
        spec_tfc_call(BackendCall::Perform(operation, Delivery::Normal)) is Some
            <==> !has_no_opposite(operation),
{
}

/// Whatever a press or release of a key acts on at a backend, that backend
/// has a call for it.
pub proof fn law_translated_keys_have_native_calls(key: KeyCode)
    ensures
        native_input(key, Backend::EnigoLinux) matches Some(input) ==> {
            &&& spec_enigo_call(
                BackendCall::Perform(Operation::Press(input), Delivery::Normal),
            ) is Some
            &&& spec_enigo_call(
                BackendCall::Perform(Operation::Release(input), Delivery::Normal),
            ) is Some
        },
        native_input(key, Backend::EnigoWindows) matches Some(input) ==> {
            &&& spec_enigo_call(
                BackendCall::Perform(Operation::Press(input), Delivery::Normal),
            ) is Some
            &&& spec_enigo_call(
                BackendCall::Perform(Operation::Release(input), Delivery::Normal),
            ) is Some
        },
        native_input(key, Backend::Tfc) matches Some(input) ==> {
            &&& spec_tfc_call(BackendCall::Perform(Operation::Press(input), Delivery::Normal)) is Some
            &&& spec_tfc_call(
                BackendCall::Perform(Operation::Release(input), Delivery::Normal),
            ) is Some
        },
{
}

} // verus!
