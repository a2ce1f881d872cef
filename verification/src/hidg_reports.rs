//! The pending reports of the USB gadget devices.
//!
//! The gadget devices take whole reports. An operation changes the pending
//! report of the mouse or of the keyboard; a synchronization sends it. The
//! reports are those of the device class itself, which keeps the pointer and
//! the wheel across sends: a relative change adds to what the report holds.

use vstd::prelude::*;
use crate::backend::Backend;
use crate::hidg_usage::{is_usage_code, spec_usage_code, usage_code};
use crate::key_codes::KeyCode;
use crate::native_keys::{MouseButton, NativeInput, NativeKey};
use crate::plan::Operation;
use crate::translation::native_input;
use hidg::Class;

verus! {

/// `hidg::MouseInput`, the input report of the gadget mouse; nothing of it is
/// seen but through the functions below.
#[verifier::external_type_specification]
#[verifier::external_body]
pub struct ExMouseInput(hidg::MouseInput);

/// `hidg::KeyboardInput`, the input report of the gadget keyboard; nothing
/// of it is seen but through the functions below.
#[verifier::external_type_specification]
#[verifier::external_body]
pub struct ExKeyboardInput(hidg::KeyboardInput);

/// The pointer coordinates that a mouse report holds: what
/// `hidg::MouseInput::pointer` returns.
pub uninterp spec fn pointer_in(report: hidg::MouseInput) -> (i16, i16);

/// The wheel value that a mouse report holds: what `hidg::MouseInput::wheel`
/// returns.
pub uninterp spec fn wheel_in(report: hidg::MouseInput) -> i8;

/// The mask of pressed buttons that a mouse report holds: the bits of what
/// `hidg::MouseInput::mods` returns.
pub uninterp spec fn buttons_in(report: hidg::MouseInput) -> u8;

/// The bytes of a keyboard report: what its `as_ref` returns.
pub uninterp spec fn keyboard_bytes(report: hidg::KeyboardInput) -> Seq<u8>;

/// The bytes of a keyboard report after `hidg::KeyboardInput::change_key`
/// with the key of usage code `code` and the state `state`, given the bytes
/// before.
pub uninterp spec fn bytes_after_key_change(bytes: Seq<u8>, code: u8, state: bool) -> Seq<u8>;

/// `hidg::Class::input` for `hidg::Mouse`: the default mouse report, with
/// no button pressed and pointer and wheel at zero.
#[verifier::external_body]
fn empty_mouse_report() -> (r: hidg::MouseInput)
    ensures
        pointer_in(r) == (0i16, 0i16),
        wheel_in(r) == 0,
        buttons_in(r) == 0,
{
    hidg::Mouse.input()
}

/// `hidg::Class::input` for `hidg::Keyboard`: the default keyboard report,
/// whose eight bytes are zero.
#[verifier::external_body]
fn empty_keyboard_report() -> (r: hidg::KeyboardInput)
    ensures
        keyboard_bytes(r) == Seq::new(8, |i: int| 0u8),
{
    hidg::Keyboard.input()
}

/// `hidg::MouseInput::pointer`: the pointer coordinates of the report.
#[verifier::external_body]
fn read_pointer(report: &hidg::MouseInput) -> (r: (i16, i16))
    ensures
        r == pointer_in(*report),
{
    report.pointer()
}

/// `hidg::MouseInput::wheel`: the wheel value of the report.
#[verifier::external_body]
fn read_wheel(report: &hidg::MouseInput) -> (r: i8)
    ensures
        r == wheel_in(*report),
{
    report.wheel()
}

/// `hidg::MouseInput::mods`: the mask of pressed buttons, as its bits.
#[verifier::external_body]
fn read_buttons(report: &hidg::MouseInput) -> (r: u8)
    ensures
        r == buttons_in(*report),
{
    report.mods().bits()
}

/// The bytes of a keyboard report, through its `as_ref`.
#[verifier::external_body]
fn read_keyboard_bytes(report: &hidg::KeyboardInput) -> (r: Vec<u8>)
    ensures
        r@ == keyboard_bytes(*report),
{
    report.as_ref().to_vec()
}

/// `hidg::MouseInput::change_pointer` with a relative change: adds the
/// change to the pointer that the report holds and leaves wheel and buttons.
/// The sums have to fit the report.
#[verifier::external_body]
fn change_pointer(report: &mut hidg::MouseInput, dx: i16, dy: i16)
    requires
        i16::MIN <= pointer_in(*old(report)).0 + dx <= i16::MAX,
        i16::MIN <= pointer_in(*old(report)).1 + dy <= i16::MAX,
    ensures
        pointer_in(*final(report)).0 == pointer_in(*old(report)).0 + dx,
        pointer_in(*final(report)).1 == pointer_in(*old(report)).1 + dy,
        wheel_in(*final(report)) == wheel_in(*old(report)),
        buttons_in(*final(report)) == buttons_in(*old(report)),
{
    report.change_pointer((dx, dy), true)
}

/// `hidg::MouseInput::change_wheel` with a relative change: adds the change
/// to the wheel value that the report holds and leaves pointer and buttons.
/// The sum has to fit the report.
#[verifier::external_body]
fn change_wheel(report: &mut hidg::MouseInput, delta: i8)
    requires
        i8::MIN <= wheel_in(*old(report)) + delta <= i8::MAX,
    ensures
        wheel_in(*final(report)) == wheel_in(*old(report)) + delta,
        pointer_in(*final(report)) == pointer_in(*old(report)),
        buttons_in(*final(report)) == buttons_in(*old(report)),
{
    report.change_wheel(delta, true)
}

/// `hidg::MouseInput::press_button` for the button of code `code`, one to
/// three: sets the bit of the button in the mask and leaves pointer and
/// wheel.
#[verifier::external_body]
fn press_button(report: &mut hidg::MouseInput, code: u8)
    requires
        1 <= code <= 3,
    ensures
        buttons_in(*final(report)) == buttons_in(*old(report)) | (1u8 << ((code - 1) as u8)),
        pointer_in(*final(report)) == pointer_in(*old(report)),
        wheel_in(*final(report)) == wheel_in(*old(report)),
{
    report.press_button(hidg::Button::from(code))
}

/// `hidg::MouseInput::release_button` for the button of code `code`, one
/// to three: keeps of the mask the bits of the other two buttons, and
/// leaves pointer and wheel.
#[verifier::external_body]
fn release_button(report: &mut hidg::MouseInput, code: u8)
    requires
        1 <= code <= 3,
    ensures
        buttons_in(*final(report)) == buttons_in(*old(report)) & (!(1u8 << ((code - 1) as u8))
            & 0x07u8),
        pointer_in(*final(report)) == pointer_in(*old(report)),
        wheel_in(*final(report)) == wheel_in(*old(report)),
{
    report.release_button(hidg::Button::from(code))
}

/// `hidg::KeyboardInput::change_key`, which `press_key` and `release_key`
/// come down to, for the key of usage code `code`.
#[verifier::external_body]
fn change_key(report: &mut hidg::KeyboardInput, code: u8, state: bool)
    requires
        is_usage_code(code),
    ensures
        keyboard_bytes(*final(report)) == bytes_after_key_change(
            keyboard_bytes(*old(report)),
            code,
            state,
        ),
{
    report.change_key(hidg::Key::from(code), state)
}

/// The code by which the gadget mouse knows a button.
pub open spec fn spec_button_code(button: MouseButton) -> u8 {
    match button {
        MouseButton::Left => 1,
        MouseButton::Right => 2,
        MouseButton::Middle => 3,
    }
}

/// The bit of a button in the mask of a mouse report.
pub open spec fn button_bit(button: MouseButton) -> u8 {
    match button {
        MouseButton::Left => 0x01,
        MouseButton::Right => 0x02,
        MouseButton::Middle => 0x04,
    }
}

/// The code by which the gadget mouse knows a button.
pub fn button_code(button: MouseButton) -> (r: u8)
    ensures
        r == spec_button_code(button),
        1 <= r <= 3,
        1u8 << ((r - 1) as u8) == button_bit(button),
{
    assert(1u8 << 0u8 == 1u8) by (bit_vector);
    assert(1u8 << 1u8 == 2u8) by (bit_vector);
    assert(1u8 << 2u8 == 4u8) by (bit_vector);
    match button {
        MouseButton::Left => 1,
        MouseButton::Right => 2,
        MouseButton::Middle => 3,
    }
}

/// What the pending reports hold.
pub struct ReportsView {
    /// The pointer coordinates of the mouse report.
    pub pointer: (i16, i16),
    /// The wheel value of the mouse report.
    pub wheel: i8,
    /// The mask of pressed buttons of the mouse report.
    pub buttons: u8,
    /// The bytes of the keyboard report.
    pub keyboard: Seq<u8>,
}

/// Whether an operation can be taken into reports that hold `v`: a motion
/// as long as pointer and wheel stay within the report, a transition of a
/// button or of a key of the gadget keyboard always, a key of another
/// backend never.
pub open spec fn takes(v: ReportsView, operation: Operation) -> bool {
    match operation {
        Operation::Move(x, y) => {
            &&& i16::MIN <= v.pointer.0 + (x as i16) <= i16::MAX
            &&& i16::MIN <= v.pointer.1 + (y as i16) <= i16::MAX
        },
        Operation::MoveX(x) => i16::MIN <= v.pointer.0 + (x as i16) <= i16::MAX,
        Operation::MoveY(y) => i16::MIN <= v.pointer.1 + (y as i16) <= i16::MAX,
        Operation::ScrollX(_) => true,
        Operation::ScrollY(value) => i8::MIN <= v.wheel + (value as i8) <= i8::MAX,
        Operation::Press(input) | Operation::Release(input) => match input {
            NativeInput::Button(_) => true,
            NativeInput::Key(NativeKey::Hidg(_)) => true,
            NativeInput::Key(_) => false,
        },
    }
}

/// What the reports hold after an operation that they take. A coordinate
/// is cut to the width of the report before it is added. The gadget mouse
/// has no horizontal wheel, so that a horizontal scroll changes nothing. A
/// release keeps of the mask only the bits of the other two buttons.
pub open spec fn after(v: ReportsView, operation: Operation) -> ReportsView {
    match operation {
        Operation::Move(x, y) => ReportsView {
            pointer: ((v.pointer.0 + (x as i16)) as i16, (v.pointer.1 + (y as i16)) as i16),
            ..v
        },
        Operation::MoveX(x) => ReportsView {
            pointer: ((v.pointer.0 + (x as i16)) as i16, v.pointer.1),
            ..v
        },
        Operation::MoveY(y) => ReportsView {
            pointer: (v.pointer.0, (v.pointer.1 + (y as i16)) as i16),
            ..v
        },
        Operation::ScrollX(_) => v,
        Operation::ScrollY(value) => ReportsView { wheel: (v.wheel + (value as i8)) as i8, ..v },
        Operation::Press(NativeInput::Button(button)) => ReportsView {
            buttons: v.buttons | button_bit(button),
            ..v
        },
        Operation::Release(NativeInput::Button(button)) => ReportsView {
            buttons: v.buttons & (!button_bit(button) & 0x07u8),
            ..v
        },
        Operation::Press(NativeInput::Key(NativeKey::Hidg(key))) => ReportsView {
            keyboard: bytes_after_key_change(v.keyboard, spec_usage_code(key), true),
            ..v
        },
        Operation::Release(NativeInput::Key(NativeKey::Hidg(key))) => ReportsView {
            keyboard: bytes_after_key_change(v.keyboard, spec_usage_code(key), false),
            ..v
        },
        _ => v,
    }
}

/// What is to be done once the reports have been asked to take an
/// operation.
#[derive(PartialEq, Eq, Structural, Copy, Clone, Debug, Hash)]
pub enum Outcome {
    /// The reports did not take the operation and are as before.
    Refused,
    /// The reports took the operation; what changed is sent with the next
    /// synchronization.
    Pending,
    /// The reports took the operation, and the report of the mouse is to be
    /// sent at once.
    SendMouse,
}

/// Whether an operation changes the report of the mouse in a way that is
/// sent at once: a move of the pointer or a turn of the vertical wheel.
pub open spec fn sent_at_once(operation: Operation) -> bool {
    operation is Move || operation is MoveX || operation is MoveY || operation is ScrollY
}

/// What is to be done once reports that hold `v` have been asked to take
/// `operation`.
pub open spec fn outcome(v: ReportsView, operation: Operation) -> Outcome {
    if !takes(v, operation) {
        Outcome::Refused
    } else if sent_at_once(operation) {
        Outcome::SendMouse
    } else {
        Outcome::Pending
    }
}

/// The pending reports of the gadget mouse and the gadget keyboard.
pub struct HidgReports {
    mouse: hidg::MouseInput,
    keyboard: hidg::KeyboardInput,
}

impl View for HidgReports {
    type V = ReportsView;

    closed spec fn view(&self) -> ReportsView {
        ReportsView {
            pointer: pointer_in(self.mouse),
            wheel: wheel_in(self.mouse),
            buttons: buttons_in(self.mouse),
            keyboard: keyboard_bytes(self.keyboard),
        }
    }
}

impl HidgReports {
    /// Reports with nothing pressed and nothing moved.
    pub fn new() -> (r: Self)
        ensures
            r@ == (ReportsView {
                pointer: (0i16, 0i16),
                wheel: 0i8,
                buttons: 0u8,
                keyboard: Seq::new(8, |i: int| 0u8),
            }),
    {
        HidgReports { mouse: empty_mouse_report(), keyboard: empty_keyboard_report() }
    }

    /// The pending report of the mouse, for sending.
    pub fn mouse_report(&self) -> (r: &hidg::MouseInput)
        ensures
            pointer_in(*r) == self@.pointer,
            wheel_in(*r) == self@.wheel,
            buttons_in(*r) == self@.buttons,
    {
        &self.mouse
    }

    /// The pending report of the keyboard, for sending.
    pub fn keyboard_report(&self) -> (r: &hidg::KeyboardInput)
        ensures
            keyboard_bytes(*r) == self@.keyboard,
    {
        &self.keyboard
    }

    /// The pointer coordinates of the mouse report.
    pub fn pointer(&self) -> (r: (i16, i16))
        ensures
            r == self@.pointer,
    {
        read_pointer(&self.mouse)
    }

    /// The wheel value of the mouse report.
    pub fn wheel(&self) -> (r: i8)
        ensures
            r == self@.wheel,
    {
        read_wheel(&self.mouse)
    }

    /// The mask of pressed buttons of the mouse report.
    pub fn buttons(&self) -> (r: u8)
        ensures
            r == self@.buttons,
    {
        read_buttons(&self.mouse)
    }

    /// The bytes of the keyboard report.
    pub fn keyboard_bytes(&self) -> (r: Vec<u8>)
        ensures
            r@ == self@.keyboard,
    {
        read_keyboard_bytes(&self.keyboard)
    }

    /// Adds `(dx, dy)` to the pointer where both sums stay within the
    /// report, and says whether it did.
    fn shift_pointer(&mut self, dx: i16, dy: i16) -> (r: bool)
        ensures
            r == (i16::MIN <= old(self)@.pointer.0 + dx <= i16::MAX && i16::MIN <= old(
                self,
            )@.pointer.1 + dy <= i16::MAX),
            r ==> final(self)@ == (ReportsView {
                pointer: ((old(self)@.pointer.0 + dx) as i16, (old(self)@.pointer.1 + dy) as i16),
                ..old(self)@
            }),
            !r ==> final(self)@ == old(self)@,
    {
        let held = read_pointer(&self.mouse);
        let x: i32 = held.0 as i32 + dx as i32;
        let y: i32 = held.1 as i32 + dy as i32;
        if x < -32768 || x > 32767 || y < -32768 || y > 32767 {
            false
        } else {
            change_pointer(&mut self.mouse, dx, dy);
            true
        }
    }

    /// Adds `delta` to the wheel value where the sum stays within the
    /// report, and says whether it did.
    fn shift_wheel(&mut self, delta: i8) -> (r: bool)
        ensures
            r == (i8::MIN <= old(self)@.wheel + delta <= i8::MAX),
            r ==> final(self)@ == (ReportsView {
                wheel: (old(self)@.wheel + delta) as i8,
                ..old(self)@
            }),
            !r ==> final(self)@ == old(self)@,
    {
        let held = read_wheel(&self.mouse);
        let sum: i32 = held as i32 + delta as i32;
        if sum < -128 || sum > 127 {
            false
        } else {
            change_wheel(&mut self.mouse, delta);
            true
        }
    }

    /// Takes an operation into the pending reports and says what is to be
    /// done next. Where the reports do not take it, they are as before.
    pub fn apply(&mut self, operation: Operation) -> (r: Outcome)
        ensures
            r == outcome(old(self)@, operation),
            final(self)@ == if takes(old(self)@, operation) {
                after(old(self)@, operation)
            } else {
                old(self)@
            },
    {
        match operation {
            Operation::Move(x, y) => {
                let dx: i16 = #[verifier::truncate]
                (x as i16);
                let dy: i16 = #[verifier::truncate]
                (y as i16);
                if self.shift_pointer(dx, dy) {
                    Outcome::SendMouse
                } else {
                    Outcome::Refused
                }
            },
            Operation::MoveX(x) => {
                let dx: i16 = #[verifier::truncate]
                (x as i16);
                if self.shift_pointer(dx, 0) {
                    Outcome::SendMouse
                } else {
                    Outcome::Refused
                }
            },
            Operation::MoveY(y) => {
                let dy: i16 = #[verifier::truncate]
                (y as i16);
                if self.shift_pointer(0, dy) {
                    Outcome::SendMouse
                } else {
                    Outcome::Refused
                }
            },
            Operation::ScrollX(_) => Outcome::Pending,
            Operation::ScrollY(value) => {
                let delta: i8 = #[verifier::truncate]
                (value as i8);
                if self.shift_wheel(delta) {
                    Outcome::SendMouse
                } else {
                    Outcome::Refused
                }
            },
            Operation::Press(NativeInput::Button(button)) => {
                press_button(&mut self.mouse, button_code(button));
                Outcome::Pending
            },
            Operation::Release(NativeInput::Button(button)) => {
                release_button(&mut self.mouse, button_code(button));
                Outcome::Pending
            },
            Operation::Press(NativeInput::Key(NativeKey::Hidg(key))) => {
                change_key(&mut self.keyboard, usage_code(key), true);
                Outcome::Pending
            },
            Operation::Release(NativeInput::Key(NativeKey::Hidg(key))) => {
                change_key(&mut self.keyboard, usage_code(key), false);
                Outcome::Pending
            },
            Operation::Press(NativeInput::Key(_)) => Outcome::Refused,
            Operation::Release(NativeInput::Key(_)) => Outcome::Refused,
        }
    }
}

/// Whatever a press or release of a key acts on at the gadget devices, the
/// reports take it.
pub proof fn law_reports_take_translated_keys(v: ReportsView, key: KeyCode)
    ensures
        native_input(key, Backend::Hidg) matches Some(input) ==> takes(v, Operation::Press(input))
            && takes(v, Operation::Release(input)),
{
}

/// The unit steps of a gradual motion are taken as long as the pointer
/// that the reports hold stays within the report.
pub proof fn law_reports_take_unit_steps(v: ReportsView, x_direction: i32, y_direction: i32)
    requires
        -1 <= x_direction <= 1,
        -1 <= y_direction <= 1,
        i16::MIN < v.pointer.0 < i16::MAX,
        i16::MIN < v.pointer.1 < i16::MAX,
    ensures
        takes(v, Operation::Move(x_direction, y_direction)),
        takes(v, Operation::MoveX(x_direction)),
        takes(v, Operation::MoveY(y_direction)),
        after(v, Operation::Move(x_direction, y_direction)).pointer == (
            (v.pointer.0 + x_direction) as i16,
            (v.pointer.1 + y_direction) as i16,
        ),
{
}

} // verus!
