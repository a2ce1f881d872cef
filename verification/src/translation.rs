//! Translation of logical keys for each backend.

use vstd::prelude::*;
use crate::backend::Backend;
use crate::device_codes::{device_code, spec_device_code};
use crate::enigo_keys::{enigo_key, spec_enigo_key};
use crate::hidg_keys::{hidg_key, spec_hidg_key};
use crate::key_codes::KeyCode;
use crate::native_keys::{EnigoKey, MouseButton, NativeInput, NativeKey};
use crate::tfc_keys::{spec_tfc_key, tfc_key};

verus! {

/// The failure of a translation: the backend has no key for the logical key.
#[derive(PartialEq, Eq, Structural, Copy, Clone, Debug, Hash)]
pub struct UnsupportedKey {
    pub key: KeyCode,
    pub backend: Backend,
}

/// The key that `backend` takes for `key`, where it has one.
///
/// The virtual device has a code for every key. The automation library with
/// raw codes takes the code of the virtual device, but for no mouse button.
pub open spec fn native_key(key: KeyCode, backend: Backend) -> Option<NativeKey> {
    match backend {
        Backend::VirtualDevice => match spec_device_code(key) {
            Some(code) => Some(NativeKey::Code(code)),
            None => None,
        },
        Backend::EnigoLinux => match spec_device_code(key) {
            Some(code) => if key.is_mouse_button() {
                None
            } else {
                Some(NativeKey::Enigo(EnigoKey::Other(code as u32)))
            },
            None => None,
        },
        Backend::EnigoWindows => match spec_enigo_key(key) {
            Some(k) => Some(NativeKey::Enigo(k)),
            None => None,
        },
        Backend::Tfc => match spec_tfc_key(key) {
            Some(k) => Some(NativeKey::Tfc(k)),
            None => None,
        },
        Backend::Hidg => match spec_hidg_key(key) {
            Some(k) => Some(NativeKey::Hidg(k)),
            None => None,
        },
    }
}

/// The mouse button that `key` stands for, if it is one of the main three.
pub open spec fn main_button(key: KeyCode) -> Option<MouseButton> {
    match key {
        KeyCode::MOUSE_LEFT => Some(MouseButton::Left),
        KeyCode::MOUSE_RIGHT => Some(MouseButton::Right),
        KeyCode::MOUSE_MIDDLE => Some(MouseButton::Middle),
        _ => None,
    }
}

/// What a press or release of `key` acts on at `backend`: a main mouse
/// button goes as a button unless the backend takes buttons as keys, and
/// everything else goes through the translation of keys.
pub open spec fn native_input(key: KeyCode, backend: Backend) -> Option<NativeInput> {
    if !backend.spec_capabilities().buttons_are_keys && main_button(key) is Some {
        Some(NativeInput::Button(main_button(key)->Some_0))
    } else {
        match native_key(key, backend) {
            Some(k) => Some(NativeInput::Key(k)),
            None => None,
        }
    }
}

impl KeyCode {
    /// Whether this is a mouse button of any kind.
    pub fn names_mouse_button(&self) -> (r: bool)
        ensures
            r == self.is_mouse_button(),
    {
        match self {
            KeyCode::MOUSE_LEFT
            | KeyCode::MOUSE_RIGHT
            | KeyCode::MOUSE_MIDDLE
            | KeyCode::MOUSE_SIDE
            | KeyCode::MOUSE_EXTRA
            | KeyCode::MOUSE_FORWARD
            | KeyCode::MOUSE_BACK
            | KeyCode::MOUSE_TASK => true,
            _ => false,
        }
    }

    /// The main mouse button that this stands for, if any.
    pub fn as_main_button(&self) -> (r: Option<MouseButton>)
        ensures
            r == main_button(*self),
            r is Some <==> self.is_main_button(),
    {
        match self {
            KeyCode::MOUSE_LEFT => Some(MouseButton::Left),
            KeyCode::MOUSE_RIGHT => Some(MouseButton::Right),
            KeyCode::MOUSE_MIDDLE => Some(MouseButton::Middle),
            _ => None,
        }
    }

    /// Translates this key for `backend`. Fails exactly where the backend
    /// has no key for it, and then names the key and the backend.
    pub fn convert(&self, backend: Backend) -> (r: Result<NativeKey, UnsupportedKey>)
        ensures
            r is Ok <==> native_key(*self, backend) is Some,
            r is Ok ==> Some(r->Ok_0) == native_key(*self, backend),
            r is Err ==> r->Err_0 == (UnsupportedKey { key: *self, backend }),
    {
        let found: Option<NativeKey> = match backend {
            Backend::VirtualDevice => match device_code(*self) {
                Some(code) => Some(NativeKey::Code(code)),
                None => None,
            },
            Backend::EnigoLinux => match device_code(*self) {
                Some(code) => if self.names_mouse_button() {
                    None
                } else {
                    Some(NativeKey::Enigo(EnigoKey::Other(code as u32)))
                },
                None => None,
            },
            Backend::EnigoWindows => match enigo_key(*self) {
                Some(k) => Some(NativeKey::Enigo(k)),
                None => None,
            },
            Backend::Tfc => match tfc_key(*self) {
                Some(k) => Some(NativeKey::Tfc(k)),
                None => None,
            },
            Backend::Hidg => match hidg_key(*self) {
                Some(k) => Some(NativeKey::Hidg(k)),
                None => None,
            },
        };
        match found {
            Some(k) => Ok(k),
            None => Err(UnsupportedKey { key: *self, backend }),
        }
    }

    /// What a press or release of this key acts on at `backend`. Fails
    /// exactly where the key is not taken as a button and the backend has no
    /// key for it.
    pub fn target(&self, backend: Backend) -> (r: Result<NativeInput, UnsupportedKey>)
        ensures
            r is Ok <==> native_input(*self, backend) is Some,
            r is Ok ==> Some(r->Ok_0) == native_input(*self, backend),
            r is Err ==> r->Err_0 == (UnsupportedKey { key: *self, backend }),
    {
        let button: Option<MouseButton> = self.as_main_button();
        if !backend.capabilities().buttons_are_keys && button.is_some() {
            Ok(NativeInput::Button(button.unwrap()))
        } else {
            match self.convert(backend) {
                Ok(k) => Ok(NativeInput::Key(k)),
                Err(e) => Err(e),
            }
        }
    }
}

/// The virtual device has a key for every logical key.
pub proof fn law_virtual_device_translates_every_key(key: KeyCode)
    ensures
        native_key(key, Backend::VirtualDevice) is Some,
{
}

/// Where buttons are not keys, the three main mouse buttons are taken as
/// buttons whether or not the table of keys knows them.
pub proof fn law_main_buttons_always_have_a_target(key: KeyCode, backend: Backend)
    requires
        key.is_main_button(),
    ensures
        native_input(key, backend) is Some,
        !backend.spec_capabilities().buttons_are_keys ==> native_input(key, backend)
            == Some(NativeInput::Button(main_button(key)->Some_0)),
{
}

} // verus!
