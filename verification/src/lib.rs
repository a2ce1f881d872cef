//! A single logical interface for synthesizing keyboard and mouse input.
//!
//! The crate holds the decisions of an input emulator: how a relative
//! displacement is broken into unit steps, how a logical key is translated
//! for each backend, and which primitive backend calls each operation of the
//! facade comes down to, given what the backend is able to do. Performing a
//! call on a device is left to the caller of this crate.

use vstd::prelude::*;

pub mod backend;
pub mod cursor;
pub mod device_codes;
pub mod enigo_keys;
pub mod facade;
pub mod gradual_move;
pub mod hidg_keys;
pub mod hidg_reports;
pub mod hidg_usage;
pub mod input_emulator;
pub mod key_codes;
pub mod laws;
pub mod native_calls;
pub mod native_keys;
pub mod plan;
pub mod tfc_keys;
pub mod translation;

pub use crate::backend::{Backend, Capabilities, Synchronization};
pub use crate::cursor::Cursor;
pub use crate::gradual_move::GradualMove;
pub use crate::input_emulator::InputEmulator;
pub use crate::key_codes::KeyCode;
pub use crate::native_keys::{EnigoKey, HidgKey, MouseButton, NativeInput, NativeKey, TfcKey};
pub use crate::plan::{BackendCall, Delivery, Operation, Phase, Plan};
pub use crate::translation::UnsupportedKey;

verus! {

/// A relative displacement or scroll delta along one axis.
#[allow(non_camel_case_types)]
pub type OS_Input_Coord = i32;

/// A raw event record of a batching backend: category, code and value.
pub type EventParams = (u16, u16, i32);

} // verus!
