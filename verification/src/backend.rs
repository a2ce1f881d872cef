//! The backends and what each of them is able to do.

use vstd::prelude::*;

verus! {

/// An input-injection mechanism that an emulator can drive.
#[derive(PartialEq, Eq, Structural, Copy, Clone, Debug, Hash)]
pub enum Backend {
    /// A kernel-level virtual input device.
    VirtualDevice,
    /// The desktop automation library, with keys given as raw codes.
    EnigoLinux,
    /// The desktop automation library, with keys given by name.
    EnigoWindows,
    /// The platform injection context.
    Tfc,
    /// A pair of USB gadget devices, one keyboard and one mouse.
    Hidg,
}

/// How a backend brings pending state to the operating system.
#[derive(PartialEq, Eq, Structural, Copy, Clone, Debug, Hash)]
pub enum Synchronization {
    /// Every call is complete in itself; there is nothing to synchronize.
    Unneeded,
    /// One synchronization covers mouse and keyboard.
    Combined,
    /// Mouse and keyboard are synchronized apart.
    Separate,
}

/// What a backend offers beyond the operations that every backend has.
#[derive(PartialEq, Eq, Structural, Copy, Clone, Debug, Hash)]
pub struct Capabilities {
    /// Motion and scroll without synchronization.
    pub raw_motion: bool,
    /// Operations that hand back event records instead of acting, and the
    /// writing of such records.
    pub batching: bool,
    /// How pending state is synchronized.
    pub synchronization: Synchronization,
    /// A key or button transition only changes pending state, which has to
    /// be synchronized afterwards.
    pub keys_need_synchronization: bool,
    /// Mouse buttons are translated like keys.
    pub buttons_are_keys: bool,
}

impl Backend {
    /// What this backend is able to do.
    pub open spec fn spec_capabilities(self) -> Capabilities {
        match self {
            Backend::VirtualDevice => Capabilities {
                raw_motion: true,
                batching: true,
                synchronization: Synchronization::Combined,
                keys_need_synchronization: false,
                buttons_are_keys: true,
            },
            Backend::Hidg => Capabilities {
                raw_motion: false,
                batching: false,
                synchronization: Synchronization::Separate,
                keys_need_synchronization: true,
                buttons_are_keys: false,
            },
            _ => Capabilities {
                raw_motion: false,
                batching: false,
                synchronization: Synchronization::Unneeded,
                keys_need_synchronization: false,
                buttons_are_keys: false,
            },
        }
    }

    /// What this backend is able to do.
    #[verifier::when_used_as_spec(spec_capabilities)]
    pub fn capabilities(self) -> (r: Capabilities)
        ensures
            r == self.spec_capabilities(),
    {
        match self {
            Backend::VirtualDevice => Capabilities {
                raw_motion: true,
                batching: true,
                synchronization: Synchronization::Combined,
                keys_need_synchronization: false,
                buttons_are_keys: true,
            },
            Backend::Hidg => Capabilities {
                raw_motion: false,
                batching: false,
                synchronization: Synchronization::Separate,
                keys_need_synchronization: true,
                buttons_are_keys: false,
            },
            Backend::EnigoLinux | Backend::EnigoWindows | Backend::Tfc => Capabilities {
                raw_motion: false,
                batching: false,
                synchronization: Synchronization::Unneeded,
                keys_need_synchronization: false,
                buttons_are_keys: false,
            },
        }
    }
}

} // verus!
