//! What a logical key is for each backend.
//!
//! Each type names the keys of one backend as plain values; the caller that
//! drives the backend hands them on one for one.

use vstd::prelude::*;

verus! {

/// One of the three main mouse buttons.
#[derive(PartialEq, Eq, Structural, Copy, Clone, Debug, Hash)]
pub enum MouseButton {
    Left,
    Right,
    Middle,
}

/// A key of the USB gadget keyboard.
#[derive(PartialEq, Eq, Structural, Copy, Clone, Debug, Hash)]
pub enum HidgKey {
    Esc,
    Num1,
    Num2,
    Num3,
    Num4,
    Num5,
    Num6,
    Num7,
    Num8,
    Num9,
    Num0,
    Minus,
    Equal,
    BackSpace,
    Tab,
    Q,
    W,
    E,
    R,
    T,
    Y,
    U,
    I,
    O,
    P,
    LeftBrace,
    RightBrace,
    Enter,
    LeftCtrl,
    A,
    S,
    D,
    F,
    G,
    H,
    J,
    K,
    L,
    Semicolon,
    Apostrophe,
    Grave,
    LeftShift,
    BackSlash,
    Z,
    X,
    C,
    V,
    B,
    N,
    M,
    Comma,
    Dot,
    Slash,
    RightShift,
    LeftAlt,
    Space,
    CapsLock,
    F1,
    F2,
    F3,
    F4,
    F5,
    F6,
    F7,
    F8,
    F9,
    F10,
    KeyPad7,
    KeyPad8,
    KeyPad9,
    KeyPadMinus,
    KeyPad4,
    KeyPad5,
    KeyPad6,
    KeyPadPlus,
    KeyPad1,
    KeyPad2,
    KeyPad3,
    KeyPad0,
    KeyPadDot,
    F11,
    F12,
    KeyPadEnter,
    RightCtrl,
    KeyPadSlash,
    RightAlt,
    Home,
    Up,
    PageUp,
    Left,
    Right,
    End,
    Down,
    PageDown,
    Insert,
    Delete,
    Mute,
    VolumeDown,
    VolumeUp,
    KeyPadEqual,
    LeftMeta,
    RightMeta,
}

/// A key of the platform injection context.
#[derive(PartialEq, Eq, Structural, Copy, Clone, Debug, Hash)]
pub enum TfcKey {
    Escape,
    N1,
    N2,
    N3,
    N4,
    N5,
    N6,
    N7,
    N8,
    N9,
    N0,
    Minus,
    Equal,
    DeleteOrBackspace,
    Tab,
    Q,
    W,
    E,
    R,
    T,
    Y,
    U,
    I,
    O,
    P,
    LeftBracket,
    RightBracket,
    ReturnOrEnter,
    Control,
    A,
    S,
    D,
    F,
    G,
    H,
    J,
    K,
    L,
    Semicolon,
    Quote,
    Grave,
    Shift,
    Backslash,
    Z,
    X,
    C,
    V,
    B,
    N,
    M,
    Comma,
    Period,
    Slash,
    RightShift,
    Alt,
    Space,
    CapsLock,
    F1,
    F2,
    F3,
    F4,
    F5,
    F6,
    F7,
    F8,
    F9,
    F10,
    Numpad7,
    Numpad8,
    Numpad9,
    NumpadMinus,
    Numpad4,
    Numpad5,
    Numpad6,
    NumpadPlus,
    Numpad1,
    Numpad2,
    Numpad3,
    Numpad0,
    NumpadDecimal,
    F11,
    F12,
    NumpadEnter,
    RightControl,
    NumpadDivide,
    RightAlt,
    Home,
    UpArrow,
    PageUp,
    LeftArrow,
    RightArrow,
    End,
    DownArrow,
    PageDown,
    Insert,
    ForwardDelete,
    Mute,
    VolumeDown,
    VolumeUp,
    NumpadEquals,
    Meta,
    RightMeta,
}

/// A key of the desktop automation library: a raw code, a character, or a
/// named key.
#[derive(PartialEq, Eq, Structural, Copy, Clone, Debug, Hash)]
pub enum EnigoKey {
    Other(u32),
    Unicode(char),
    Escape,
    Num1,
    Num2,
    Num3,
    Num4,
    Num5,
    Num6,
    Num7,
    Num8,
    Num9,
    Num0,
    OEMMinus,
    OEMNECEqual,
    Backspace,
    Tab,
    Q,
    W,
    E,
    R,
    T,
    Y,
    U,
    I,
    O,
    P,
    Return,
    LControl,
    A,
    S,
    D,
    F,
    G,
    H,
    J,
    K,
    L,
    LShift,
    Z,
    X,
    C,
    V,
    B,
    N,
    M,
    OEMComma,
    OEMPeriod,
    RShift,
    Alt,
    Space,
    CapsLock,
    F1,
    F2,
    F3,
    F4,
    F5,
    F6,
    F7,
    F8,
    F9,
    F10,
    Numlock,
    Numpad7,
    Numpad8,
    Numpad9,
    Numpad4,
    Numpad5,
    Numpad6,
    OEMPlus,
    Numpad1,
    Numpad2,
    Numpad3,
    Numpad0,
    F11,
    F12,
    RControl,
    UpArrow,
    PageUp,
    LeftArrow,
    RightArrow,
    End,
    DownArrow,
    PageDown,
    Insert,
    Delete,
    LWin,
    RWin,
}

/// A key in the form that one backend takes.
#[derive(PartialEq, Eq, Structural, Copy, Clone, Debug, Hash)]
pub enum NativeKey {
    /// An event code of the virtual device.
    Code(u16),
    Enigo(EnigoKey),
    Tfc(TfcKey),
    Hidg(HidgKey),
}

/// What a press or a release acts on: a mouse button, or a key.
#[derive(PartialEq, Eq, Structural, Copy, Clone, Debug, Hash)]
pub enum NativeInput {
    Button(MouseButton),
    Key(NativeKey),
}

} // verus!
