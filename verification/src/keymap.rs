//! Key codes and the window-key to firmware-key translation.
//!
//! The window toolkit reports keys in its own naming; the hosted operating
//! system expects the firmware's hardware-independent key codes. The
//! translation is a fixed table; a window key outside the table is reported
//! as the letter X, a deliberate stand-in rather than an error.

use vstd::prelude::*;

verus! {

/// A key as named by the window toolkit's input events.
#[derive(Clone, Copy, Debug, PartialEq, Eq, Structural)]
pub enum Key {
    Backspace,
    Tab,
    Return,
    Escape,
    Space,
    Hash,
    Quote,
    Comma,
    Minus,
    Period,
    Slash,
    Num0,
    Num1,
    Num2,
    Num3,
    Num4,
    Num5,
    Num6,
    Num7,
    Num8,
    Num9,
    Semicolon,
    Equals,
    LeftBracket,
    Backslash,
    RightBracket,
    Backquote,
    A,
    B,
    C,
    D,
    E,
    F,
    G,
    H,
    I,
    J,
    K,
    L,
    M,
    N,
    O,
    P,
    Q,
    R,
    S,
    T,
    U,
    V,
    W,
    X,
    Y,
    Z,
    Delete,
    CapsLock,
    F1,
    F2,
    F3,
    F4,
    F5,
    F6,
    F7,
    F8,
    F9,
    F10,
    F11,
    F12,
    PrintScreen,
    ScrollLock,
    Pause,
    Insert,
    Home,
    PageUp,
    End,
    PageDown,
    Right,
    Left,
    Down,
    Up,
    NumLock,
    KpDivide,
    KpMultiply,
    KpMinus,
    KpPlus,
    KpEnter,
    Kp1,
    Kp2,
    Kp3,
    Kp4,
    Kp5,
    Kp6,
    Kp7,
    Kp8,
    Kp9,
    Kp0,
    KpPeriod,
    LCtrl,
    LShift,
    LAlt,
    LGui,
    RCtrl,
    RShift,
    RAlt,
    RGui,
    /// Any window key outside the table above.
    Unknown,
}

/// A hardware-independent key code handed to the operating system.
#[derive(Clone, Copy, Debug, PartialEq, Eq, Structural)]
pub enum KeyCode {
    Backspace,
    Tab,
    Return,
    Escape,
    Spacebar,
    Oem7,
    Oem3,
    OemComma,
    OemMinus,
    OemPeriod,
    Oem2,
    Key0,
    Key1,
    Key2,
    Key3,
    Key4,
    Key5,
    Key6,
    Key7,
    Key8,
    Key9,
    Oem1,
    OemPlus,
    Oem4,
    Oem5,
    Oem6,
    Oem8,
    A,
    B,
    C,
    D,
    E,
    F,
    G,
    H,
    I,
    J,
    K,
    L,
    M,
    N,
    O,
    P,
    Q,
    R,
    S,
    T,
    U,
    V,
    W,
    X,
    Y,
    Z,
    Delete,
    CapsLock,
    F1,
    F2,
    F3,
    F4,
    F5,
    F6,
    F7,
    F8,
    F9,
    F10,
    F11,
    F12,
    PrintScreen,
    ScrollLock,
    PauseBreak,
    Insert,
    Home,
    PageUp,
    End,
    PageDown,
    ArrowRight,
    ArrowLeft,
    ArrowDown,
    ArrowUp,
    NumpadLock,
    NumpadDivide,
    NumpadMultiply,
    NumpadSubtract,
    NumpadAdd,
    NumpadEnter,
    Numpad1,
    Numpad2,
    Numpad3,
    Numpad4,
    Numpad5,
    Numpad6,
    Numpad7,
    Numpad8,
    Numpad9,
    Numpad0,
    NumpadPeriod,
    LControl,
    LShift,
    LAlt,
    LWin,
    RControl,
    RShift,
    RAltGr,
    RWin,
}

/// The firmware key code each window key translates to.
pub open spec fn spec_keycode_for(key: Key) -> KeyCode {
    match key {
        Key::Backspace => KeyCode::Backspace,
        Key::Tab => KeyCode::Tab,
        Key::Return => KeyCode::Return,
        Key::Escape => KeyCode::Escape,
        Key::Space => KeyCode::Spacebar,
        Key::Hash => KeyCode::Oem7,
        Key::Quote => KeyCode::Oem3,
        Key::Comma => KeyCode::OemComma,
        Key::Minus => KeyCode::OemMinus,
        Key::Period => KeyCode::OemPeriod,
        Key::Slash => KeyCode::Oem2,
        Key::Num0 => KeyCode::Key0,
        Key::Num1 => KeyCode::Key1,
        Key::Num2 => KeyCode::Key2,
        Key::Num3 => KeyCode::Key3,
        Key::Num4 => KeyCode::Key4,
        Key::Num5 => KeyCode::Key5,
        Key::Num6 => KeyCode::Key6,
        Key::Num7 => KeyCode::Key7,
        Key::Num8 => KeyCode::Key8,
        Key::Num9 => KeyCode::Key9,
        Key::Semicolon => KeyCode::Oem1,
        Key::Equals => KeyCode::OemPlus,
        Key::LeftBracket => KeyCode::Oem4,
        Key::Backslash => KeyCode::Oem5,
        Key::RightBracket => KeyCode::Oem6,
        Key::Backquote => KeyCode::Oem8,
        Key::A => KeyCode::A,
        Key::B => KeyCode::B,
        Key::C => KeyCode::C,
        Key::D => KeyCode::D,
        Key::E => KeyCode::E,
        Key::F => KeyCode::F,
        Key::G => KeyCode::G,
        Key::H => KeyCode::H,
        Key::I => KeyCode::I,
        Key::J => KeyCode::J,
        Key::K => KeyCode::K,
        Key::L => KeyCode::L,
        Key::M => KeyCode::M,
        Key::N => KeyCode::N,
        Key::O => KeyCode::O,
        Key::P => KeyCode::P,
        Key::Q => KeyCode::Q,
        Key::R => KeyCode::R,
        Key::S => KeyCode::S,
        Key::T => KeyCode::T,
        Key::U => KeyCode::U,
        Key::V => KeyCode::V,
        Key::W => KeyCode::W,
        Key::X => KeyCode::X,
        Key::Y => KeyCode::Y,
        Key::Z => KeyCode::Z,
        Key::Delete => KeyCode::Delete,
        Key::CapsLock => KeyCode::CapsLock,
        Key::F1 => KeyCode::F1,
        Key::F2 => KeyCode::F2,
        Key::F3 => KeyCode::F3,
        Key::F4 => KeyCode::F4,
        Key::F5 => KeyCode::F5,
        Key::F6 => KeyCode::F6,
        Key::F7 => KeyCode::F7,
        Key::F8 => KeyCode::F8,
        Key::F9 => KeyCode::F9,
        Key::F10 => KeyCode::F10,
        Key::F11 => KeyCode::F11,
        Key::F12 => KeyCode::F12,
        Key::PrintScreen => KeyCode::PrintScreen,
        Key::ScrollLock => KeyCode::ScrollLock,
        Key::Pause => KeyCode::PauseBreak,
        Key::Insert => KeyCode::Insert,
        Key::Home => KeyCode::Home,
        Key::PageUp => KeyCode::PageUp,
        Key::End => KeyCode::End,
        Key::PageDown => KeyCode::PageDown,
        Key::Right => KeyCode::ArrowRight,
        Key::Left => KeyCode::ArrowLeft,
        Key::Down => KeyCode::ArrowDown,
        Key::Up => KeyCode::ArrowUp,
        Key::NumLock => KeyCode::NumpadLock,
        Key::KpDivide => KeyCode::NumpadDivide,
        Key::KpMultiply => KeyCode::NumpadMultiply,
        Key::KpMinus => KeyCode::NumpadSubtract,
        Key::KpPlus => KeyCode::NumpadAdd,
        Key::KpEnter => KeyCode::NumpadEnter,
        Key::Kp1 => KeyCode::Numpad1,
        Key::Kp2 => KeyCode::Numpad2,
        Key::Kp3 => KeyCode::Numpad3,
        Key::Kp4 => KeyCode::Numpad4,
        Key::Kp5 => KeyCode::Numpad5,
        Key::Kp6 => KeyCode::Numpad6,
        Key::Kp7 => KeyCode::Numpad7,
        Key::Kp8 => KeyCode::Numpad8,
        Key::Kp9 => KeyCode::Numpad9,
        Key::Kp0 => KeyCode::Numpad0,
        Key::KpPeriod => KeyCode::NumpadPeriod,
        Key::LCtrl => KeyCode::LControl,
        Key::LShift => KeyCode::LShift,
        Key::LAlt => KeyCode::LAlt,
        Key::LGui => KeyCode::LWin,
        Key::RCtrl => KeyCode::RControl,
        Key::RShift => KeyCode::RShift,
        Key::RAlt => KeyCode::RAltGr,
        Key::RGui => KeyCode::RWin,
        Key::Unknown => KeyCode::X,
    }
}

/// Translate a window key into the firmware key code of the fixed table.
pub fn convert_keycode(key: Key) -> (r: KeyCode)
    ensures
        r == spec_keycode_for(key),
{
    match key {
        Key::Backspace => KeyCode::Backspace,
        Key::Tab => KeyCode::Tab,
        Key::Return => KeyCode::Return,
        Key::Escape => KeyCode::Escape,
        Key::Space => KeyCode::Spacebar,
        Key::Hash => KeyCode::Oem7,
        Key::Quote => KeyCode::Oem3,
        Key::Comma => KeyCode::OemComma,
        Key::Minus => KeyCode::OemMinus,
        Key::Period => KeyCode::OemPeriod,
        Key::Slash => KeyCode::Oem2,
        Key::Num0 => KeyCode::Key0,
        Key::Num1 => KeyCode::Key1,
        Key::Num2 => KeyCode::Key2,
        Key::Num3 => KeyCode::Key3,
        Key::Num4 => KeyCode::Key4,
        Key::Num5 => KeyCode::Key5,
        Key::Num6 => KeyCode::Key6,
        Key::Num7 => KeyCode::Key7,
        Key::Num8 => KeyCode::Key8,
        Key::Num9 => KeyCode::Key9,
        Key::Semicolon => KeyCode::Oem1,
        Key::Equals => KeyCode::OemPlus,
        Key::LeftBracket => KeyCode::Oem4,
        Key::Backslash => KeyCode::Oem5,
        Key::RightBracket => KeyCode::Oem6,
        Key::Backquote => KeyCode::Oem8,
        Key::A => KeyCode::A,
        Key::B => KeyCode::B,
        Key::C => KeyCode::C,
        Key::D => KeyCode::D,
        Key::E => KeyCode::E,
        Key::F => KeyCode::F,
        Key::G => KeyCode::G,
        Key::H => KeyCode::H,
        Key::I => KeyCode::I,
        Key::J => KeyCode::J,
        Key::K => KeyCode::K,
        Key::L => KeyCode::L,
        Key::M => KeyCode::M,
        Key::N => KeyCode::N,
        Key::O => KeyCode::O,
        Key::P => KeyCode::P,
        Key::Q => KeyCode::Q,
        Key::R => KeyCode::R,
        Key::S => KeyCode::S,
        Key::T => KeyCode::T,
        Key::U => KeyCode::U,
        Key::V => KeyCode::V,
        Key::W => KeyCode::W,
        Key::X => KeyCode::X,
        Key::Y => KeyCode::Y,
        Key::Z => KeyCode::Z,
        Key::Delete => KeyCode::Delete,
        Key::CapsLock => KeyCode::CapsLock,
        Key::F1 => KeyCode::F1,
        Key::F2 => KeyCode::F2,
        Key::F3 => KeyCode::F3,
        Key::F4 => KeyCode::F4,
        Key::F5 => KeyCode::F5,
        Key::F6 => KeyCode::F6,
        Key::F7 => KeyCode::F7,
        Key::F8 => KeyCode::F8,
        Key::F9 => KeyCode::F9,
        Key::F10 => KeyCode::F10,
        Key::F11 => KeyCode::F11,
        Key::F12 => KeyCode::F12,
        Key::PrintScreen => KeyCode::PrintScreen,
        Key::ScrollLock => KeyCode::ScrollLock,
        Key::Pause => KeyCode::PauseBreak,
        Key::Insert => KeyCode::Insert,
        Key::Home => KeyCode::Home,
        Key::PageUp => KeyCode::PageUp,
        Key::End => KeyCode::End,
        Key::PageDown => KeyCode::PageDown,
        Key::Right => KeyCode::ArrowRight,
        Key::Left => KeyCode::ArrowLeft,
        Key::Down => KeyCode::ArrowDown,
        Key::Up => KeyCode::ArrowUp,
        Key::NumLock => KeyCode::NumpadLock,
        Key::KpDivide => KeyCode::NumpadDivide,
        Key::KpMultiply => KeyCode::NumpadMultiply,
        Key::KpMinus => KeyCode::NumpadSubtract,
        Key::KpPlus => KeyCode::NumpadAdd,
        Key::KpEnter => KeyCode::NumpadEnter,
        Key::Kp1 => KeyCode::Numpad1,
        Key::Kp2 => KeyCode::Numpad2,
        Key::Kp3 => KeyCode::Numpad3,
        Key::Kp4 => KeyCode::Numpad4,
        Key::Kp5 => KeyCode::Numpad5,
        Key::Kp6 => KeyCode::Numpad6,
        Key::Kp7 => KeyCode::Numpad7,
        Key::Kp8 => KeyCode::Numpad8,
        Key::Kp9 => KeyCode::Numpad9,
        Key::Kp0 => KeyCode::Numpad0,
        Key::KpPeriod => KeyCode::NumpadPeriod,
        Key::LCtrl => KeyCode::LControl,
        Key::LShift => KeyCode::LShift,
        Key::LAlt => KeyCode::LAlt,
        Key::LGui => KeyCode::LWin,
        Key::RCtrl => KeyCode::RControl,
        Key::RShift => KeyCode::RShift,
        Key::RAlt => KeyCode::RAltGr,
        Key::RGui => KeyCode::RWin,
        Key::Unknown => KeyCode::X,
    }
}

} // verus!
