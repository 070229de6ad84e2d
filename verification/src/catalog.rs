//! Translation of logical keys into native codes and synthetic descriptors.
//!
//! The catalog is a static, total mapping: every [`Key`] has one native
//! virtual-key code, and translation precomputes the pair of synthetic
//! descriptors (press, release) that the host later injects.  Keyboard keys
//! additionally carry the hardware scan code, which only the platform can
//! supply; it enters here as a plain argument.

use vstd::prelude::*;

use crate::key::is_mouse;
use crate::key::Key;
use crate::Error;

verus! {

// Native virtual-key codes of the pointer buttons.
pub const VK_LBUTTON: u16 = 0x01;
pub const VK_RBUTTON: u16 = 0x02;
pub const VK_MBUTTON: u16 = 0x04;
pub const VK_XBUTTON1: u16 = 0x05;
pub const VK_XBUTTON2: u16 = 0x06;

// Native flags of injected pointer events.
pub const MOUSEEVENTF_LEFTDOWN: u32 = 0x0002;
pub const MOUSEEVENTF_LEFTUP: u32 = 0x0004;
pub const MOUSEEVENTF_RIGHTDOWN: u32 = 0x0008;
pub const MOUSEEVENTF_RIGHTUP: u32 = 0x0010;
pub const MOUSEEVENTF_MIDDLEDOWN: u32 = 0x0020;
pub const MOUSEEVENTF_MIDDLEUP: u32 = 0x0040;
pub const MOUSEEVENTF_XDOWN: u32 = 0x0080;
pub const MOUSEEVENTF_XUP: u32 = 0x0100;

// Auxiliary data distinguishing the two extra pointer buttons.
pub const XBUTTON1: u16 = 0x01;
pub const XBUTTON2: u16 = 0x02;

/// One synthetic input occurrence, ready for the host to hand to the
/// platform's injection call.  `release` selects the key-up flag of a
/// keyboard event; `data` carries the extra-button identifier where a
/// pointer event needs one to demultiplex.
#[derive(Clone, Copy, Debug, PartialEq, Eq, Structural)]
pub enum SyntheticEvent {
    Keyboard { vk: u16, scan: u16, release: bool },
    Mouse { flags: u32, data: u32 },
}

/// The precomputed press and release descriptors of one tracked key.
#[derive(Clone, Copy, Debug, PartialEq, Eq, Structural)]
pub struct EventPair {
    pub press: SyntheticEvent,
    pub release: SyntheticEvent,
}

/// The native virtual-key code of each key in the catalog.
pub open spec fn vk_of(key: Key) -> u16 {
    match key {
        Key::Backquote => 0xC0,
        Key::Backslash => 0xDC,
        Key::BracketLeft => 0xDB,
        Key::BracketRight => 0xDD,
        Key::Comma => 0xBC,
        Key::Zero => 0x30,
        Key::One => 0x31,
        Key::Two => 0x32,
        Key::Three => 0x33,
        Key::Four => 0x34,
        Key::Five => 0x35,
        Key::Six => 0x36,
        Key::Seven => 0x37,
        Key::Eight => 0x38,
        Key::Nine => 0x39,
        Key::Equal => 0xBB,
        Key::A => 0x41,
        Key::B => 0x42,
        Key::C => 0x43,
        Key::D => 0x44,
        Key::E => 0x45,
        Key::F => 0x46,
        Key::G => 0x47,
        Key::H => 0x48,
        Key::I => 0x49,
        Key::J => 0x4A,
        Key::K => 0x4B,
        Key::L => 0x4C,
        Key::M => 0x4D,
        Key::N => 0x4E,
        Key::O => 0x4F,
        Key::P => 0x50,
        Key::Q => 0x51,
        Key::R => 0x52,
        Key::S => 0x53,
        Key::T => 0x54,
        Key::U => 0x55,
        Key::V => 0x56,
        Key::W => 0x57,
        Key::X => 0x58,
        Key::Y => 0x59,
        Key::Z => 0x5A,
        Key::Minus => 0xBD,
        Key::Period => 0xBE,
        Key::Quote => 0xDE,
        Key::Semicolon => 0xBA,
        Key::Slash => 0xBF,
        Key::AltLeft => 0xA4,
        Key::AltRight => 0xA5,
        Key::Backspace => 0x08,
        Key::CapsLock => 0x14,
        Key::ControlLeft => 0xA2,
        Key::ControlRight => 0xA3,
        Key::Enter => 0x0D,
        Key::SuperLeft => 0x5B,
        Key::SuperRight => 0x5C,
        Key::ShiftLeft => 0xA0,
        Key::ShiftRight => 0xA1,
        Key::Space => 0x20,
        Key::Tab => 0x09,
        Key::Delete => 0x2E,
        Key::End => 0x23,
        Key::Home => 0x24,
        Key::Insert => 0x2D,
        Key::PageDown => 0x22,
        Key::PageUp => 0x21,
        Key::ArrowDown => 0x28,
        Key::ArrowLeft => 0x25,
        Key::ArrowRight => 0x27,
        Key::ArrowUp => 0x26,
        Key::Escape => 0x1B,
        Key::PrintScreen => 0x2C,
        Key::ScrollLock => 0x91,
        Key::Pause => 0x13,
        Key::F1 => 0x70,
        Key::F2 => 0x71,
        Key::F3 => 0x72,
        Key::F4 => 0x73,
        Key::F5 => 0x74,
        Key::F6 => 0x75,
        Key::F7 => 0x76,
        Key::F8 => 0x77,
        Key::F9 => 0x78,
        Key::F10 => 0x79,
        Key::F11 => 0x7A,
        Key::F12 => 0x7B,
        Key::F13 => 0x7C,
        Key::F14 => 0x7D,
        Key::F15 => 0x7E,
        Key::F16 => 0x7F,
        Key::F17 => 0x80,
        Key::F18 => 0x81,
        Key::F19 => 0x82,
        Key::F20 => 0x83,
        Key::F21 => 0x84,
        Key::F22 => 0x85,
        Key::F23 => 0x86,
        Key::F24 => 0x87,
        Key::MouseLeft => 0x01,
        Key::MouseRight => 0x02,
        Key::MouseMiddle => 0x04,
        Key::MouseBack => 0x05,
        Key::MouseForward => 0x06,
    }
}

/// Press and release descriptors of a keyboard key, given its scan code.
pub open spec fn keyboard_pair(vk: u16, scan: u32) -> EventPair {
    EventPair {
        press: SyntheticEvent::Keyboard { vk: vk, scan: scan as u16, release: false },
        release: SyntheticEvent::Keyboard { vk: vk, scan: scan as u16, release: true },
    }
}

/// Press and release descriptors of a pointer button.
pub open spec fn mouse_pair(down: u32, up: u32, x: Option<u16>) -> EventPair {
    let data = match x {
        Option::Some(v) => v as u32,
        Option::None => 0,
    };
    EventPair {
        press: SyntheticEvent::Mouse { flags: down, data: data },
        release: SyntheticEvent::Mouse { flags: up, data: data },
    }
}

/// Whether translation succeeds: a pointer button always does, a keyboard
/// key only where the platform reported a nonzero scan code.
pub open spec fn translates(key: Key, scan: u32) -> bool {
    is_mouse(key) || scan != 0
}

/// The descriptor pair a successful translation of `key` yields, where
/// `scan` is the platform's scan code for its virtual-key code.
pub open spec fn events_of(key: Key, scan: u32) -> EventPair {
    match key {
        Key::MouseLeft => mouse_pair(MOUSEEVENTF_LEFTDOWN, MOUSEEVENTF_LEFTUP, Option::None),
        Key::MouseRight => mouse_pair(MOUSEEVENTF_RIGHTDOWN, MOUSEEVENTF_RIGHTUP, Option::None),
        Key::MouseMiddle => mouse_pair(MOUSEEVENTF_MIDDLEDOWN, MOUSEEVENTF_MIDDLEUP, Option::None),
        Key::MouseBack => mouse_pair(MOUSEEVENTF_XDOWN, MOUSEEVENTF_XUP, Option::Some(XBUTTON1)),
        Key::MouseForward => mouse_pair(MOUSEEVENTF_XDOWN, MOUSEEVENTF_XUP, Option::Some(XBUTTON2)),
        _ => keyboard_pair(vk_of(key), scan),
    }
}

/// The native virtual-key code of `key`.
pub fn virtual_key(key: Key) -> (vk: u16)
    ensures
        vk == vk_of(key),
{
    match key {
        Key::Backquote => 0xC0,
        Key::Backslash => 0xDC,
        Key::BracketLeft => 0xDB,
        Key::BracketRight => 0xDD,
        Key::Comma => 0xBC,
        Key::Zero => 0x30,
        Key::One => 0x31,
        Key::Two => 0x32,
        Key::Three => 0x33,
        Key::Four => 0x34,
        Key::Five => 0x35,
        Key::Six => 0x36,
        Key::Seven => 0x37,
        Key::Eight => 0x38,
        Key::Nine => 0x39,
        Key::Equal => 0xBB,
        Key::A => 0x41,
        Key::B => 0x42,
        Key::C => 0x43,
        Key::D => 0x44,
        Key::E => 0x45,
        Key::F => 0x46,
        Key::G => 0x47,
        Key::H => 0x48,
        Key::I => 0x49,
        Key::J => 0x4A,
        Key::K => 0x4B,
        Key::L => 0x4C,
        Key::M => 0x4D,
        Key::N => 0x4E,
        Key::O => 0x4F,
        Key::P => 0x50,
        Key::Q => 0x51,
        Key::R => 0x52,
        Key::S => 0x53,
        Key::T => 0x54,
        Key::U => 0x55,
        Key::V => 0x56,
        Key::W => 0x57,
        Key::X => 0x58,
        Key::Y => 0x59,
        Key::Z => 0x5A,
        Key::Minus => 0xBD,
        Key::Period => 0xBE,
        Key::Quote => 0xDE,
        Key::Semicolon => 0xBA,
        Key::Slash => 0xBF,
        Key::AltLeft => 0xA4,
        Key::AltRight => 0xA5,
        Key::Backspace => 0x08,
        Key::CapsLock => 0x14,
        Key::ControlLeft => 0xA2,
        Key::ControlRight => 0xA3,
        Key::Enter => 0x0D,
        Key::SuperLeft => 0x5B,
        Key::SuperRight => 0x5C,
        Key::ShiftLeft => 0xA0,
        Key::ShiftRight => 0xA1,
        Key::Space => 0x20,
        Key::Tab => 0x09,
        Key::Delete => 0x2E,
        Key::End => 0x23,
        Key::Home => 0x24,
        Key::Insert => 0x2D,
        Key::PageDown => 0x22,
        Key::PageUp => 0x21,
        Key::ArrowDown => 0x28,
        Key::ArrowLeft => 0x25,
        Key::ArrowRight => 0x27,
        Key::ArrowUp => 0x26,
        Key::Escape => 0x1B,
        Key::PrintScreen => 0x2C,
        Key::ScrollLock => 0x91,
        Key::Pause => 0x13,
        Key::F1 => 0x70,
        Key::F2 => 0x71,
        Key::F3 => 0x72,
        Key::F4 => 0x73,
        Key::F5 => 0x74,
        Key::F6 => 0x75,
        Key::F7 => 0x76,
        Key::F8 => 0x77,
        Key::F9 => 0x78,
        Key::F10 => 0x79,
        Key::F11 => 0x7A,
        Key::F12 => 0x7B,
        Key::F13 => 0x7C,
        Key::F14 => 0x7D,
        Key::F15 => 0x7E,
        Key::F16 => 0x7F,
        Key::F17 => 0x80,
        Key::F18 => 0x81,
        Key::F19 => 0x82,
        Key::F20 => 0x83,
        Key::F21 => 0x84,
        Key::F22 => 0x85,
        Key::F23 => 0x86,
        Key::F24 => 0x87,
        Key::MouseLeft => 0x01,
        Key::MouseRight => 0x02,
        Key::MouseMiddle => 0x04,
        Key::MouseBack => 0x05,
        Key::MouseForward => 0x06,
    }
}

/// Builds the native code and descriptor pair of a keyboard key from its
/// virtual-key code and the platform-reported scan code.  A zero scan code
/// is the platform saying the key has none, and fails the translation.
pub fn convert_keyboard(vk: u16, scan: u32) -> (r: Result<(u16, EventPair), Error>)
    ensures
        r is Ok <==> scan != 0,
        r matches Ok(p) ==> p == (vk, keyboard_pair(vk, scan)),
        r matches Err(e) ==> e == Error::Translation,
{
    if scan == 0 {
        return Result::Err(Error::Translation);
    }
    let s: u16 = scan as u16;
    Result::Ok((
        vk,
        EventPair {
            press: SyntheticEvent::Keyboard { vk: vk, scan: s, release: false },
            release: SyntheticEvent::Keyboard { vk: vk, scan: s, release: true },
        },
    ))
}

/// Builds the native code and descriptor pair of a pointer button from its
/// down/up flags and optional extra-button identifier.
pub fn convert_mouse(vk: u16, down: u32, up: u32, x: Option<u16>) -> (r: (u16, EventPair))
    ensures
        r == (vk, mouse_pair(down, up, x)),
{
    let data: u32 = match x {
        Option::Some(v) => v as u32,
        Option::None => 0,
    };
    (
        vk,
        EventPair {
            press: SyntheticEvent::Mouse { flags: down, data: data },
            release: SyntheticEvent::Mouse { flags: up, data: data },
        },
    )
}

/// Translates a logical key into its native code and precomputed
/// descriptor pair.  `scan` is the platform's scan code for the key's
/// virtual-key code; pointer buttons ignore it.  The translation is a pure
/// function of its arguments: it succeeds exactly where [`translates`]
/// holds, and a failure is always [`Error::Translation`].
pub fn into_raw(key: Key, scan: u32) -> (r: Result<(u16, EventPair), Error>)
    ensures
        r is Ok <==> translates(key, scan),
        r matches Ok(p) ==> p == (vk_of(key), events_of(key, scan)),
        r matches Err(e) ==> e == Error::Translation,
{
    match key {
        Key::MouseLeft => Result::Ok(convert_mouse(
            VK_LBUTTON,
            MOUSEEVENTF_LEFTDOWN,
            MOUSEEVENTF_LEFTUP,
            Option::None,
        )),
        Key::MouseRight => Result::Ok(convert_mouse(
            VK_RBUTTON,
            MOUSEEVENTF_RIGHTDOWN,
            MOUSEEVENTF_RIGHTUP,
            Option::None,
        )),
        Key::MouseMiddle => Result::Ok(convert_mouse(
            VK_MBUTTON,
            MOUSEEVENTF_MIDDLEDOWN,
            MOUSEEVENTF_MIDDLEUP,
            Option::None,
        )),
        Key::MouseBack => Result::Ok(convert_mouse(
            VK_XBUTTON1,
            MOUSEEVENTF_XDOWN,
            MOUSEEVENTF_XUP,
            Option::Some(XBUTTON1),
        )),
        Key::MouseForward => Result::Ok(convert_mouse(
            VK_XBUTTON2,
            MOUSEEVENTF_XDOWN,
            MOUSEEVENTF_XUP,
            Option::Some(XBUTTON2),
        )),
        _ => convert_keyboard(virtual_key(key), scan),
    }
}

} // verus!
