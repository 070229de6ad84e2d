//! Translation of logical keys into native codes and descriptors.

use fastkey::catalog::EventPair;
use fastkey::catalog::SyntheticEvent;
use fastkey::convert_keyboard;
use fastkey::convert_mouse;
use fastkey::into_raw;
use fastkey::virtual_key;
use fastkey::Error;
use fastkey::Key;

#[test]
fn translate_letter_exact() {
    let (code, pair) = into_raw(Key::A, 0x1E).unwrap();
    assert_eq!(code, 0x41);
    assert_eq!(
        pair.press,
        SyntheticEvent::Keyboard { vk: 0x41, scan: 0x1E, release: false }
    );
    assert_eq!(
        pair.release,
        SyntheticEvent::Keyboard { vk: 0x41, scan: 0x1E, release: true }
    );
}

#[test]
fn translate_escape_exact() {
    let (code, pair) = into_raw(Key::Escape, 0x01).unwrap();
    assert_eq!(code, 0x1B);
    assert_eq!(
        pair.press,
        SyntheticEvent::Keyboard { vk: 0x1B, scan: 0x01, release: false }
    );
}

#[test]
fn translate_covers_keyboard_codes() {
    assert_eq!(virtual_key(Key::Backquote), 0xC0);
    assert_eq!(virtual_key(Key::Zero), 0x30);
    assert_eq!(virtual_key(Key::Nine), 0x39);
    assert_eq!(virtual_key(Key::Z), 0x5A);
    assert_eq!(virtual_key(Key::Enter), 0x0D);
    assert_eq!(virtual_key(Key::Space), 0x20);
    assert_eq!(virtual_key(Key::F1), 0x70);
    assert_eq!(virtual_key(Key::F24), 0x87);
    assert_eq!(virtual_key(Key::ScrollLock), 0x91);
    assert_eq!(virtual_key(Key::MouseLeft), 0x01);
    assert_eq!(virtual_key(Key::MouseForward), 0x06);
}

#[test]
fn translate_is_deterministic() {
    let first = into_raw(Key::Comma, 0x33).unwrap();
    let second = into_raw(Key::Comma, 0x33).unwrap();
    assert_eq!(first, second);
}

#[test]
fn translate_is_total_over_sample() {
    // Every key translates once a nonzero scan code is supplied.
    let keys = vec![
        Key::Backquote,
        Key::Tab,
        Key::CapsLock,
        Key::ShiftLeft,
        Key::ControlRight,
        Key::SuperLeft,
        Key::ArrowUp,
        Key::PageDown,
        Key::PrintScreen,
        Key::Pause,
        Key::F13,
        Key::MouseLeft,
        Key::MouseRight,
        Key::MouseMiddle,
        Key::MouseBack,
        Key::MouseForward,
    ];
    for key in keys {
        assert!(into_raw(key, 0x2A).is_ok());
    }
}

#[test]
fn translate_fails_without_scan_code() {
    assert_eq!(into_raw(Key::A, 0), Err(Error::Translation));
    assert_eq!(convert_keyboard(0x41, 0), Err(Error::Translation));
}

#[test]
fn pointer_buttons_ignore_scan_code() {
    assert!(into_raw(Key::MouseLeft, 0).is_ok());
    assert!(into_raw(Key::MouseForward, 0).is_ok());
}

#[test]
fn mouse_left_descriptors() {
    let (code, pair) = into_raw(Key::MouseLeft, 0).unwrap();
    assert_eq!(code, 0x01);
    assert_eq!(pair.press, SyntheticEvent::Mouse { flags: 0x0002, data: 0 });
    assert_eq!(pair.release, SyntheticEvent::Mouse { flags: 0x0004, data: 0 });
}

#[test]
fn mouse_right_release_uses_right_up_flag() {
    let (code, pair) = into_raw(Key::MouseRight, 0).unwrap();
    assert_eq!(code, 0x02);
    assert_eq!(pair.press, SyntheticEvent::Mouse { flags: 0x0008, data: 0 });
    assert_eq!(pair.release, SyntheticEvent::Mouse { flags: 0x0010, data: 0 });
}

#[test]
fn extra_buttons_carry_identifier() {
    let (back_code, back) = into_raw(Key::MouseBack, 0).unwrap();
    assert_eq!(back_code, 0x05);
    assert_eq!(back.press, SyntheticEvent::Mouse { flags: 0x0080, data: 1 });
    assert_eq!(back.release, SyntheticEvent::Mouse { flags: 0x0100, data: 1 });

    let (fwd_code, fwd) = into_raw(Key::MouseForward, 0).unwrap();
    assert_eq!(fwd_code, 0x06);
    assert_eq!(fwd.press, SyntheticEvent::Mouse { flags: 0x0080, data: 2 });
    assert_eq!(fwd.release, SyntheticEvent::Mouse { flags: 0x0100, data: 2 });
}

#[test]
fn convert_mouse_builds_pair() {
    let (code, pair): (u16, EventPair) = convert_mouse(0x04, 0x0020, 0x0040, None);
    assert_eq!(code, 0x04);
    assert_eq!(pair.press, SyntheticEvent::Mouse { flags: 0x0020, data: 0 });
    assert_eq!(pair.release, SyntheticEvent::Mouse { flags: 0x0040, data: 0 });
}

#[test]
fn convert_keyboard_truncates_scan_to_word() {
    let (_, pair) = convert_keyboard(0x41, 0x0001_001E).unwrap();
    assert_eq!(
        pair.press,
        SyntheticEvent::Keyboard { vk: 0x41, scan: 0x1E, release: false }
    );
}
