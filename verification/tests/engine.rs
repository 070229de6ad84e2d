//! Construction of the state table and the interceptor/scan behaviour.

use fastkey::into_raw;
use fastkey::table::HC_ACTION;
use fastkey::table::LLKHF_INJECTED;
use fastkey::table::LLMHF_INJECTED;
use fastkey::table::WM_KEYDOWN;
use fastkey::table::WM_KEYUP;
use fastkey::table::WM_LBUTTONDOWN;
use fastkey::table::WM_LBUTTONUP;
use fastkey::table::WM_SYSKEYDOWN;
use fastkey::table::WM_SYSKEYUP;
use fastkey::table::WM_XBUTTONDOWN;
use fastkey::Error;
use fastkey::Key;
use fastkey::Mode;
use fastkey::State;
use fastkey::StateTable;

const SCAN_A: u32 = 0x1E;
const SCAN_B: u32 = 0x30;
const SCAN_ESCAPE: u32 = 0x01;

fn small_table() -> StateTable {
    // {A: Fast}, exit Escape.
    StateTable::build(&vec![(Key::A, SCAN_A)], (Key::Escape, SCAN_ESCAPE)).unwrap()
}

#[test]
fn build_yields_one_entry_per_key() {
    let table = StateTable::build(
        &vec![(Key::A, SCAN_A), (Key::B, SCAN_B)],
        (Key::Escape, SCAN_ESCAPE),
    )
    .unwrap();
    assert_eq!(table.len(), 3);
    let (a_code, a_entry) = table.entry_at(0);
    assert_eq!(a_code, 0x41);
    assert_eq!(a_entry.mode, Mode::Fast);
    assert_eq!(a_entry.state, State::Released);
    assert_eq!(a_entry.events, into_raw(Key::A, SCAN_A).unwrap().1);
    let (b_code, b_entry) = table.entry_at(1);
    assert_eq!(b_code, 0x42);
    assert_eq!(b_entry.mode, Mode::Fast);
    let (exit_code, exit_entry) = table.entry_at(2);
    assert_eq!(exit_code, 0x1B);
    assert_eq!(exit_entry.mode, Mode::Exit);
    assert_eq!(exit_entry.state, State::Released);
}

#[test]
fn build_keeps_a_repeated_code_once() {
    let table = StateTable::build(
        &vec![(Key::A, SCAN_A), (Key::A, SCAN_A)],
        (Key::Escape, SCAN_ESCAPE),
    )
    .unwrap();
    assert_eq!(table.len(), 2);
}

#[test]
fn build_rejects_exit_among_fast_keys() {
    // Configuration {exit: A, fast: {A}} conflicts; no table is created.
    let r = StateTable::build(&vec![(Key::A, SCAN_A)], (Key::A, SCAN_A));
    assert_eq!(r.err(), Some(Error::ConfigConflict));
}

#[test]
fn build_succeeds_with_disjoint_keys() {
    assert!(StateTable::build(&vec![(Key::A, SCAN_A)], (Key::Escape, SCAN_ESCAPE)).is_ok());
}

#[test]
fn build_fails_translation_before_conflict() {
    // A fast key without a scan code fails translation even if the exit
    // key also conflicts.
    let r = StateTable::build(&vec![(Key::A, 0)], (Key::A, SCAN_A));
    assert_eq!(r.err(), Some(Error::Translation));
}

#[test]
fn build_fails_on_exit_without_scan_code() {
    let r = StateTable::build(&vec![(Key::A, SCAN_A)], (Key::Escape, 0));
    assert_eq!(r.err(), Some(Error::Translation));
}

#[test]
fn held_fast_key_fires_once_per_scan() {
    let mut table = small_table();
    table.apply(0x41, State::Pressed, false);
    let expected = into_raw(Key::A, SCAN_A).unwrap().1;
    // Scenario: three scans while A stays held -> exactly three
    // injections of A's descriptor pair, none for any other code.
    for _ in 0..3 {
        let (fires, exited) = table.scan();
        assert!(!exited);
        assert_eq!(fires.len(), 1);
        assert_eq!(fires[0], (0x41, expected));
    }
    table.apply(0x41, State::Released, false);
    let (fires, exited) = table.scan();
    assert!(!exited);
    assert!(fires.is_empty());
}

#[test]
fn exit_key_press_terminates_loop() {
    // {Escape: Exit} only; the loop observes the press on its next scan.
    let mut table = StateTable::build(&vec![], (Key::Escape, SCAN_ESCAPE)).unwrap();
    let (_, exited) = table.scan();
    assert!(!exited);
    table.keyboard_event(HC_ACTION, WM_KEYDOWN, 0x1B, 0);
    let mut iterations = 0;
    loop {
        iterations += 1;
        let (fires, exited) = table.scan();
        assert!(fires.is_empty());
        if exited {
            break;
        }
    }
    assert_eq!(iterations, 1);
}

#[test]
fn injected_keyboard_event_changes_nothing() {
    // An event the platform marks as injected must never change a state,
    // whatever it decodes to.
    let mut table = small_table();
    table.keyboard_event(HC_ACTION, WM_KEYDOWN, 0x41, LLKHF_INJECTED);
    let (fires, exited) = table.scan();
    assert!(fires.is_empty());
    assert!(!exited);
    assert_eq!(table.entry_at(0).1.state, State::Released);

    // The injected flag also masks a release echo while the key is held.
    table.keyboard_event(HC_ACTION, WM_KEYDOWN, 0x41, 0);
    table.keyboard_event(HC_ACTION, WM_KEYUP, 0x41, LLKHF_INJECTED);
    assert_eq!(table.entry_at(0).1.state, State::Pressed);
}

#[test]
fn injected_mouse_event_changes_nothing() {
    let mut table =
        StateTable::build(&vec![(Key::MouseLeft, 0)], (Key::Escape, SCAN_ESCAPE)).unwrap();
    table.mouse_event(HC_ACTION, WM_LBUTTONDOWN, 0, LLMHF_INJECTED);
    assert_eq!(table.entry_at(0).1.state, State::Released);
}

#[test]
fn untracked_code_leaves_table_unchanged() {
    // Scenario: a pressed event for a code outside the table is a no-op,
    // and no injection is ever issued for it.
    let mut table = small_table();
    let before = (table.entry_at(0), table.entry_at(1));
    table.keyboard_event(HC_ACTION, WM_KEYDOWN, 0x42, 0);
    assert_eq!((table.entry_at(0), table.entry_at(1)), before);
    let (fires, exited) = table.scan();
    assert!(fires.is_empty());
    assert!(!exited);
}

#[test]
fn non_action_hook_code_is_ignored() {
    let mut table = small_table();
    table.keyboard_event(HC_ACTION + 1, WM_KEYDOWN, 0x41, 0);
    assert_eq!(table.entry_at(0).1.state, State::Released);
}

#[test]
fn unknown_message_is_ignored() {
    let mut table = small_table();
    table.keyboard_event(HC_ACTION, 0x0200, 0x41, 0);
    assert_eq!(table.entry_at(0).1.state, State::Released);
}

#[test]
fn system_key_messages_decode_like_plain_ones() {
    let mut table = small_table();
    table.keyboard_event(HC_ACTION, WM_SYSKEYDOWN, 0x41, 0);
    assert_eq!(table.entry_at(0).1.state, State::Pressed);
    table.keyboard_event(HC_ACTION, WM_SYSKEYUP, 0x41, 0);
    assert_eq!(table.entry_at(0).1.state, State::Released);
}

#[test]
fn mouse_buttons_update_their_entries() {
    let mut table = StateTable::build(
        &vec![(Key::MouseLeft, 0), (Key::MouseBack, 0), (Key::MouseForward, 0)],
        (Key::Escape, SCAN_ESCAPE),
    )
    .unwrap();
    table.mouse_event(HC_ACTION, WM_LBUTTONDOWN, 0, 0);
    assert_eq!(table.entry_at(0).1.state, State::Pressed);
    table.mouse_event(HC_ACTION, WM_LBUTTONUP, 0, 0);
    assert_eq!(table.entry_at(0).1.state, State::Released);

    // The two extra buttons share messages; the data word's high word
    // picks the entry.
    table.mouse_event(HC_ACTION, WM_XBUTTONDOWN, 1 << 16, 0);
    assert_eq!(table.entry_at(1).1.state, State::Pressed);
    assert_eq!(table.entry_at(2).1.state, State::Released);
    table.mouse_event(HC_ACTION, WM_XBUTTONDOWN, 2 << 16, 0);
    assert_eq!(table.entry_at(2).1.state, State::Pressed);
}

#[test]
fn pressed_exit_key_reports_after_fast_fires() {
    let mut table = small_table();
    table.keyboard_event(HC_ACTION, WM_KEYDOWN, 0x41, 0);
    table.keyboard_event(HC_ACTION, WM_KEYDOWN, 0x1B, 0);
    let (fires, exited) = table.scan();
    assert!(exited);
    assert_eq!(fires.len(), 1);
    assert_eq!(fires[0].0, 0x41);
}
