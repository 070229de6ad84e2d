//! The registry of tracked keys and the decisions made over it.
//!
//! The table maps a native code to its entry: why the key is tracked
//! ([`Mode`]), its last observed physical state ([`State`]), and its
//! precomputed synthetic descriptors.  The hook callbacks write the state
//! through [`StateTable::keyboard_event`] and [`StateTable::mouse_event`];
//! the dispatch loop reads it through [`StateTable::scan`].  Both run
//! interleaved on one thread, so the hazard here is re-entrancy, not
//! concurrency, and the host may keep the table in a single-threaded cell.

use vstd::prelude::*;

use crate::catalog::events_of;
use crate::catalog::translates;
use crate::catalog::vk_of;
use crate::catalog::EventPair;
use crate::catalog::VK_LBUTTON;
use crate::catalog::VK_MBUTTON;
use crate::catalog::VK_RBUTTON;
use crate::catalog::VK_XBUTTON1;
use crate::catalog::VK_XBUTTON2;
use crate::catalog::XBUTTON1;
use crate::catalog::XBUTTON2;
use crate::into_raw;
use crate::key::Key;
use crate::Error;

verus! {

// The hook action code on which an event is actionable.
pub const HC_ACTION: i32 = 0;

// Native keyboard hook messages and the injected-event flag.
pub const WM_KEYDOWN: u32 = 0x0100;
pub const WM_KEYUP: u32 = 0x0101;
pub const WM_SYSKEYDOWN: u32 = 0x0104;
pub const WM_SYSKEYUP: u32 = 0x0105;
pub const LLKHF_INJECTED: u32 = 0x10;

// Native pointer hook messages and the injected-event flag.
pub const WM_LBUTTONDOWN: u32 = 0x0201;
pub const WM_LBUTTONUP: u32 = 0x0202;
pub const WM_RBUTTONDOWN: u32 = 0x0204;
pub const WM_RBUTTONUP: u32 = 0x0205;
pub const WM_MBUTTONDOWN: u32 = 0x0207;
pub const WM_MBUTTONUP: u32 = 0x0208;
pub const WM_XBUTTONDOWN: u32 = 0x020B;
pub const WM_XBUTTONUP: u32 = 0x020C;
pub const LLMHF_INJECTED: u32 = 0x01;

/// Why a native code is tracked: re-fired while held, or ends the loop.
#[derive(Clone, Copy, Debug, PartialEq, Eq, Structural)]
pub enum Mode {
    Fast,
    Exit,
}

/// Last observed physical state of a tracked key.
#[derive(Clone, Copy, Debug, PartialEq, Eq, Structural)]
pub enum State {
    Pressed,
    Released,
}

/// One tracked key.  Immutable after construction except `state`.
#[derive(Clone, Copy, Debug, PartialEq, Eq, Structural)]
pub struct TableEntry {
    pub mode: Mode,
    pub state: State,
    pub events: EventPair,
}

/// The state table: native code to entry, built once from the validated
/// configuration before any hook fires, structurally immutable afterwards.
#[derive(Debug)]
pub struct StateTable {
    entries: Vec<(u16, TableEntry)>,
}

impl View for StateTable {
    type V = Seq<(u16, TableEntry)>;

    closed spec fn view(&self) -> Seq<(u16, TableEntry)> {
        self.entries@
    }
}

/// Whether some entry carries native code `code`.
pub open spec fn has_code(entries: Seq<(u16, TableEntry)>, code: u16) -> bool {
    exists|i: int| 0 <= i < entries.len() && entries[i].0 == code
}

/// No two entries share a native code.
pub open spec fn codes_unique(entries: Seq<(u16, TableEntry)>) -> bool {
    forall|i: int, j: int| 0 <= i < j < entries.len() ==> entries[i].0 != entries[j].0
}

/// The exit entry, present exactly where the table is nonempty, is the
/// last one; every other entry is a fast key.
pub open spec fn exit_last(entries: Seq<(u16, TableEntry)>) -> bool {
    forall|i: int|
        0 <= i < entries.len() ==> ((entries[i].1.mode is Exit) <==> i == entries.len() - 1)
}

/// The table after the interceptor records `state` for `code`: the entry
/// keyed by `code`, if any, gets the new state; everything else is kept.
pub open spec fn set_state(
    entries: Seq<(u16, TableEntry)>,
    code: u16,
    state: State,
) -> Seq<(u16, TableEntry)> {
    entries.map(
        |i: int, e: (u16, TableEntry)|
            if e.0 == code {
                (e.0, TableEntry { mode: e.1.mode, state: state, events: e.1.events })
            } else {
                e
            },
    )
}

/// What a keyboard hook message means for a key's state, if anything.
pub open spec fn key_state_of(message: u32) -> Option<State> {
    if message == WM_KEYDOWN || message == WM_SYSKEYDOWN {
        Option::Some(State::Pressed)
    } else if message == WM_KEYUP || message == WM_SYSKEYUP {
        Option::Some(State::Released)
    } else {
        Option::None
    }
}

/// What a pointer hook message means, if anything: the affected native
/// code and its new state.  The high word of `mouse_data` tells the two
/// extra buttons apart.
pub open spec fn mouse_key_of(message: u32, mouse_data: u32) -> Option<(u16, State)> {
    let x = (mouse_data >> 16) as u16;
    if message == WM_LBUTTONDOWN {
        Option::Some((VK_LBUTTON, State::Pressed))
    } else if message == WM_LBUTTONUP {
        Option::Some((VK_LBUTTON, State::Released))
    } else if message == WM_RBUTTONDOWN {
        Option::Some((VK_RBUTTON, State::Pressed))
    } else if message == WM_RBUTTONUP {
        Option::Some((VK_RBUTTON, State::Released))
    } else if message == WM_MBUTTONDOWN {
        Option::Some((VK_MBUTTON, State::Pressed))
    } else if message == WM_MBUTTONUP {
        Option::Some((VK_MBUTTON, State::Released))
    } else if message == WM_XBUTTONDOWN && x == XBUTTON1 {
        Option::Some((VK_XBUTTON1, State::Pressed))
    } else if message == WM_XBUTTONUP && x == XBUTTON1 {
        Option::Some((VK_XBUTTON1, State::Released))
    } else if message == WM_XBUTTONDOWN && x == XBUTTON2 {
        Option::Some((VK_XBUTTON2, State::Pressed))
    } else if message == WM_XBUTTONUP && x == XBUTTON2 {
        Option::Some((VK_XBUTTON2, State::Released))
    } else {
        Option::None
    }
}

/// The table after one keyboard hook invocation: only an actionable,
/// physical (not injected) press or release changes it.
pub open spec fn keyboard_step(
    entries: Seq<(u16, TableEntry)>,
    code: i32,
    message: u32,
    vk: u32,
    flags: u32,
) -> Seq<(u16, TableEntry)> {
    if code == HC_ACTION && flags & LLKHF_INJECTED == 0 {
        match key_state_of(message) {
            Option::Some(state) => set_state(entries, vk as u16, state),
            Option::None => entries,
        }
    } else {
        entries
    }
}

/// The table after one pointer hook invocation: only an actionable,
/// physical (not injected) button press or release changes it.
pub open spec fn mouse_step(
    entries: Seq<(u16, TableEntry)>,
    code: i32,
    message: u32,
    mouse_data: u32,
    flags: u32,
) -> Seq<(u16, TableEntry)> {
    if code == HC_ACTION && flags & LLMHF_INJECTED == 0 {
        match mouse_key_of(message, mouse_data) {
            Option::Some(ks) => set_state(entries, ks.0, ks.1),
            Option::None => entries,
        }
    } else {
        entries
    }
}

/// Whether every listed fast key translates.
pub open spec fn translates_all(fast: Seq<(Key, u32)>) -> bool {
    forall|i: int| 0 <= i < fast.len() ==> translates(fast[i].0, fast[i].1)
}

/// Whether some listed fast key's native code is `code`.
pub open spec fn fast_has_code(fast: Seq<(Key, u32)>, code: u16) -> bool {
    exists|i: int| 0 <= i < fast.len() && vk_of(fast[i].0) == code
}

/// A freshly constructed, released entry for `key` in mode `mode`.
pub open spec fn entry_of(key: Key, scan: u32, mode: Mode) -> (u16, TableEntry) {
    (
        vk_of(key),
        TableEntry { mode: mode, state: State::Released, events: events_of(key, scan) },
    )
}

/// The fast entries the listed keys produce, in listed order; a key whose
/// native code is already present adds nothing.
pub open spec fn fast_entries(fast: Seq<(Key, u32)>) -> Seq<(u16, TableEntry)>
    decreases fast.len(),
{
    if fast.len() == 0 {
        Seq::empty()
    } else {
        let prior = fast_entries(fast.drop_last());
        let last = fast.last();
        if fast_has_code(fast.drop_last(), vk_of(last.0)) {
            prior
        } else {
            prior.push(entry_of(last.0, last.1, Mode::Fast))
        }
    }
}

/// The table a successful construction yields: the fast entries, then the
/// exit entry.
pub open spec fn built_entries(fast: Seq<(Key, u32)>, exit: (Key, u32)) -> Seq<(u16, TableEntry)> {
    fast_entries(fast).push(entry_of(exit.0, exit.1, Mode::Exit))
}

/// The fast entries carry exactly the listed native codes, each once,
/// every one a released fast key.
proof fn lemma_fast_entries(fast: Seq<(Key, u32)>)
    ensures
        forall|c: u16| has_code(fast_entries(fast), c) <==> fast_has_code(fast, c),
        codes_unique(fast_entries(fast)),
        forall|i: int|
            0 <= i < fast_entries(fast).len() ==> (fast_entries(fast)[i].1.mode is Fast
                && fast_entries(fast)[i].1.state is Released),
    decreases fast.len(),
{
    if fast.len() > 0 {
        let prior = fast_entries(fast.drop_last());
        let last = fast.last();
        lemma_fast_entries(fast.drop_last());
        assert forall|c: u16| has_code(fast_entries(fast), c) implies fast_has_code(fast, c) by {
            let i = choose|i: int|
                0 <= i < fast_entries(fast).len() && fast_entries(fast)[i].0 == c;
            if i < prior.len() {
                assert(prior[i].0 == c);
                assert(has_code(prior, c));
                assert(fast_has_code(fast.drop_last(), c));
                let j = choose|j: int|
                    0 <= j < fast.drop_last().len() && vk_of(fast.drop_last()[j].0) == c;
                assert(vk_of(fast[j].0) == c);
            } else {
                assert(vk_of(fast[fast.len() - 1].0) == c);
            }
        }
        assert forall|c: u16| fast_has_code(fast, c) implies has_code(fast_entries(fast), c) by {
            let i = choose|i: int| 0 <= i < fast.len() && vk_of(fast[i].0) == c;
            if i < fast.len() - 1 {
                assert(vk_of(fast.drop_last()[i].0) == c);
                assert(fast_has_code(fast.drop_last(), c));
            }
            if fast_has_code(fast.drop_last(), c) {
                assert(has_code(prior, c));
                let j = choose|j: int| 0 <= j < prior.len() && prior[j].0 == c;
                assert(fast_entries(fast)[j].0 == c);
            } else {
                assert(vk_of(last.0) == c);
                assert(fast_entries(fast)[fast_entries(fast).len() - 1].0 == c);
            }
        }
        if !fast_has_code(fast.drop_last(), vk_of(last.0)) {
            assert forall|i: int, j: int|
                0 <= i < j < fast_entries(fast).len() implies fast_entries(fast)[i].0
                != fast_entries(fast)[j].0 by {
                if j == fast_entries(fast).len() - 1 && prior[i].0 == vk_of(last.0) {
                    assert(has_code(prior, vk_of(last.0)));
                }
            }
        }
    }
}

/// The injections one scan of the table issues: the native code and
/// descriptor pair of every fast entry whose key is held, in table order.
pub open spec fn scan_fires(entries: Seq<(u16, TableEntry)>) -> Seq<(u16, EventPair)>
    decreases entries.len(),
{
    if entries.len() == 0 {
        Seq::empty()
    } else {
        let prior = scan_fires(entries.drop_last());
        let last = entries.last();
        if last.1.mode is Fast && last.1.state is Pressed {
            prior.push((last.0, last.1.events))
        } else {
            prior
        }
    }
}

/// Whether a scan of the table observes the exit key held.
pub open spec fn scan_exits(entries: Seq<(u16, TableEntry)>) -> bool {
    exists|i: int| 0 <= i < entries.len() && entries[i].1.mode is Exit && entries[i].1.state is Pressed
}

/// How many of the issued injections are keyed by `code`.
pub open spec fn fires_for(fires: Seq<(u16, EventPair)>, code: u16) -> nat
    decreases fires.len(),
{
    if fires.len() == 0 {
        0
    } else {
        fires_for(fires.drop_last(), code) + (if fires.last().0 == code {
            1nat
        } else {
            0nat
        })
    }
}

/// Law: a native code no entry carries is never injected for: every scan
/// issues zero injections keyed by it.
pub proof fn lemma_untracked_never_fires(entries: Seq<(u16, TableEntry)>, code: u16)
    requires
        !has_code(entries, code),
    ensures
        fires_for(scan_fires(entries), code) == 0,
    decreases entries.len(),
{
    if entries.len() > 0 {
        let rest = entries.drop_last();
        assert forall|i: int| 0 <= i < rest.len() implies rest[i].0 != code by {
            assert(entries[i].0 == rest[i].0);
        }
        assert(!has_code(rest, code));
        lemma_untracked_never_fires(rest, code);
        let last = entries.last();
        assert(last.0 != code);
        if last.1.mode is Fast && last.1.state is Pressed {
            let full = scan_fires(entries);
            assert(full == scan_fires(rest).push((last.0, last.1.events)));
            assert(full.drop_last() =~= scan_fires(rest));
            assert(full.last() == (last.0, last.1.events));
        } else {
            assert(scan_fires(entries) == scan_fires(rest));
        }
    }
}

/// Law: while a tracked fast key is held, each scan issues exactly one
/// injection keyed by its native code, and that injection carries its
/// descriptor pair; once the key is released, a scan issues none.
pub proof fn lemma_fast_service(entries: Seq<(u16, TableEntry)>, i: int)
    requires
        codes_unique(entries),
        0 <= i < entries.len(),
        entries[i].1.mode is Fast,
    ensures
        entries[i].1.state is Pressed ==> fires_for(scan_fires(entries), entries[i].0) == 1,
        entries[i].1.state is Pressed ==> exists|k: int|
            0 <= k < scan_fires(entries).len() && scan_fires(entries)[k] == (
                entries[i].0,
                entries[i].1.events,
            ),
        entries[i].1.state is Released ==> fires_for(scan_fires(entries), entries[i].0) == 0,
    decreases entries.len(),
{
    let code = entries[i].0;
    let rest = entries.drop_last();
    if i == entries.len() - 1 {
        assert forall|j: int| 0 <= j < rest.len() implies rest[j].0 != code by {
            assert(entries[j].0 == rest[j].0);
        }
        assert(!has_code(rest, code));
        lemma_untracked_never_fires(rest, code);
        if entries[i].1.state is Pressed {
            let full = scan_fires(entries);
            assert(full == scan_fires(rest).push((code, entries[i].1.events)));
            assert(full.drop_last() =~= scan_fires(rest));
            assert(full.last() == (code, entries[i].1.events));
            assert(full[full.len() - 1] == (code, entries[i].1.events));
        } else {
            assert(scan_fires(entries) == scan_fires(rest));
        }
    } else {
        assert(rest[i] == entries[i]);
        assert forall|a: int, b: int| 0 <= a < b < rest.len() implies rest[a].0 != rest[b].0 by {
            assert(entries[a].0 == rest[a].0 && entries[b].0 == rest[b].0);
        }
        lemma_fast_service(rest, i);
        let fires_rest = scan_fires(rest);
        let last = entries.last();
        if last.1.mode is Fast && last.1.state is Pressed {
            let full = scan_fires(entries);
            assert(full == fires_rest.push((last.0, last.1.events)));
            assert(full.drop_last() =~= fires_rest);
            assert(full.last() == (last.0, last.1.events));
            assert(last.0 != code);
            assert(fires_for(full, code) == fires_for(fires_rest, code));
            if entries[i].1.state is Pressed {
                let k = choose|k: int|
                    0 <= k < fires_rest.len() && fires_rest[k] == (code, entries[i].1.events);
                assert(full[k] == (code, entries[i].1.events));
            }
        } else {
            assert(scan_fires(entries) == fires_rest);
        }
    }
}

/// Law: a table built from disjoint keys holds exactly one entry per
/// listed native code — the fast codes, each once, released in fast mode,
/// and the exit code last, released in exit mode.
pub proof fn lemma_built_entries(fast: Seq<(Key, u32)>, exit: (Key, u32))
    requires
        !fast_has_code(fast, vk_of(exit.0)),
    ensures
        forall|c: u16|
            has_code(built_entries(fast, exit), c) <==> (fast_has_code(fast, c) || c == vk_of(
                exit.0,
            )),
        codes_unique(built_entries(fast, exit)),
        exit_last(built_entries(fast, exit)),
        forall|i: int|
            0 <= i < built_entries(fast, exit).len() ==> built_entries(fast, exit)[i].1.state
                is Released,
{
    lemma_fast_entries(fast);
    let fe = fast_entries(fast);
    let built = built_entries(fast, exit);
    assert forall|c: u16| has_code(built, c) implies (fast_has_code(fast, c) || c == vk_of(
        exit.0,
    )) by {
        let i = choose|i: int| 0 <= i < built.len() && built[i].0 == c;
        if i < fe.len() {
            assert(fe[i].0 == c);
            assert(has_code(fe, c));
        }
    }
    assert forall|c: u16| fast_has_code(fast, c) || c == vk_of(exit.0) implies has_code(
        built,
        c,
    ) by {
        if fast_has_code(fast, c) {
            let j = choose|j: int| 0 <= j < fe.len() && fe[j].0 == c;
            assert(built[j].0 == c);
        } else {
            assert(built[built.len() - 1].0 == c);
        }
    }
    assert forall|a: int, b: int| 0 <= a < b < built.len() implies built[a].0 != built[b].0 by {
        if b == built.len() - 1 && fe[a].0 == vk_of(exit.0) {
            assert(has_code(fe, vk_of(exit.0)));
        }
    }
}

/// Decodes a keyboard hook message into the key state it reports.
pub fn decode_keyboard(message: u32) -> (r: Option<State>)
    ensures
        r == key_state_of(message),
{
    if message == WM_KEYDOWN || message == WM_SYSKEYDOWN {
        Option::Some(State::Pressed)
    } else if message == WM_KEYUP || message == WM_SYSKEYUP {
        Option::Some(State::Released)
    } else {
        Option::None
    }
}

/// Decodes a pointer hook message into the native code and state it
/// reports, the two extra buttons told apart by `mouse_data`.
pub fn decode_mouse(message: u32, mouse_data: u32) -> (r: Option<(u16, State)>)
    ensures
        r == mouse_key_of(message, mouse_data),
{
    let x: u16 = (mouse_data >> 16) as u16;
    if message == WM_LBUTTONDOWN {
        Option::Some((VK_LBUTTON, State::Pressed))
    } else if message == WM_LBUTTONUP {
        Option::Some((VK_LBUTTON, State::Released))
    } else if message == WM_RBUTTONDOWN {
        Option::Some((VK_RBUTTON, State::Pressed))
    } else if message == WM_RBUTTONUP {
        Option::Some((VK_RBUTTON, State::Released))
    } else if message == WM_MBUTTONDOWN {
        Option::Some((VK_MBUTTON, State::Pressed))
    } else if message == WM_MBUTTONUP {
        Option::Some((VK_MBUTTON, State::Released))
    } else if message == WM_XBUTTONDOWN && x == XBUTTON1 {
        Option::Some((VK_XBUTTON1, State::Pressed))
    } else if message == WM_XBUTTONUP && x == XBUTTON1 {
        Option::Some((VK_XBUTTON1, State::Released))
    } else if message == WM_XBUTTONDOWN && x == XBUTTON2 {
        Option::Some((VK_XBUTTON2, State::Pressed))
    } else if message == WM_XBUTTONUP && x == XBUTTON2 {
        Option::Some((VK_XBUTTON2, State::Released))
    } else {
        Option::None
    }
}

/// Whether `entries` holds an entry keyed by `code`.
fn contains_code(entries: &Vec<(u16, TableEntry)>, code: u16) -> (r: bool)
    ensures
        r == has_code(entries@, code),
{
    let mut i: usize = 0;
    while i < entries.len()
        invariant
            i <= entries.len(),
            forall|j: int| 0 <= j < i ==> entries@[j].0 != code,
        decreases entries.len() - i,
    {
        if entries[i].0 == code {
            return true;
        }
        i += 1;
    }
    false
}

impl StateTable {
    /// Structural invariant: unique native codes, exit entry last.
    pub open spec fn wf(&self) -> bool {
        codes_unique(self@) && exit_last(self@)
    }

    /// Builds the table from the validated configuration: one released
    /// fast entry per listed fast key (a repeated native code is kept
    /// once), then the released exit entry.  Each key comes with the
    /// platform's scan code for its virtual-key code.  Construction fails
    /// with [`Error::ConfigConflict`] exactly where the exit key's native
    /// code is also a fast key's, and with [`Error::Translation`] exactly
    /// where some requested key does not translate; no table exists on
    /// failure.
    pub fn build(fast: &Vec<(Key, u32)>, exit: (Key, u32)) -> (r: Result<StateTable, Error>)
        ensures
            r is Ok <==> (translates_all(fast@) && translates(exit.0, exit.1) && !fast_has_code(
                fast@,
                vk_of(exit.0),
            )),
            r matches Ok(t) ==> t@ == built_entries(fast@, exit) && t.wf(),
            r matches Err(e) ==> e == (if translates_all(fast@) && translates(exit.0, exit.1) {
                Error::ConfigConflict
            } else {
                Error::Translation
            }),
    {
        let mut entries: Vec<(u16, TableEntry)> = Vec::new();
        let mut i: usize = 0;
        while i < fast.len()
            invariant
                i <= fast.len(),
                forall|j: int| 0 <= j < i ==> translates(fast@[j].0, fast@[j].1),
                entries@ == fast_entries(fast@.take(i as int)),
            decreases fast.len() - i,
        {
            let (key, scan) = fast[i];
            proof {
                lemma_fast_entries(fast@.take(i as int));
            }
            match into_raw(key, scan) {
                Result::Ok(p) => {
                    if !contains_code(&entries, p.0) {
                        entries.push(
                            (
                                p.0,
                                TableEntry {
                                    mode: Mode::Fast,
                                    state: State::Released,
                                    events: p.1,
                                },
                            ),
                        );
                    }
                },
                Result::Err(_) => {
                    assert(!translates_all(fast@));
                    return Result::Err(Error::Translation);
                },
            }
            i += 1;
            proof {
                assert(fast@.take(i as int).drop_last() =~= fast@.take(i as int - 1));
                assert(fast@.take(i as int).last() == fast@[i as int - 1]);
            }
        }
        proof {
            assert(fast@.take(fast@.len() as int) =~= fast@);
            lemma_fast_entries(fast@);
        }
        let (exit_key, exit_scan) = exit;
        match into_raw(exit_key, exit_scan) {
            Result::Ok(p) => {
                if contains_code(&entries, p.0) {
                    return Result::Err(Error::ConfigConflict);
                }
                entries.push(
                    (
                        p.0,
                        TableEntry { mode: Mode::Exit, state: State::Released, events: p.1 },
                    ),
                );
                let table = StateTable { entries };
                proof {
                    let built = built_entries(fast@, exit);
                    assert(table@ =~= built);
                    assert forall|a: int, b: int| 0 <= a < b < table@.len() implies table@[a].0
                        != table@[b].0 by {
                        if b == table@.len() - 1 && fast_entries(fast@)[a].0 == vk_of(exit.0) {
                            assert(has_code(fast_entries(fast@), vk_of(exit.0)));
                        }
                    }
                }
                Result::Ok(table)
            },
            Result::Err(_) => Result::Err(Error::Translation),
        }
    }

    /// Records the physical state the interceptor decoded for `code`.  An
    /// event the platform marks as injected is this program's own echo and
    /// never changes the table; an untracked code changes nothing.
    pub fn apply(&mut self, code: u16, state: State, injected: bool)
        ensures
            final(self)@ == (if injected {
                old(self)@
            } else {
                set_state(old(self)@, code, state)
            }),
            injected ==> final(self)@ == old(self)@,
            !has_code(old(self)@, code) ==> final(self)@ == old(self)@,
            old(self).wf() ==> final(self).wf(),
    {
        if injected {
            return ;
        }
        let ghost orig = self.entries@;
        let mut i: usize = 0;
        while i < self.entries.len()
            invariant
                i <= self.entries.len(),
                self.entries@.len() == orig.len(),
                forall|j: int|
                    0 <= j < i ==> self.entries@[j] == set_state(orig, code, state)[j],
                forall|j: int| i <= j < orig.len() ==> self.entries@[j] == orig[j],
            decreases self.entries.len() - i,
        {
            if self.entries[i].0 == code {
                let e = self.entries[i];
                self.entries[i] = (
                    e.0,
                    TableEntry { mode: e.1.mode, state: state, events: e.1.events },
                );
            }
            i += 1;
        }
        proof {
            assert(self.entries@ =~= set_state(orig, code, state));
            if !has_code(orig, code) {
                assert(set_state(orig, code, state) =~= orig);
            }
        }
    }

    /// One keyboard hook invocation.  `code` is the hook's action code,
    /// `message` the window message, `vk` the event's virtual-key code and
    /// `flags` its flag word.  An injected event never changes the table.
    pub fn keyboard_event(&mut self, code: i32, message: u32, vk: u32, flags: u32)
        ensures
            final(self)@ == keyboard_step(old(self)@, code, message, vk, flags),
            flags & LLKHF_INJECTED != 0 ==> final(self)@ == old(self)@,
            old(self).wf() ==> final(self).wf(),
    {
        if code == HC_ACTION {
            match decode_keyboard(message) {
                Option::Some(state) => {
                    self.apply(vk as u16, state, flags & LLKHF_INJECTED != 0);
                },
                Option::None => {},
            }
        }
    }

    /// How many entries the table holds.
    pub fn len(&self) -> (r: usize)
        ensures
            r == self@.len(),
    {
        self.entries.len()
    }

    /// The entry at position `i`, in table order.
    pub fn entry_at(&self, i: usize) -> (r: (u16, TableEntry))
        requires
            i < self@.len(),
        ensures
            r == self@[i as int],
    {
        self.entries[i]
    }

    /// One scan of the dispatch loop: the injections to issue now, and
    /// whether the exit key was observed held.  Every held fast key is
    /// serviced on every scan; a held exit key is detected on the scan
    /// after the press is recorded, so exit latency is bounded by one
    /// iteration.
    pub fn scan(&self) -> (r: (Vec<(u16, EventPair)>, bool))
        requires
            self.wf(),
        ensures
            r.0@ == scan_fires(self@),
            r.1 == scan_exits(self@),
    {
        let mut fires: Vec<(u16, EventPair)> = Vec::new();
        let mut i: usize = 0;
        while i < self.entries.len()
            invariant
                self.wf(),
                i <= self.entries.len(),
                fires@ == scan_fires(self@.take(i as int)),
                forall|j: int|
                    0 <= j < i ==> !(self@[j].1.mode is Exit && self@[j].1.state is Pressed),
            decreases self.entries.len() - i,
        {
            let e = self.entries[i];
            match e.1.state {
                State::Released => {},
                State::Pressed => match e.1.mode {
                    Mode::Fast => {
                        fires.push((e.0, e.1.events));
                    },
                    Mode::Exit => {
                        proof {
                            assert(i == self@.len() - 1);
                            assert(self@.drop_last() =~= self@.take(i as int));
                            assert(scan_fires(self@) == scan_fires(self@.take(i as int)));
                        }
                        return (fires, true);
                    },
                },
            }
            i += 1;
            proof {
                assert(self@.take(i as int).drop_last() =~= self@.take(i as int - 1));
                assert(self@.take(i as int).last() == self@[i as int - 1]);
            }
        }
        proof {
            assert(self@.take(self@.len() as int) =~= self@);
        }
        (fires, false)
    }

    /// One pointer hook invocation.  `code` is the hook's action code,
    /// `message` the window message, `mouse_data` the event's data word
    /// and `flags` its flag word.  An injected event never changes the
    /// table.
    pub fn mouse_event(&mut self, code: i32, message: u32, mouse_data: u32, flags: u32)
        ensures
            final(self)@ == mouse_step(old(self)@, code, message, mouse_data, flags),
            flags & LLMHF_INJECTED != 0 ==> final(self)@ == old(self)@,
            old(self).wf() ==> final(self).wf(),
    {
        if code == HC_ACTION {
            match decode_mouse(message, mouse_data) {
                Option::Some(ks) => {
                    self.apply(ks.0, ks.1, flags & LLMHF_INJECTED != 0);
                },
                Option::None => {},
            }
        }
    }
}

} // verus!
