//! Core of a system-wide key auto-fire tool.
//!
//! A configured set of "fast" keys is re-fired (synthetic press + release)
//! on every scan of the state table while the physical key is held; a
//! distinguished "exit" key stops the dispatch loop.  This crate holds the
//! platform-independent core: the key catalog, the translation of logical
//! keys into native codes and synthetic event descriptors, the state table
//! that the hook callbacks write and the dispatch loop reads, and the
//! decisions both of them make.  The host wires these to the operating
//! system's hook, message-pump and input-injection facilities.

use vstd::prelude::*;

pub mod args;
pub mod catalog;
pub mod config;
pub mod key;
pub mod table;

pub use args::Args;
pub use catalog::convert_keyboard;
pub use catalog::convert_mouse;
pub use catalog::events_of;
pub use catalog::into_raw;
pub use catalog::keyboard_pair;
pub use catalog::mouse_pair;
pub use catalog::translates;
pub use catalog::virtual_key;
pub use catalog::vk_of;
pub use catalog::EventPair;
pub use catalog::SyntheticEvent;
pub use config::Config;
pub use key::is_mouse;
pub use key::Key;
pub use table::built_entries;
pub use table::codes_unique;
pub use table::decode_keyboard;
pub use table::decode_mouse;
pub use table::exit_last;
pub use table::fast_has_code;
pub use table::fires_for;
pub use table::has_code;
pub use table::key_state_of;
pub use table::lemma_built_entries;
pub use table::lemma_fast_service;
pub use table::lemma_untracked_never_fires;
pub use table::keyboard_step;
pub use table::mouse_key_of;
pub use table::mouse_step;
pub use table::scan_exits;
pub use table::scan_fires;
pub use table::set_state;
pub use table::translates_all;
pub use table::Mode;
pub use table::State;
pub use table::StateTable;
pub use table::TableEntry;

verus! {

/// A failure of the core.
///
/// `Translation`: the platform reported no scan code for a requested key.
/// `ConfigConflict`: the exit key is also listed as a fast key.
#[derive(Clone, Copy, Debug, PartialEq, Eq, Structural)]
pub enum Error {
    Translation,
    ConfigConflict,
}

} // verus!
