//! The validated configuration the core consumes.

use vstd::prelude::*;

use crate::key::Key;

verus! {

/// What the core needs from the configuration: the exit key and the set
/// of fast keys.  The host deserializes its own representation and hands
/// the two fields over as plain values.
#[derive(Debug, Clone)]
pub struct Config {
    pub exit: Key,
    pub fast: Vec<Key>,
}

impl Config {
    /// The exit key used where the configuration names none.
    pub fn default_exit() -> (k: Key)
        ensures
            k == Key::Escape,
    {
        Key::Escape
    }
}

} // verus!
