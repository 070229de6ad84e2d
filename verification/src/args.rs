//! Command-line options, handed over by the host after parsing.

use vstd::prelude::*;

verus! {

/// The tool's command-line options: whether ANSI terminal escape codes
/// are enabled, and an optional configuration file path.
#[derive(Debug, Clone)]
pub struct Args {
    pub ansi: bool,
    pub config: Option<String>,
}

impl Args {
    /// Bundles the parsed options.
    pub fn new(ansi: bool, config: Option<String>) -> (r: Args)
        ensures
            r.ansi == ansi,
            r.config == config,
    {
        Args { ansi, config }
    }

    /// Whether ANSI terminal escape codes are enabled.
    pub fn ansi(&self) -> (r: bool)
        ensures
            r == self.ansi,
    {
        self.ansi
    }

    /// The configuration file path, if one was given.
    pub fn config(&self) -> (r: &Option<String>)
        ensures
            r == &self.config,
    {
        &self.config
    }
}

} // verus!
