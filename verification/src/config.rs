//! What the program keeps between runs.

use vstd::prelude::*;

verus! {

/// The configuration: the feeds subscribed to, in display order.
#[derive(Debug, PartialEq, Eq)]
pub struct Config {
    pub subs: Vec<String>,
}

impl Config {
    /// The configuration with the given feeds.
    pub fn new(subs: Vec<String>) -> (config: Config)
        ensures
            config.subs == subs,
    {
        Self { subs }
    }
}

} // verus!
