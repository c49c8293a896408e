//! A watcher bound to a lifetime, longing for a sight that never comes.

use vstd::prelude::*;

verus! {

/// Someone who keeps watch for as long as their life lasts, and counts how
/// much they miss what they watch for.
pub struct Me<'time> {
    /// How much the watcher misses the sight by now.
    pub miss_you_level: u128,
    /// The life the watch is bound to.
    pub my_life: &'time bool,
}

impl<'now> Me<'now> {
    /// Whether the watcher finally sees what they wait for. They never do,
    /// and looking changes nothing.
    pub fn see_you(&mut self) -> (seen: bool)
        ensures
            !seen,
            final(self).miss_you_level == old(self).miss_you_level,
            final(self).my_life == old(self).my_life,
    {
        false
    }
}

} // verus!
