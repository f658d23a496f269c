use vstd::prelude::*;

use crate::min_int;

verus! {

/// Number of orcs killed so far.
#[derive(Clone, Copy, Debug, PartialEq, Eq, Structural)]
pub struct OrcDeathCounter {
    pub count: u32,
}

impl Default for OrcDeathCounter {
    fn default() -> (r: OrcDeathCounter)
        ensures
            r.count == 0,
    {
        OrcDeathCounter { count: 0 }
    }
}

impl OrcDeathCounter {
    /// Counts `deaths` more kills; the count stops at `u32::MAX`.
    pub fn increment_death_counter(&mut self, deaths: u32)
        ensures
            final(self).count == min_int(old(self).count + deaths, u32::MAX as int),
    {
        self.count = self.count.saturating_add(deaths);
    }
}

} // verus!
