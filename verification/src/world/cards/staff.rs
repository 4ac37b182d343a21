//! The staff card: people working for the cause.

use vstd::prelude::*;

use crate::quantity::types::Person;
use crate::quantity::Quantity;

verus! {

/// The organisation's staff.
pub struct Staff {
    /// People doing research; unlocked by growing support.
    pub researcher: Quantity<Person>,
    /// People campaigning; not yet put to work.
    pub activists: Quantity<Person>,
}

impl Staff {
    pub open spec fn wf(self) -> bool {
        &&& self.researcher.wf()
        &&& self.activists.wf()
    }

    /// No staff at all.
    pub fn new() -> (s: Staff)
        ensures
            s.wf(),
            s.researcher@ == 0,
            s.activists@ == 0,
    {
        Staff { researcher: Quantity::new(0), activists: Quantity::new(0) }
    }
}

} // verus!
