//! The milestones card: progression marks the player has reached.

use vstd::prelude::*;

verus! {

/// Whether the milestones card has been discovered yet.
pub struct Milestones {
    is_visible: bool,
}

impl Milestones {
    pub closed spec fn spec_is_visible(self) -> bool {
        self.is_visible
    }

    /// A still-hidden milestones card.
    pub fn new() -> (m: Milestones)
        ensures
            !m.spec_is_visible(),
    {
        Milestones { is_visible: false }
    }

    /// Reveals the card. Discovering it twice is a contract violation.
    pub fn discover(&mut self)
        requires
            !old(self).spec_is_visible(),
        ensures
            final(self).spec_is_visible(),
    {
        self.is_visible = true;
    }

    /// Whether the card is shown.
    pub fn is_visible(&self) -> (v: bool)
        ensures
            v == self.spec_is_visible(),
    {
        self.is_visible
    }
}

} // verus!
