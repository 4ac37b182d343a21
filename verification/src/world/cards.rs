//! The game's cards and the per-tick simulation step over all of them.

use vstd::prelude::*;

use crate::duration::Duration;
use crate::quantity::Quantity;
use crate::world::cards::activism::Activism;
use crate::world::cards::milestones::Milestones;
use crate::world::cards::research::{research_consistent, Research};
use crate::world::cards::staff::Staff;
use crate::world::World;

pub mod activism;
pub mod milestones;
pub mod research;
pub mod staff;

verus! {

/// The cards the game offers, as a closed enumeration; every dispatch over
/// them is an exhaustive match.
#[derive(Clone, Copy, Debug, PartialEq, Eq, Structural)]
pub enum Card {
    CO2,
    Milestones,
    Research,
    Staff,
}

/// The state of all cards, and which one is selected.
pub struct Cards {
    /// The card the player has selected.
    pub selected: Card,
    /// The activism card.
    pub activism: Activism,
    /// The milestones card.
    pub milestones: Milestones,
    /// The research card.
    pub research: Research,
    /// The staff card.
    pub staff: Staff,
}

/// How every fresh game starts.
pub open spec fn initial_cards(c: Cards) -> bool {
    &&& c.selected == Card::CO2
    &&& c.activism.stage == (activism::Stage::Prolog { step: 0 })
    &&& c.activism.emission_balance.credit_part()@ == 0
    &&& c.activism.emission_balance.debit_part()@ == 0
    &&& c.activism.flyer@ == 10 * crate::duration::GRANULARITY
    &&& c.activism.total_number_of_flyers@ == 0
    &&& c.activism.supporting_people@ == 0
    &&& c.activism.unsupporting_people@ == 9_000_000_000 * crate::duration::GRANULARITY
    &&& c.activism.save_rate_from_flyers@ == 0
    &&& c.activism.maximal_emission_deficit@ == 0
    &&& !c.activism.has_recycling
    &&& !c.milestones.spec_is_visible()
    &&& c.staff.researcher@ == 0
    &&& !c.research.discovered
    &&& research::initial_research(c.research)
}

impl Cards {
    pub open spec fn wf(self) -> bool {
        &&& self.activism.wf()
        &&& self.staff.wf()
        &&& self.research.wf()
        &&& research_consistent(self.research, self.activism)
    }

    /// Whether a card is shown in the menu.
    pub open spec fn spec_card_visible(self, card: Card) -> bool {
        match card {
            Card::CO2 => true,
            Card::Milestones => false,
            Card::Research => self.research.discovered,
            Card::Staff => false,
        }
    }

    /// Whether a card is shown in the menu.
    pub fn card_visible(&self, card: Card) -> (v: bool)
        ensures
            v == self.spec_card_visible(card),
    {
        match card {
            Card::CO2 => true,
            Card::Milestones => false,
            Card::Research => self.research.discovered,
            Card::Staff => false,
        }
    }

    /// All cards at their start, with the activism card selected.
    pub fn new() -> (c: Cards)
        ensures
            c.wf(),
            initial_cards(c),
    {
        Cards {
            selected: Card::CO2,
            activism: Activism::new(),
            milestones: Milestones::new(),
            staff: Staff::new(),
            research: Research::new(),
        }
    }

    /// Machine headroom for one full card simulation step: the activism
    /// step must fit, and the research step must still fit after the
    /// staff-unlock ladder has possibly added researchers.
    pub open spec fn sim_fits(self, delta: Duration) -> bool {
        let unlocked = activism::staff_unlocks(
            self.activism.next_unlock_people@,
            self.activism.next_next_unlock_people@,
            self.staff.researcher@,
            self.activism.supporting_people@,
        );
        let rate2 = self.research.rate_per_researcher@ * (unlocked.2 / (
        crate::duration::GRANULARITY as int));
        &&& self.activism.sim_fits(self.staff.researcher, delta)
        &&& rate2 <= crate::quantity::max_total()
        &&& rate2 * delta@ <= crate::quantity::max_total()
        &&& self.research.manager.spec_active() matches Some(pq) ==> pq.1@ + rate2 * delta@
            <= crate::quantity::max_total()
    }

    /// The cards currently shown in the menu, in their fixed order.
    pub fn available_cards(&self) -> (v: Vec<Card>)
        ensures
            v@ =~= if self.spec_card_visible(Card::Research) {
                seq![Card::CO2, Card::Research]
            } else {
                seq![Card::CO2]
            },
    {
        let mut v: Vec<Card> = Vec::new();
        v.push(Card::CO2);
        if self.card_visible(Card::Research) {
            v.push(Card::Research);
        }
        v
    }
}

/// What one full card simulation step guarantees at the world level: the
/// milestones card appears once a thousand units of net savings exist, the
/// save rate is integrated exactly into the credits, the staff-unlock
/// ladder is walked, and the listed state is untouched. The research card's
/// own step is specified by [`research::research_card_post`] at its level.
pub open spec fn cards_core_post(w0: World, w: World, delta: Duration) -> bool {
    let a0 = w0.cards.activism;
    let a = w.cards.activism;
    &&& w.cards.milestones.spec_is_visible() == (w0.cards.milestones.spec_is_visible() || a0
        .emission_balance.credit_part()@ - a0.emission_balance.debit_part()@ >= 1000
        * crate::duration::GRANULARITY)
    &&& a.emission_balance.credit_part()@ == a0.emission_balance.credit_part()@ + a0
        .save_rate_from_flyers@ * delta@
    &&& a.emission_balance.debit_part() == a0.emission_balance.debit_part()
    &&& (a.next_unlock_people@, a.next_next_unlock_people@, w.cards.staff.researcher@)
        == activism::staff_unlocks(
        a0.next_unlock_people@,
        a0.next_next_unlock_people@,
        w0.cards.staff.researcher@,
        a0.supporting_people@,
    )
    &&& a.flyer == a0.flyer
    &&& a.total_number_of_flyers == a0.total_number_of_flyers
    &&& a.supporting_people == a0.supporting_people
    &&& a.unsupporting_people == a0.unsupporting_people
    &&& a.save_rate_from_flyers == a0.save_rate_from_flyers
    &&& a.stage == a0.stage
    &&& a.flyer_print_cost == a0.flyer_print_cost
    &&& a.maximal_emission_deficit == a0.maximal_emission_deficit
    &&& w.cards.research.rate_per_researcher == w0.cards.research.rate_per_researcher
    &&& w.cards.selected == w0.cards.selected
    &&& w.cards.staff.activists == w0.cards.staff.activists
}

pub open spec fn cards_sim_post(w0: World, w: World, delta: Duration) -> bool {
    &&& cards_core_post(w0, w, delta)
    &&& w.total_ticks == w0.total_ticks
    &&& w.messages.shown_for() == w0.messages.shown_for()
    &&& forall|i: int|
        0 <= i < w0.messages.pending().len() ==> w.messages.pending()[i] == w0.messages.pending()[i]
    &&& w.messages.pending().len() <= w0.messages.pending().len() + 2
}

impl World {
    /// One simulation step over all cards: milestone discovery, the
    /// activism card, then the research card.
    pub fn simulate_cards(&mut self, delta: Duration)
        requires
            old(self).wf(),
            old(self).cards.sim_fits(delta),
        ensures
            final(self).wf(),
            cards_sim_post(*old(self), *final(self), delta),
    {
        let reached_milestone = {
            let threshold = Quantity::new(1000);
            self.cards.activism.emission_balance.balance().is_at_least(&threshold)
        };
        if !self.cards.milestones.is_visible() && reached_milestone {
            self.cards.milestones.discover();
        }
        let ghost mid1 = *self;
        self.simulate_card_activism(delta);
        let ghost mid2 = *self;
        self.simulate_card_research(delta);
        proof {
            let q0 = old(self).messages.pending();
            assert forall|i: int| 0 <= i < q0.len() implies self.messages.pending()[i] == q0[i] by {
                assert(mid2.messages.pending()[i] == q0[i]);
            }
        }
    }
}

} // verus!
