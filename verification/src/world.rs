//! The simulated world: the cards, the message queue, and the clock.

use vstd::prelude::*;

use crate::duration::{Duration, GRANULARITY};
use crate::message::{Message, Messages};
use crate::world::cards::Cards;

pub mod cards;
pub mod render;

verus! {

/// A key the player can press.
#[derive(Clone, Copy, Debug, PartialEq, Eq, Hash, Structural)]
pub enum Key {
    Down,
    Up,
    Left,
    Right,
    A,
    B,
    C,
    D,
    E,
    F,
    G,
    H,
    I,
    J,
    K,
    L,
    M,
    N,
    O,
    P,
    Q,
    R,
    S,
    T,
    U,
    V,
    W,
    X,
    Y,
    Z,
    Number0,
    Number1,
    Number2,
    Number3,
    Number4,
    Number5,
    Number6,
    Number7,
    Number8,
    Number9,
}

/// Something the player did.
#[derive(Clone, Copy, Debug, PartialEq, Eq, Structural)]
pub enum Event {
    Key(Key),
}

/// One frame's worth of player input.
pub struct Input {
    /// The event of this frame, if any.
    pub event: Option<Event>,
    /// The mouse position, in cells.
    pub mouse_x: usize,
    /// The mouse position, in cells.
    pub mouse_y: usize,
}

/// The whole simulation state.
pub struct World {
    /// The game cards and their state.
    pub cards: Cards,
    /// Pending status messages.
    pub messages: Messages,
    /// Total simulated time so far.
    pub total_ticks: Duration,
}

/// Everything a menu-selection change leaves untouched.
pub open spec fn selection_frame(w0: World, w: World) -> bool {
    &&& w.cards.activism == w0.cards.activism
    &&& w.cards.milestones == w0.cards.milestones
    &&& w.cards.research == w0.cards.research
    &&& w.cards.staff == w0.cards.staff
    &&& w.messages == w0.messages
    &&& w.total_ticks == w0.total_ticks
}

/// Exactly the bounds the guarded simulation step checks before it
/// advances: every total involved in one step, and every intermediate
/// product and sum, fits one machine word. Sufficient for
/// [`crate::world::cards::Cards::sim_fits`], and what
/// [`World::update`] promises to decide by.
pub open spec fn can_simulate_spec(w: World, delta: Duration) -> bool {
    let a = w.cards.activism;
    let dt = delta@;
    let rate = a.save_rate_from_flyers@;
    let credit = a.emission_balance.credit_part()@;
    let researcher = w.cards.staff.researcher@;
    let supporting = a.supporting_people@;
    let researcher_bound = researcher + supporting + GRANULARITY;
    let rate_bound = w.cards.research.rate_per_researcher@ * (researcher_bound / (
    GRANULARITY as int));
    &&& rate <= u128::MAX
    &&& rate * dt <= u128::MAX
    &&& credit <= u128::MAX
    &&& credit + rate * dt <= u128::MAX
    &&& a.next_unlock_people@ <= u128::MAX
    &&& a.next_next_unlock_people@ <= u128::MAX
    &&& a.next_unlock_people@ + a.next_next_unlock_people@ <= u128::MAX
    &&& supporting <= u128::MAX
    &&& supporting * 4 <= u128::MAX
    &&& researcher <= u128::MAX
    &&& researcher + supporting <= u128::MAX
    &&& researcher_bound <= u128::MAX
    &&& w.cards.research.rate_per_researcher@ <= u128::MAX
    &&& rate_bound <= u128::MAX
    &&& rate_bound * dt <= u128::MAX
    &&& (w.cards.research.manager.spec_active() matches Some(pq) ==> pq.1@ <= u128::MAX && pq.1@
        + rate_bound * dt <= u128::MAX)
    &&& w.messages.shown_for() + dt <= u128::MAX
    &&& w.total_ticks@ + dt <= u128::MAX
}

impl World {
    pub open spec fn wf(self) -> bool {
        self.cards.wf()
    }

    /// The world at the start of a fresh game.
    pub fn new() -> (w: World)
        ensures
            w.wf(),
            crate::world::cards::initial_cards(w.cards),
            w.messages.pending().len() == 0,
            w.total_ticks@ == 0,
    {
        World { cards: Cards::new(), messages: Messages::new(), total_ticks: Duration::instant() }
    }

    /// One simulation step over `delta` elapsed ticks: all cards advance,
    /// the message queue timer runs, and the clock moves forward.
    pub fn simulate(&mut self, delta: Duration)
        requires
            old(self).wf(),
            old(self).cards.sim_fits(delta),
            old(self).messages.shown_for() + delta@ <= u128::MAX,
            old(self).total_ticks@ + delta@ <= u128::MAX,
        ensures
            final(self).wf(),
            crate::world::cards::cards_core_post(*old(self), *final(self), delta),
            final(self).total_ticks@ == old(self).total_ticks@ + delta@,
    {
        self.simulate_cards(delta);
        self.messages.simulate(delta);
        self.total_ticks = self.total_ticks.add(delta);
    }

    /// One simulation step, guarded: advances exactly when
    /// [`can_simulate_spec`] holds, that is when every intermediate value
    /// of the step stays within the machine's integers, and reports whether
    /// it did. Under ordinary game numbers the guard always passes.
    pub fn update(&mut self, delta: Duration) -> (advanced: bool)
        requires
            old(self).wf(),
        ensures
            final(self).wf(),
            advanced == can_simulate_spec(*old(self), delta),
            advanced ==> crate::world::cards::cards_core_post(*old(self), *final(self), delta)
                && final(self).total_ticks@ == old(self).total_ticks@ + delta@,
            !advanced ==> *final(self) == *old(self),
    {
        if self.can_simulate(delta) {
            self.simulate(delta);
            true
        } else {
            false
        }
    }

    /// Whether one simulation step over `delta` stays within the machine's
    /// integers: decides exactly [`can_simulate_spec`], which in turn is
    /// enough headroom for the whole step.
    fn can_simulate(&self, delta: Duration) -> (r: bool)
        requires
            self.wf(),
        ensures
            r == can_simulate_spec(*self, delta),
            r ==> self.cards.sim_fits(delta) && self.messages.shown_for() + delta@ <= u128::MAX
                && self.total_ticks@ + delta@ <= u128::MAX,
    {
        let dt = delta.ticks();
        let a = &self.cards.activism;
        let sr = match a.save_rate_from_flyers.try_rate_steps() {
            Some(x) => x,
            None => { return false },
        };
        let p1 = match sr.checked_mul(dt) {
            Some(x) => x,
            None => { return false },
        };
        let credit = match a.emission_balance.pos().try_total_steps() {
            Some(x) => x,
            None => { return false },
        };
        if credit.checked_add(p1).is_none() {
            return false;
        }
        let na = match a.next_unlock_people.try_total_steps() {
            Some(x) => x,
            None => { return false },
        };
        let nb = match a.next_next_unlock_people.try_total_steps() {
            Some(x) => x,
            None => { return false },
        };
        if na.checked_add(nb).is_none() {
            return false;
        }
        let s = match a.supporting_people.try_total_steps() {
            Some(x) => x,
            None => { return false },
        };
        if s.checked_mul(4).is_none() {
            return false;
        }
        let researcher = match self.cards.staff.researcher.try_total_steps() {
            Some(x) => x,
            None => { return false },
        };
        let rb = match researcher.checked_add(s) {
            Some(x) => match x.checked_add(crate::duration::GRANULARITY) {
                Some(y) => y,
                None => { return false },
            },
            None => { return false },
        };
        let rpr = match self.cards.research.rate_per_researcher.try_rate_steps() {
            Some(x) => x,
            None => { return false },
        };
        let whole_bound: u128 = rb / crate::duration::GRANULARITY;
        let q = match rpr.checked_mul(whole_bound) {
            Some(x) => x,
            None => { return false },
        };
        let qd = match q.checked_mul(dt) {
            Some(x) => x,
            None => { return false },
        };
        let progress_ok = match self.cards.research.manager.active() {
            Some(pq) => {
                match pq.1.try_total_steps() {
                    Some(pt) => pt.checked_add(qd).is_some(),
                    None => false,
                }
            },
            None => true,
        };
        if !progress_ok {
            return false;
        }
        if self.messages.shown_for_ticks().checked_add(dt).is_none() {
            return false;
        }
        if self.total_ticks.ticks().checked_add(dt).is_none() {
            return false;
        }
        proof {
            let g = crate::duration::GRANULARITY as int;
            assert(u128::MAX <= crate::quantity::max_total()) by (nonlinear_arith)
                requires
                    crate::quantity::max_total() == u128::MAX * crate::duration::GRANULARITY + (
                    crate::duration::GRANULARITY - 1),
                    crate::duration::GRANULARITY >= 1,
            ;
            let a0 = self.cards.activism.next_unlock_people@;
            let b0 = self.cards.activism.next_next_unlock_people@;
            let r0 = self.cards.staff.researcher@;
            let sv = self.cards.activism.supporting_people@;
            crate::quantity::lemma_quantity_view_bounds(self.cards.activism.supporting_people);
            crate::quantity::lemma_quantity_view_bounds(self.cards.staff.researcher);
            crate::world::cards::activism::lemma_staff_unlocks_researcher_bound(a0, b0, r0, sv);
            let unlocked = crate::world::cards::activism::staff_unlocks(a0, b0, r0, sv);
            assert(unlocked.2 <= rb);
            assert(0 <= unlocked.2);
            vstd::arithmetic::div_mod::lemma_div_is_ordered(unlocked.2, rb as int, g);
            assert(unlocked.2 / g >= 0) by (nonlinear_arith)
                requires
                    unlocked.2 >= 0,
                    g > 0,
            ;
            let rate2 = self.cards.research.rate_per_researcher@ * (unlocked.2 / g);
            assert(rate2 <= q && rate2 >= 0) by (nonlinear_arith)
                requires
                    rate2 == rpr * (unlocked.2 / g),
                    q == rpr * (rb as int / g),
                    unlocked.2 / g <= rb as int / g,
                    0 <= unlocked.2 / g,
                    0 <= rpr,
            ;
            assert(rate2 * dt <= q * dt) by (nonlinear_arith)
                requires
                    0 <= rate2 <= q,
                    0 <= dt,
            ;
        }
        true
    }

    /// Moves the menu selection one card down, within the visible cards.
    pub fn select_next_card(&mut self)
        requires
            old(self).wf(),
            old(self).cards.selected == crate::world::cards::Card::CO2
                || old(self).cards.spec_card_visible(old(self).cards.selected),
        ensures
            final(self).wf(),
            final(self).cards.selected == (if old(self).cards.selected
                == crate::world::cards::Card::CO2 && old(self).cards.research.discovered {
                crate::world::cards::Card::Research
            } else {
                old(self).cards.selected
            }),
            selection_frame(*old(self), *final(self)),
    {
        match self.cards.selected {
            crate::world::cards::Card::CO2 => {
                if self.cards.card_visible(crate::world::cards::Card::Research) {
                    self.cards.selected = crate::world::cards::Card::Research;
                }
            },
            _ => {},
        }
    }

    /// Moves the menu selection one card up, within the visible cards.
    pub fn select_previous_card(&mut self)
        requires
            old(self).wf(),
        ensures
            final(self).wf(),
            final(self).cards.selected == crate::world::cards::Card::CO2
                || final(self).cards.selected == old(self).cards.selected,
            final(self).cards.selected == (if old(self).cards.selected
                == crate::world::cards::Card::Research {
                crate::world::cards::Card::CO2
            } else {
                old(self).cards.selected
            }),
            selection_frame(*old(self), *final(self)),
    {
        match self.cards.selected {
            crate::world::cards::Card::Research => {
                self.cards.selected = crate::world::cards::Card::CO2;
            },
            _ => {},
        }
    }

    /// Appends a status message.
    pub fn queue_message(&mut self, message: Message)
        ensures
            final(self).messages.pending() =~= old(self).messages.pending().push(message),
            final(self).messages.shown_for() == old(self).messages.shown_for(),
            final(self).cards == old(self).cards,
            final(self).total_ticks == old(self).total_ticks,
    {
        self.messages.queue(message);
    }
}

} // verus!
