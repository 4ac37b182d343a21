//! The activism card: printing flyers, winning supporters, saving emissions.
//!
//! This is the heart of the progression: flyers are printed against the
//! emission ledger, handed out to win supporters, and every supporter
//! contributes a fixed save rate that is integrated over elapsed time.

use vstd::arithmetic::div_mod::{
    lemma_fundamental_div_mod, lemma_fundamental_div_mod_converse,
};
use vstd::prelude::*;
use vstd::string::StringExecFns;

use crate::duration::{Duration, GRANULARITY};
use crate::message::Message;
use crate::quantity::balance::Balance;
use crate::quantity::types::{Emission, Flyer, Person};
use crate::quantity::{max_total, Quantity};
use crate::rate::Rate;
use crate::world::World;

verus! {

/// How many flyers the campaign starts with; handing out that many flyers
/// wins exactly one supporter.
pub const INITIAL_NUMBER_OF_FLYERS_AND_INVERSE_OF_PERSUASIVENESS: u128 = 10;

/// How many manual prints the introduction takes.
pub const NUMBER_OF_PROLOG_STEPS: usize = 6;

/// What one flyer print charges against the emission ledger.
pub fn initial_flyer_print_cost() -> (q: Quantity<Emission>)
    ensures
        q.wf(),
        q@ == 6 * GRANULARITY,
{
    Quantity::new(6)
}

/// How much of one supporter a single handed-out flyer wins.
pub fn initial_flyer_persuasiveness() -> (q: Quantity<Person>)
    ensures
        q.wf(),
        q@ == GRANULARITY as int / INITIAL_NUMBER_OF_FLYERS_AND_INVERSE_OF_PERSUASIVENESS as int,
        q@ <= GRANULARITY,
{
    Quantity::fraction(1, INITIAL_NUMBER_OF_FLYERS_AND_INVERSE_OF_PERSUASIVENESS)
}

/// Where the introduction stands.
pub enum Stage {
    /// The guided first steps, counting manual actions.
    Prolog { step: usize },
    /// The open game.
    Main,
}

impl Stage {
    /// Advances the introduction by one step; after the last step the open
    /// game begins. Stepping past the introduction is a contract violation.
    pub fn step_forward(&mut self)
        requires
            *old(self) is Prolog,
            (*old(self))->step < NUMBER_OF_PROLOG_STEPS,
        ensures
            (*old(self))->step + 1 < NUMBER_OF_PROLOG_STEPS ==> *final(self) == (Stage::Prolog {
                step: ((*old(self))->step + 1) as usize,
            }),
            (*old(self))->step + 1 == NUMBER_OF_PROLOG_STEPS ==> *final(self) == Stage::Main,
    {
        match self {
            Stage::Prolog { step } => {
                *step += 1;
                if *step == NUMBER_OF_PROLOG_STEPS {
                    *self = Stage::Main;
                }
            },
            Stage::Main => {
                proof {
                    assert(false);
                }
            },
        }
    }
}

/// The full state of the activism card.
pub struct Activism {
    /// Where the introduction stands.
    pub stage: Stage,
    /// Lifetime saved versus lifetime emitted carbon dioxide.
    pub emission_balance: Balance<Emission>,
    /// Flyers on hand.
    pub flyer: Quantity<Flyer>,
    /// Flyers ever produced.
    pub total_number_of_flyers: Quantity<Flyer>,
    /// People won for the cause.
    pub supporting_people: Quantity<Person>,
    /// People still to be won.
    pub unsupporting_people: Quantity<Person>,
    /// The combined save rate of all supporters.
    pub save_rate_from_flyers: Rate<Emission>,
    /// Supporter count at which the next researcher is unlocked.
    pub next_unlock_people: Quantity<Person>,
    /// The unlock threshold after that.
    pub next_next_unlock_people: Quantity<Person>,
    /// How much of one supporter a handed-out flyer wins.
    pub flyer_persuasiveness: Quantity<Person>,
    /// The save rate one additional supporter contributes.
    pub flyer_effectiveness: Rate<Emission>,
    /// What one flyer print charges against the ledger.
    pub flyer_print_cost: Quantity<Emission>,
    /// How far the ledger may go below zero for printing.
    pub maximal_emission_deficit: Quantity<Emission>,
    /// Whether flyers are recycled (printed for free).
    pub has_recycling: bool,
}

impl Activism {
    pub open spec fn wf(self) -> bool {
        &&& self.emission_balance.wf()
        &&& self.flyer.wf()
        &&& self.total_number_of_flyers.wf()
        &&& self.supporting_people.wf()
        &&& self.unsupporting_people.wf()
        &&& self.save_rate_from_flyers.wf()
        &&& self.next_unlock_people.wf()
        &&& self.next_next_unlock_people.wf()
        &&& self.flyer_persuasiveness.wf()
        &&& self.flyer_effectiveness.wf()
        &&& self.flyer_print_cost.wf()
        &&& self.maximal_emission_deficit.wf()
        &&& self.flyer_persuasiveness@ <= GRANULARITY
        &&& 0 < self.next_unlock_people@ < self.next_next_unlock_people@
        &&& self.next_unlock_people@ % (GRANULARITY as int) == 0
        &&& self.next_next_unlock_people@ % (GRANULARITY as int) == 0
    }

    /// The campaign at its start: ten flyers, nine billion people to win,
    /// the first researcher unlocked at four supporters.
    pub fn new() -> (a: Activism)
        ensures
            a.wf(),
            a.stage == (Stage::Prolog { step: 0 }),
            a.emission_balance.credit_part()@ == 0,
            a.emission_balance.debit_part()@ == 0,
            a.flyer@ == 10 * GRANULARITY,
            a.total_number_of_flyers@ == 0,
            a.supporting_people@ == 0,
            a.unsupporting_people@ == 9_000_000_000 * GRANULARITY,
            a.save_rate_from_flyers@ == 0,
            a.next_unlock_people@ == 4 * GRANULARITY,
            a.next_next_unlock_people@ == 30 * GRANULARITY,
            a.flyer_persuasiveness@ == GRANULARITY as int
                / INITIAL_NUMBER_OF_FLYERS_AND_INVERSE_OF_PERSUASIVENESS as int,
            a.flyer_effectiveness@ == crate::world::cards::research::effectiveness_0(),
            a.flyer_print_cost@ == 6 * GRANULARITY,
            a.maximal_emission_deficit@ == 0,
            !a.has_recycling,
    {
        Activism {
            stage: Stage::Prolog { step: 0 },
            emission_balance: Balance::new(),
            flyer: Quantity::new(INITIAL_NUMBER_OF_FLYERS_AND_INVERSE_OF_PERSUASIVENESS),
            total_number_of_flyers: Quantity::new(0),
            supporting_people: Quantity::new(0),
            unsupporting_people: Quantity::new(9_000_000_000),
            save_rate_from_flyers: Rate::zero(),
            next_unlock_people: Quantity::new(4),
            next_next_unlock_people: Quantity::new(30),
            flyer_persuasiveness: initial_flyer_persuasiveness(),
            flyer_effectiveness: crate::world::cards::research::flyer_effectiveness_0(),
            flyer_print_cost: initial_flyer_print_cost(),
            maximal_emission_deficit: Quantity::new(0),
            has_recycling: false,
        }
    }

    /// Machine headroom for one simulation step of this card.
    pub open spec fn sim_fits(self, researcher: Quantity<Person>, delta: Duration) -> bool {
        &&& self.save_rate_from_flyers@ * delta@ <= max_total()
        &&& self.emission_balance.credit_part()@ + self.save_rate_from_flyers@ * delta@
            <= max_total()
        &&& self.next_unlock_people@ + self.next_next_unlock_people@ <= max_total()
        &&& 4 * self.supporting_people@ <= max_total()
        &&& researcher@ + self.supporting_people@ + GRANULARITY <= max_total()
    }

    /// Machine headroom for handing out one flyer.
    pub open spec fn handout_fits(self) -> bool {
        &&& self.supporting_people@ + GRANULARITY <= max_total()
        &&& self.save_rate_from_flyers@ + self.flyer_effectiveness@ <= max_total()
    }

    /// Machine headroom for producing one more flyer.
    pub open spec fn print_fits(self) -> bool {
        &&& self.flyer@ + GRANULARITY <= max_total()
        &&& self.total_number_of_flyers@ + GRANULARITY <= max_total()
        &&& self.emission_balance.debit_part()@ + self.flyer_print_cost@ <= max_total()
        &&& self.emission_balance.credit_part()@ + self.maximal_emission_deficit@ <= max_total()
    }
}

/// The staff-unlock ladder: while the supporter count has reached the next
/// threshold, the two thresholds advance Fibonacci-fashion and one more
/// researcher joins.
pub open spec fn staff_unlocks(a: int, b: int, r: int, s: int) -> (int, int, int)
    decreases (if a <= s {
        s + 1 - a
    } else {
        0
    }),
        when 0 < a < b
{
    if a <= s {
        staff_unlocks(b, a + b, r + GRANULARITY, s)
    } else {
        (a, b, r)
    }
}

/// Everything that one activism simulation step leaves untouched.
pub open spec fn frame_unlock(w0: World, w: World) -> bool {
    &&& w.cards.activism.stage == w0.cards.activism.stage
    &&& w.cards.activism.flyer == w0.cards.activism.flyer
    &&& w.cards.activism.total_number_of_flyers == w0.cards.activism.total_number_of_flyers
    &&& w.cards.activism.supporting_people == w0.cards.activism.supporting_people
    &&& w.cards.activism.unsupporting_people == w0.cards.activism.unsupporting_people
    &&& w.cards.activism.save_rate_from_flyers == w0.cards.activism.save_rate_from_flyers
    &&& w.cards.activism.flyer_persuasiveness == w0.cards.activism.flyer_persuasiveness
    &&& w.cards.activism.flyer_effectiveness == w0.cards.activism.flyer_effectiveness
    &&& w.cards.activism.flyer_print_cost == w0.cards.activism.flyer_print_cost
    &&& w.cards.activism.maximal_emission_deficit == w0.cards.activism.maximal_emission_deficit
    &&& w.cards.activism.has_recycling == w0.cards.activism.has_recycling
    &&& w.cards.staff.activists == w0.cards.staff.activists
    &&& w.cards.research == w0.cards.research
    &&& w.cards.milestones == w0.cards.milestones
    &&& w.cards.selected == w0.cards.selected
    &&& w.messages == w0.messages
    &&& w.total_ticks == w0.total_ticks
}

/// What one activism simulation step does: the save rate integrated over
/// `delta` is credited to the emission ledger, the staff-unlock ladder is
/// walked, and nothing else changes.
pub open spec fn activism_sim_post(w0: World, w: World, delta: Duration) -> bool {
    &&& w.cards.activism.emission_balance.credit_part()@
        == w0.cards.activism.emission_balance.credit_part()@
        + w0.cards.activism.save_rate_from_flyers@ * delta@
    &&& w.cards.activism.emission_balance.debit_part()
        == w0.cards.activism.emission_balance.debit_part()
    &&& (
        w.cards.activism.next_unlock_people@,
        w.cards.activism.next_next_unlock_people@,
        w.cards.staff.researcher@,
    ) == staff_unlocks(
        w0.cards.activism.next_unlock_people@,
        w0.cards.activism.next_next_unlock_people@,
        w0.cards.staff.researcher@,
        w0.cards.activism.supporting_people@,
    )
    &&& frame_unlock(w0, w)
}

impl World {
    /// One simulation step of the activism card: integrates the save rate
    /// over `delta` into the emission credits, then walks the staff-unlock
    /// ladder as far as the supporter count has reached it.
    pub fn simulate_card_activism(&mut self, delta: Duration)
        requires
            old(self).wf(),
            old(self).cards.activism.sim_fits(old(self).cards.staff.researcher, delta),
        ensures
            final(self).wf(),
            activism_sim_post(*old(self), *final(self), delta),
    {
        let delta_quantity = self.cards.activism.save_rate_from_flyers.per(delta);
        self.cards.activism.emission_balance.pos_mut().add_assign(delta_quantity);

        let ghost a0 = self.cards.activism.next_unlock_people@;
        let ghost b0 = self.cards.activism.next_next_unlock_people@;
        let ghost r0 = self.cards.staff.researcher@;
        let ghost s = self.cards.activism.supporting_people@;
        let ghost mut k: int = 0;

        while self.cards.activism.next_unlock_people.le(
            &self.cards.activism.supporting_people,
        )
            invariant
                self.wf(),
                self.cards.activism.supporting_people@ == s,
                staff_unlocks(
                    self.cards.activism.next_unlock_people@,
                    self.cards.activism.next_next_unlock_people@,
                    self.cards.staff.researcher@,
                    s,
                ) == staff_unlocks(a0, b0, r0, s),
                self.cards.staff.researcher@ == r0 + k * GRANULARITY,
                self.cards.activism.next_unlock_people@ >= a0 + k * GRANULARITY,
                k >= 0,
                0 < a0,
                k == 0 ==> self.cards.activism.next_unlock_people@ == a0
                    && self.cards.activism.next_next_unlock_people@ == b0,
                k > 0 ==> self.cards.activism.next_next_unlock_people@
                    <= self.cards.activism.next_unlock_people@ + 2 * s,
                a0 + b0 <= max_total(),
                4 * s <= max_total(),
                r0 + s + GRANULARITY <= max_total(),
                self.cards.activism.emission_balance.credit_part()@
                    == old(self).cards.activism.emission_balance.credit_part()@
                    + old(self).cards.activism.save_rate_from_flyers@ * delta@,
                self.cards.activism.emission_balance.debit_part()
                    == old(self).cards.activism.emission_balance.debit_part(),
                frame_unlock(*old(self), *self),
            decreases (if self.cards.activism.next_unlock_people@ <= s {
                s + 1 - self.cards.activism.next_unlock_people@
            } else {
                0
            }),
        {
            let sum = self.cards.activism.next_unlock_people.add(
                self.cards.activism.next_next_unlock_people,
            );
            self.cards.activism.next_unlock_people = self.cards.activism.next_next_unlock_people;
            self.cards.activism.next_next_unlock_people = sum;
            proof {
                assert(k * GRANULARITY <= s - a0);
                assert(self.cards.staff.researcher@ + GRANULARITY <= max_total());
            }
            self.cards.staff.researcher.add_units(1);
            proof {
                k = k + 1;
            }
        }
    }

    /// Hands out one flyer, if there are people left to win and a flyer to
    /// give: one flyer is paid, up to one flyer's persuasion worth of people
    /// moves from unsupporting to supporting, and each whole supporter won
    /// adds one flyer's effectiveness to the save rate.
    pub fn handout_flyer(&mut self) -> (success: bool)
        requires
            old(self).wf(),
            old(self).cards.activism.handout_fits(),
        ensures
            final(self).wf(),
            handout_post(*old(self), *final(self), success),
    {
        let can_persuade = {
            let zero = Quantity::new(0);
            zero.lt(&self.cards.activism.unsupporting_people)
        };
        if can_persuade && self.cards.activism.flyer.try_pay(Quantity::new(1)) {
            let previous_supporting_people = self.cards.activism.supporting_people.whole_amount();
            let reduction = self.cards.activism.unsupporting_people.saturating_sub(
                self.cards.activism.flyer_persuasiveness,
            );
            self.cards.activism.supporting_people.add_assign(reduction);
            let new_whole = self.cards.activism.supporting_people.whole_amount();
            proof {
                lemma_whole_grows_at_most_one(
                    old(self).cards.activism.supporting_people@,
                    self.cards.activism.supporting_people@,
                );
            }
            let new_supporters: u128 = new_whole - previous_supporting_people;
            proof {
                crate::rate::lemma_rate_view_bounds(self.cards.activism.flyer_effectiveness);
                assert(new_supporters <= 1);
                if new_supporters == 0 {
                    assert(self.cards.activism.flyer_effectiveness@ * new_supporters == 0);
                } else {
                    assert(new_supporters == 1);
                    assert(self.cards.activism.flyer_effectiveness@ * new_supporters
                        == self.cards.activism.flyer_effectiveness@);
                }
            }
            let gained = self.cards.activism.flyer_effectiveness.mul_scalar(new_supporters);
            self.cards.activism.save_rate_from_flyers.add_assign(gained);
            true
        } else {
            false
        }
    }

    /// Produces one flyer by hand: recycled for free once recycling is
    /// researched, otherwise printed against the emission ledger.
    pub fn manually_create_flyer(&mut self) -> (success: bool)
        requires
            old(self).wf(),
            old(self).cards.activism.print_fits(),
        ensures
            final(self).wf(),
            if old(self).cards.activism.has_recycling {
                recycle_post(*old(self), *final(self), success)
            } else {
                print_post(*old(self), *final(self), success)
            },
    {
        if self.cards.activism.has_recycling {
            self.recycle_flyer()
        } else {
            self.print_flyer()
        }
    }

    /// Prints one flyer if the ledger allows it: the print cost may push the
    /// net balance below zero only as far as the allowed deficit.
    pub fn print_flyer(&mut self) -> (success: bool)
        requires
            old(self).wf(),
            old(self).cards.activism.print_fits(),
        ensures
            final(self).wf(),
            print_post(*old(self), *final(self), success),
    {
        let activism = &self.cards.activism;
        let mut theoretical_balance = activism.emission_balance;
        theoretical_balance.neg_mut().add_assign(activism.flyer_print_cost);
        theoretical_balance.pos_mut().add_assign(activism.maximal_emission_deficit);

        let affordable = {
            let zero = Quantity::new(0);
            theoretical_balance.balance().is_at_least(&zero)
        };
        if !affordable {
            return false;
        }
        self.cards.activism.emission_balance.neg_mut().add_assign(
            self.cards.activism.flyer_print_cost,
        );
        self.cards.activism.flyer.add_units(1);
        self.cards.activism.total_number_of_flyers.add_units(1);
        true
    }

    /// Recycles one flyer into existence, for free.
    pub fn recycle_flyer(&mut self) -> (success: bool)
        requires
            old(self).wf(),
            old(self).cards.activism.print_fits(),
        ensures
            final(self).wf(),
            recycle_post(*old(self), *final(self), success),
    {
        self.cards.activism.flyer.add_units(1);
        self.cards.activism.total_number_of_flyers.add_units(1);
        true
    }

    /// Raises the allowed emission deficit and announces it. The allowance
    /// only ever grows; lowering it is a contract violation.
    pub fn set_maximal_emission_deficit(&mut self, new_maximal_deficit: Quantity<Emission>)
        requires
            old(self).wf(),
            new_maximal_deficit.wf(),
            old(self).cards.activism.maximal_emission_deficit@ < new_maximal_deficit@,
            crate::decimal::max_total_displays(new_maximal_deficit@, 2),
        ensures
            final(self).wf(),
            final(self).cards.activism.maximal_emission_deficit == new_maximal_deficit,
            deficit_frame(*old(self), *final(self)),
            final(self).messages.pending().len() == old(self).messages.pending().len() + 1,
            final(self).messages.pending().drop_last() =~= old(self).messages.pending(),
            final(self).messages.shown_for() == old(self).messages.shown_for(),
    {
        self.cards.activism.maximal_emission_deficit = new_maximal_deficit;

        let mut text = String::from_str("Increased maximal emission deficit to ");
        let amount = new_maximal_deficit.stringify(2);
        text.append(amount.as_str());
        self.messages.queue(
            Message::new(text, crate::message::standard_message_duration()),
        );
    }
}

/// What handing out one flyer does, or why it did nothing.
pub open spec fn handout_post(w0: World, w: World, success: bool) -> bool {
    let a0 = w0.cards.activism;
    let a = w.cards.activism;
    let reduction = if a0.flyer_persuasiveness@ <= a0.unsupporting_people@ {
        a0.flyer_persuasiveness@
    } else {
        a0.unsupporting_people@
    };
    let new_supporters = (a0.supporting_people@ + reduction) / (GRANULARITY as int)
        - a0.supporting_people@ / (GRANULARITY as int);
    &&& success == (a0.unsupporting_people@ > 0 && GRANULARITY <= a0.flyer@)
    &&& !success ==> w == w0
    &&& success ==> {
        &&& a.flyer@ == a0.flyer@ - GRANULARITY
        &&& a.unsupporting_people@ == a0.unsupporting_people@ - reduction
        &&& a.supporting_people@ == a0.supporting_people@ + reduction
        &&& a.save_rate_from_flyers@ == a0.save_rate_from_flyers@ + new_supporters
            * a0.flyer_effectiveness@
        &&& a.total_number_of_flyers == a0.total_number_of_flyers
        &&& a.emission_balance == a0.emission_balance
        &&& a.stage == a0.stage
        &&& a.next_unlock_people == a0.next_unlock_people
        &&& a.next_next_unlock_people == a0.next_next_unlock_people
        &&& a.flyer_persuasiveness == a0.flyer_persuasiveness
        &&& a.flyer_effectiveness == a0.flyer_effectiveness
        &&& a.flyer_print_cost == a0.flyer_print_cost
        &&& a.maximal_emission_deficit == a0.maximal_emission_deficit
        &&& a.has_recycling == a0.has_recycling
        &&& w.cards.staff == w0.cards.staff
        &&& w.cards.research == w0.cards.research
        &&& w.cards.milestones == w0.cards.milestones
        &&& w.cards.selected == w0.cards.selected
        &&& w.messages == w0.messages
        &&& w.total_ticks == w0.total_ticks
    }
}

/// What printing one flyer does: it succeeds exactly when the ledger after
/// the print cost stays within the allowed deficit, and then one flyer
/// exists more and the cost is debited.
pub open spec fn print_post(w0: World, w: World, success: bool) -> bool {
    let a0 = w0.cards.activism;
    let a = w.cards.activism;
    &&& success == (a0.emission_balance.credit_part()@ + a0.maximal_emission_deficit@ >= a0
        .emission_balance.debit_part()@ + a0.flyer_print_cost@)
    &&& !success ==> w == w0
    &&& success ==> {
        &&& a.emission_balance.debit_part()@ == a0.emission_balance.debit_part()@
            + a0.flyer_print_cost@
        &&& a.emission_balance.credit_part() == a0.emission_balance.credit_part()
        &&& a.flyer@ == a0.flyer@ + GRANULARITY
        &&& a.total_number_of_flyers@ == a0.total_number_of_flyers@ + GRANULARITY
        &&& flyer_only_frame(w0, w)
    }
}

/// What recycling one flyer does: always succeeds, one flyer more, the
/// ledger untouched.
pub open spec fn recycle_post(w0: World, w: World, success: bool) -> bool {
    let a0 = w0.cards.activism;
    let a = w.cards.activism;
    &&& success
    &&& a.emission_balance == a0.emission_balance
    &&& a.flyer@ == a0.flyer@ + GRANULARITY
    &&& a.total_number_of_flyers@ == a0.total_number_of_flyers@ + GRANULARITY
    &&& flyer_only_frame(w0, w)
}

/// Everything flyer production leaves untouched.
pub open spec fn flyer_only_frame(w0: World, w: World) -> bool {
    let a0 = w0.cards.activism;
    let a = w.cards.activism;
    &&& a.stage == a0.stage
    &&& a.supporting_people == a0.supporting_people
    &&& a.unsupporting_people == a0.unsupporting_people
    &&& a.save_rate_from_flyers == a0.save_rate_from_flyers
    &&& a.next_unlock_people == a0.next_unlock_people
    &&& a.next_next_unlock_people == a0.next_next_unlock_people
    &&& a.flyer_persuasiveness == a0.flyer_persuasiveness
    &&& a.flyer_effectiveness == a0.flyer_effectiveness
    &&& a.flyer_print_cost == a0.flyer_print_cost
    &&& a.maximal_emission_deficit == a0.maximal_emission_deficit
    &&& a.has_recycling == a0.has_recycling
    &&& w.cards.staff == w0.cards.staff
    &&& w.cards.research == w0.cards.research
    &&& w.cards.milestones == w0.cards.milestones
    &&& w.cards.selected == w0.cards.selected
    &&& w.messages == w0.messages
    &&& w.total_ticks == w0.total_ticks
}

/// Everything a deficit raise leaves untouched (all but the deficit and the
/// message queue).
pub open spec fn deficit_frame(w0: World, w: World) -> bool {
    let a0 = w0.cards.activism;
    let a = w.cards.activism;
    &&& a.stage == a0.stage
    &&& a.emission_balance == a0.emission_balance
    &&& a.flyer == a0.flyer
    &&& a.total_number_of_flyers == a0.total_number_of_flyers
    &&& a.supporting_people == a0.supporting_people
    &&& a.unsupporting_people == a0.unsupporting_people
    &&& a.save_rate_from_flyers == a0.save_rate_from_flyers
    &&& a.next_unlock_people == a0.next_unlock_people
    &&& a.next_next_unlock_people == a0.next_next_unlock_people
    &&& a.flyer_persuasiveness == a0.flyer_persuasiveness
    &&& a.flyer_effectiveness == a0.flyer_effectiveness
    &&& a.flyer_print_cost == a0.flyer_print_cost
    &&& a.has_recycling == a0.has_recycling
    &&& w.cards.staff == w0.cards.staff
    &&& w.cards.research == w0.cards.research
    &&& w.cards.milestones == w0.cards.milestones
    &&& w.cards.selected == w0.cards.selected
    &&& w.total_ticks == w0.total_ticks
}

impl World {
    /// The flyer action of the open game: try to produce a flyer; the first
    /// time that fails, manual research is unlocked instead and announced.
    pub fn flyer_action(&mut self)
        requires
            old(self).wf(),
            old(self).cards.activism.print_fits(),
        ensures
            final(self).wf(),
            old(self).cards.activism.has_recycling ==> recycle_post(
                *old(self),
                *final(self),
                true,
            ),
            (!old(self).cards.activism.has_recycling && print_succeeds(*old(self))) ==> print_post(
                *old(self),
                *final(self),
                true,
            ),
            (!old(self).cards.activism.has_recycling && !print_succeeds(*old(self))) ==> {
                &&& final(self).cards.research.manual_research_per_click@ == GRANULARITY as int
                    / 120
                &&& final(self).cards.research.manager.locked_codes().contains(3u64) == false
                &&& final(self).messages.pending().len() == old(self).messages.pending().len() + 1
                &&& final(self).messages.pending().last().spec_text() == "Manuel research unlocked."@
                &&& final(self).cards.activism == old(self).cards.activism
            },
    {
        let success = self.manually_create_flyer();
        if !success {
            self.cards.research.manual_research_per_click = Quantity::fraction(1, 120);
            self.cards.research.manager.unlock(
                crate::world::cards::research::Project::Recycling,
            );
            self.messages.queue(
                Message::new(
                    String::from_str("Manuel research unlocked."),
                    crate::message::standard_message_duration(),
                ),
            );
        }
    }

    /// The flyer-handout action of the introduction: hands out one flyer,
    /// which during the introduction always succeeds.
    pub fn prolog_handout_action(&mut self)
        requires
            old(self).wf(),
            old(self).cards.activism.handout_fits(),
            old(self).cards.activism.unsupporting_people@ > 0,
            GRANULARITY <= old(self).cards.activism.flyer@,
        ensures
            final(self).wf(),
            handout_post(*old(self), *final(self), true),
    {
        let _ = self.handout_flyer();
    }

    /// The print action of the introduction: tries to print, which by the
    /// introduction's design succeeds only at its very last step, advances
    /// the introduction, and at the second-to-last step grants the first
    /// emission deficit allowance.
    pub fn prolog_print_action(&mut self)
        requires
            old(self).wf(),
            old(self).cards.activism.print_fits(),
            old(self).cards.activism.stage is Prolog,
            old(self).cards.activism.stage->step < NUMBER_OF_PROLOG_STEPS,
            !old(self).cards.activism.has_recycling,
            print_succeeds(*old(self)) <==> old(self).cards.activism.stage->step
                == NUMBER_OF_PROLOG_STEPS - 1,
            old(self).cards.activism.stage->step == NUMBER_OF_PROLOG_STEPS - 2
                ==> old(self).cards.activism.maximal_emission_deficit@ < 1000 * GRANULARITY,
        ensures
            final(self).wf(),
            final(self).cards.activism.stage == (if old(self).cards.activism.stage->step + 1
                < NUMBER_OF_PROLOG_STEPS {
                Stage::Prolog { step: (old(self).cards.activism.stage->step + 1) as usize }
            } else {
                Stage::Main
            }),
            old(self).cards.activism.stage->step == NUMBER_OF_PROLOG_STEPS - 1
                ==> final(self).cards.activism.flyer@ == old(self).cards.activism.flyer@
                + GRANULARITY,
            old(self).cards.activism.stage->step < NUMBER_OF_PROLOG_STEPS - 1
                ==> final(self).cards.activism.flyer == old(self).cards.activism.flyer,
            final(self).cards.activism.maximal_emission_deficit@
                == (if old(self).cards.activism.stage->step == NUMBER_OF_PROLOG_STEPS - 2 {
                1000 * (GRANULARITY as int)
            } else {
                old(self).cards.activism.maximal_emission_deficit@
            }),
    {
        let success = self.manually_create_flyer();
        let step = match self.cards.activism.stage {
            Stage::Prolog { step } => step,
            Stage::Main => 0,
        };
        self.cards.activism.stage.step_forward();
        if step == NUMBER_OF_PROLOG_STEPS - 2 {
            proof {
                lemma_thousand_units_display();
            }
            self.set_maximal_emission_deficit(Quantity::new(1000));
        }
    }
}

impl World {
    /// Whether a print attempt would succeed right now.
    pub fn print_would_succeed(&self) -> (r: bool)
        requires
            self.wf(),
            self.cards.activism.print_fits(),
        ensures
            r == print_succeeds(*self),
    {
        let activism = &self.cards.activism;
        let mut theoretical_balance = activism.emission_balance;
        theoretical_balance.neg_mut().add_assign(activism.flyer_print_cost);
        theoretical_balance.pos_mut().add_assign(activism.maximal_emission_deficit);
        let zero = Quantity::new(0);
        theoretical_balance.balance().is_at_least(&zero)
    }
}

/// Whether a print attempt would succeed: the ledger after the print cost
/// stays within the allowed deficit.
pub open spec fn print_succeeds(w: World) -> bool {
    let a = w.cards.activism;
    a.emission_balance.credit_part()@ + a.maximal_emission_deficit@ >= a.emission_balance
        .debit_part()@ + a.flyer_print_cost@
}

/// A thousand whole units can always be shown with two decimal digits.
proof fn lemma_thousand_units_display()
    ensures
        crate::decimal::max_total_displays(1000 * (GRANULARITY as int), 2),
{
    assert(crate::decimal::pow10(0) == 1);
    assert(crate::decimal::pow10(1) == 10);
    assert(crate::decimal::pow10(2) == 100);
    assert(100 * (GRANULARITY as int) <= u128::MAX);
    assert(1000 * (GRANULARITY as int) * 100 <= max_total()) by (nonlinear_arith)
        requires
            max_total() == u128::MAX * GRANULARITY + (GRANULARITY - 1),
            GRANULARITY >= 1,
            100_000 * (GRANULARITY as int) <= u128::MAX,
    ;
}

/// The staff-unlock ladder adds at most one researcher per supporter: the
/// final researcher total exceeds the initial one by at most the supporter
/// total plus one more unit.
pub proof fn lemma_staff_unlocks_researcher_bound(a: int, b: int, r: int, s: int)
    requires
        0 < a < b,
        a % (GRANULARITY as int) == 0,
        b % (GRANULARITY as int) == 0,
    ensures
        staff_unlocks(a, b, r, s).2 <= r + (if a <= s {
            s - a + GRANULARITY
        } else {
            0
        }),
        r <= staff_unlocks(a, b, r, s).2,
    decreases (if a <= s {
        s + 1 - a
    } else {
        0
    }),
{
    let g = GRANULARITY as int;
    if a <= s {
        lemma_fundamental_div_mod(a, g);
        lemma_fundamental_div_mod(b, g);
        let k = b / g - a / g;
        assert(b - a == k * g) by (nonlinear_arith)
            requires
                a == g * (a / g) + a % g,
                b == g * (b / g) + b % g,
                a % g == 0,
                b % g == 0,
                k == b / g - a / g,
        ;
        assert(k >= 1) by (nonlinear_arith)
            requires
                b - a == k * g,
                b - a > 0,
                0 < g,
        ;
        assert(b - a >= g) by (nonlinear_arith)
            requires
                b - a == k * g,
                k >= 1,
                0 < g,
        ;
        lemma_staff_unlocks_researcher_bound(b, a + b, r + g, s);
    }
}

/// Adding less than one whole unit moves the whole part up by at most one.
proof fn lemma_whole_grows_at_most_one(t0: int, t1: int)
    requires
        0 <= t0,
        t0 <= t1 <= t0 + GRANULARITY,
    ensures
        t0 / (GRANULARITY as int) <= t1 / (GRANULARITY as int) <= t0 / (GRANULARITY as int) + 1,
{
    let g = GRANULARITY as int;
    vstd::arithmetic::div_mod::lemma_div_is_ordered(t0, t1, g);
    vstd::arithmetic::div_mod::lemma_div_is_ordered(t1, t0 + g, g);
    lemma_fundamental_div_mod(t0, g);
    lemma_fundamental_div_mod_converse(t0 + g, g, t0 / g + 1, t0 % g);
}

} // verus!
