//! The terminal front end's card menu: which screens exist, which one is
//! selected, and the little progression state shown on them.

use vstd::prelude::*;
use vstd::string::StringExecFns;

verus! {

/// The screens of the menu.
#[derive(Clone, Copy, Debug, PartialEq, Eq, Structural)]
pub enum Card {
    Flyer,
    Achievements,
}

impl Card {
    /// The menu label of the screen.
    pub open spec fn spec_text(self) -> Seq<char> {
        match self {
            Card::Flyer => "Flyer"@,
            Card::Achievements => "Achievements"@,
        }
    }

    /// The menu label of the screen.
    pub fn text(&self) -> (s: String)
        ensures
            s@ == self.spec_text(),
    {
        match self {
            Card::Flyer => String::from_str("Flyer"),
            Card::Achievements => String::from_str("Achievements"),
        }
    }

    /// The screen after this one in menu order, if any.
    pub fn next(&self) -> (n: Option<Card>)
        ensures
            n == (match *self {
                Card::Flyer => Some(Card::Achievements),
                Card::Achievements => None::<Card>,
            }),
    {
        match self {
            Card::Flyer => Some(Card::Achievements),
            Card::Achievements => None,
        }
    }

    /// The screen before this one in menu order, if any.
    pub fn previous(&self) -> (p: Option<Card>)
        ensures
            p == (match *self {
                Card::Flyer => None::<Card>,
                Card::Achievements => Some(Card::Flyer),
            }),
    {
        match self {
            Card::Flyer => None,
            Card::Achievements => Some(Card::Flyer),
        }
    }
}

/// One unlocked achievement.
#[derive(Clone, Debug)]
pub struct Achievement {
    /// What the player is told they achieved.
    pub text: String,
}

/// The achievements screen: everything unlocked so far.
#[derive(Debug)]
pub struct Achievements {
    /// The unlocked achievements, oldest first.
    pub unlocked: Vec<Achievement>,
}

impl Achievements {
    /// The screen right after it is unlocked: its own unlocking is the
    /// first entry.
    pub fn new() -> (a: Achievements)
        ensures
            a.unlocked@.len() == 1,
            a.unlocked@[0].text@ == "Unlock achievements."@,
    {
        let first = Achievement { text: String::from_str("Unlock achievements.") };
        let mut unlocked: Vec<Achievement> = Vec::new();
        unlocked.push(first);
        Achievements { unlocked }
    }
}

/// The flyer screen's own counters.
#[derive(Clone, Copy, Debug)]
pub struct Flyer {
    /// Grams of carbon dioxide equivalent saved so far.
    pub saved_co2: u128,
    /// Flyers on hand, once the first one has been printed.
    pub available_flyers: Option<u128>,
}

impl Flyer {
    /// The screen before anything happened.
    pub fn new() -> (f: Flyer)
        ensures
            f.saved_co2 == 0,
            f.available_flyers is None,
    {
        Flyer { saved_co2: 0, available_flyers: None }
    }
}

/// The whole menu: the screens and which one is selected.
#[derive(Debug)]
pub struct Cards {
    /// The flyer screen.
    pub flyer: Flyer,
    /// The achievements screen, once unlocked.
    pub achievements: Option<Achievements>,
    /// The selected screen.
    pub selected: Card,
}

impl Cards {
    /// Whether a screen is reachable in the menu.
    pub open spec fn spec_contains(self, card: Card) -> bool {
        match card {
            Card::Flyer => true,
            Card::Achievements => self.achievements is Some,
        }
    }

    /// A fresh menu: only the flyer screen, and it is selected.
    pub fn new() -> (c: Cards)
        ensures
            c.flyer.saved_co2 == 0,
            c.flyer.available_flyers is None,
            c.achievements is None,
            c.selected == Card::Flyer,
    {
        Cards { flyer: Flyer::new(), achievements: None, selected: Card::Flyer }
    }

    /// Whether a screen is reachable in the menu.
    pub fn contains(&self, card: Card) -> (r: bool)
        ensures
            r == self.spec_contains(card),
    {
        match card {
            Card::Flyer => true,
            Card::Achievements => self.achievements.is_some(),
        }
    }

    /// Selects the next reachable screen, if there is one further down.
    pub fn next(&mut self)
        ensures
            final(self).flyer == old(self).flyer,
            final(self).achievements == old(self).achievements,
            final(self).selected == (if old(self).selected == Card::Flyer && old(
                self,
            ).spec_contains(Card::Achievements) {
                Card::Achievements
            } else {
                old(self).selected
            }),
    {
        let candidate = self.selected.next();
        match candidate {
            None => {},
            Some(card) => {
                if self.contains(card) {
                    self.selected = card;
                }
            },
        }
    }

    /// Selects the previous reachable screen, if there is one further up.
    pub fn previous(&mut self)
        ensures
            final(self).flyer == old(self).flyer,
            final(self).achievements == old(self).achievements,
            final(self).selected == (if old(self).selected == Card::Achievements {
                Card::Flyer
            } else {
                old(self).selected
            }),
    {
        let candidate = self.selected.previous();
        match candidate {
            None => {},
            Some(card) => {
                if self.contains(card) {
                    self.selected = card;
                }
            },
        }
    }
}

} // verus!
