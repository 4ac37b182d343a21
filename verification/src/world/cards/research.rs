//! The research card: projects that permanently improve the campaign.
//!
//! Projects move through a fixed life cycle: locked, then available, then
//! active (accumulating research points), then finished, at which point the
//! project's effect is applied to the activism card, exactly once and in a
//! fixed order. The sets of locked, available and finished projects keep
//! their insertion order in `IndexSet`s of the `indexmap` crate, behind
//! trusted wrappers.

use indexmap::IndexSet;

use vstd::prelude::*;
use vstd::string::StringExecFns;

use crate::duration::{Duration, GRANULARITY, TICKS_PER_MINUTE, TICKS_PER_YEAR};
use crate::message::{standard_message_duration, Message};
use crate::quantity::types::{Emission, ResearchPoints};
use crate::quantity::{max_total, Quantity};
use crate::rate::Rate;
use crate::world::cards::activism::Activism;
use crate::world::World;

verus! {

#[verifier::external_type_specification]
#[verifier::external_body]
#[verifier::reject_recursive_types(T)]
#[verifier::reject_recursive_types(S)]
pub struct ExIndexSet<T, S>(IndexSet<T, S>);

/// What an `IndexSet` of plain codes holds, in insertion order.
pub uninterp spec fn iset_elems(s: IndexSet<u64>) -> Seq<u64>;

/// Relies on `IndexSet::new`: a new set is empty.
#[verifier::external_body]
fn iset_new() -> (s: IndexSet<u64>)
    ensures
        iset_elems(s) == Seq::<u64>::empty(),
{
    IndexSet::new()
}

/// Relies on `IndexSet::insert`: a value not yet present is appended at the
/// end and `true` is returned; a present value leaves the set, and the
/// insertion order, untouched and returns `false`.
#[verifier::external_body]
fn iset_insert(s: &mut IndexSet<u64>, value: u64) -> (added: bool)
    ensures
        added == !iset_elems(*old(s)).contains(value),
        added ==> iset_elems(*final(s)) == iset_elems(*old(s)).push(value),
        !added ==> iset_elems(*final(s)) == iset_elems(*old(s)),
{
    s.insert(value)
}

/// Relies on `IndexSet::swap_remove`: a present value is removed by swapping
/// it with the last element and popping; an absent value leaves the set
/// untouched.
#[verifier::external_body]
fn iset_swap_remove(s: &mut IndexSet<u64>, value: &u64) -> (removed: bool)
    ensures
        removed == iset_elems(*old(s)).contains(*value),
        !removed ==> iset_elems(*final(s)) == iset_elems(*old(s)),
        removed ==> exists|i: int|
            {
                &&& 0 <= i < iset_elems(*old(s)).len()
                &&& iset_elems(*old(s))[i] == *value
                &&& iset_elems(*final(s)) =~= iset_elems(*old(s)).update(
                    i,
                    iset_elems(*old(s)).last(),
                ).drop_last()
            },
{
    s.swap_remove(value)
}

/// Relies on `IndexSet::len`.
#[verifier::external_body]
fn iset_len(s: &IndexSet<u64>) -> (n: usize)
    ensures
        n == iset_elems(*s).len(),
{
    s.len()
}

/// Relies on `IndexSet::get_index`: the element at `index` in insertion
/// order, if the index is in range.
#[verifier::external_body]
fn iset_get_index(s: &IndexSet<u64>, index: usize) -> (r: Option<u64>)
    ensures
        index < iset_elems(*s).len() ==> r == Some(iset_elems(*s)[index as int]),
        index >= iset_elems(*s).len() ==> r is None,
{
    s.get_index(index).copied()
}

/// The research projects the game offers.
#[derive(Clone, Copy, Debug, PartialEq, Eq, Hash, Structural)]
pub enum Project {
    BetterGuidelines1,
    BetterGuidelines2,
    CatchierFlyer1,
    Recycling,
}

pub const PROJECT_COUNT: u64 = 4;

impl Project {
    /// The plain code under which a project is stored in the sets.
    pub open spec fn spec_code(self) -> u64 {
        match self {
            Project::BetterGuidelines1 => 0,
            Project::BetterGuidelines2 => 1,
            Project::CatchierFlyer1 => 2,
            Project::Recycling => 3,
        }
    }

    /// The plain code under which a project is stored in the sets.
    pub fn code(self) -> (c: u64)
        ensures
            c == self.spec_code(),
            c < PROJECT_COUNT,
    {
        match self {
            Project::BetterGuidelines1 => 0,
            Project::BetterGuidelines2 => 1,
            Project::CatchierFlyer1 => 2,
            Project::Recycling => 3,
        }
    }

    /// The project stored under `c`, if any.
    pub fn from_code(c: u64) -> (p: Option<Project>)
        ensures
            c < PROJECT_COUNT ==> (p matches Some(pr) && pr.spec_code() == c),
            c >= PROJECT_COUNT ==> p is None,
    {
        if c == 0 {
            Some(Project::BetterGuidelines1)
        } else if c == 1 {
            Some(Project::BetterGuidelines2)
        } else if c == 2 {
            Some(Project::CatchierFlyer1)
        } else if c == 3 {
            Some(Project::Recycling)
        } else {
            None
        }
    }

    /// What the project costs, in research points.
    pub open spec fn spec_cost(self) -> int {
        match self {
            Project::BetterGuidelines1 => GRANULARITY as int,
            Project::BetterGuidelines2 => 2 * GRANULARITY,
            Project::CatchierFlyer1 => GRANULARITY as int / 2,
            Project::Recycling => 3 * (GRANULARITY as int / 2),
        }
    }

    /// What the project costs, in research points.
    pub fn cost(&self) -> (q: Quantity<ResearchPoints>)
        ensures
            q.wf(),
            q@ == self.spec_cost(),
    {
        match self {
            Project::BetterGuidelines1 => Quantity::new(1),
            Project::BetterGuidelines2 => Quantity::new(2),
            Project::CatchierFlyer1 => Quantity::fraction(1, 2),
            Project::Recycling => Quantity::fraction(3, 2),
        }
    }

    /// The project's display name.
    pub open spec fn spec_name(self) -> Seq<char> {
        match self {
            Project::BetterGuidelines1 => "Better Guidelines"@,
            Project::BetterGuidelines2 => "Even better Guidelines"@,
            Project::CatchierFlyer1 => "Catchier Flyer"@,
            Project::Recycling => "Recycling"@,
        }
    }

    /// The project's display name.
    pub fn name(&self) -> (s: String)
        ensures
            s@ == self.spec_name(),
    {
        match self {
            Project::BetterGuidelines1 => String::from_str("Better Guidelines"),
            Project::BetterGuidelines2 => String::from_str("Even better Guidelines"),
            Project::CatchierFlyer1 => String::from_str("Catchier Flyer"),
            Project::Recycling => String::from_str("Recycling"),
        }
    }
}

/// The save rate one supporter contributes at the start: 100,000 grams per
/// year, in residual steps per tick.
pub open spec fn effectiveness_0() -> int {
    100_000 * GRANULARITY / TICKS_PER_YEAR as int
}

/// The supporter save rate after "Better Guidelines": 150,000 grams a year.
pub open spec fn effectiveness_1() -> int {
    150_000 * GRANULARITY / TICKS_PER_YEAR as int
}

/// The supporter save rate after "Even better Guidelines": half a million
/// grams a year.
pub open spec fn effectiveness_2() -> int {
    500_000 * GRANULARITY / TICKS_PER_YEAR as int
}

/// The flyer persuasiveness after "Catchier Flyer": a seventh of a person.
pub open spec fn persuasiveness_1() -> int {
    GRANULARITY as int / 7
}

/// The initial supporter save rate, as a value.
pub fn flyer_effectiveness_0() -> (r: Rate<Emission>)
    ensures
        r.wf(),
        r@ == effectiveness_0(),
{
    rate_per_year(100_000)
}

/// The supporter save rate after "Better Guidelines", as a value.
pub fn flyer_effectiveness_1() -> (r: Rate<Emission>)
    ensures
        r.wf(),
        r@ == effectiveness_1(),
{
    rate_per_year(150_000)
}

/// The supporter save rate after "Even better Guidelines", as a value.
pub fn flyer_effectiveness_2() -> (r: Rate<Emission>)
    ensures
        r.wf(),
        r@ == effectiveness_2(),
{
    rate_per_year(500_000)
}

/// `amount` whole units spread exactly over one year.
fn rate_per_year(amount: u128) -> (r: Rate<Emission>)
    requires
        amount <= 1_000_000_000,
    ensures
        r.wf(),
        r@ == amount * GRANULARITY / TICKS_PER_YEAR as int,
{
    proof {
        lemma_granularity_per_year(amount as int);
    }
    Rate::new(Quantity::new(amount), Duration::year())
}

/// The codes of the projects a manager holds, with an active project's
/// research progress.
pub struct ResearchManager {
    locked: IndexSet<u64>,
    active: Option<(Project, Quantity<ResearchPoints>)>,
    available: IndexSet<u64>,
    finished: IndexSet<u64>,
}

impl ResearchManager {
    /// The codes of the projects not yet reachable, in insertion order.
    pub closed spec fn locked_codes(self) -> Seq<u64> {
        iset_elems(self.locked)
    }

    /// The codes of the projects open for activation, in insertion order.
    pub closed spec fn available_codes(self) -> Seq<u64> {
        iset_elems(self.available)
    }

    /// The codes of the finished projects, in completion order.
    pub closed spec fn finished_codes(self) -> Seq<u64> {
        iset_elems(self.finished)
    }

    /// The project under research and its progress, if any.
    pub closed spec fn spec_active(self) -> Option<(Project, Quantity<ResearchPoints>)> {
        self.active
    }

    /// Whether the project with code `c` is the one under research.
    pub open spec fn active_is(self, c: u64) -> bool {
        self.spec_active() matches Some(pq) && pq.0.spec_code() == c
    }

    /// Each project is in at most one place, every stored code names a
    /// project, and no set holds a code twice.
    pub open spec fn wf(self) -> bool {
        &&& self.locked_codes().no_duplicates()
        &&& self.available_codes().no_duplicates()
        &&& self.finished_codes().no_duplicates()
        &&& forall|c: u64| #[trigger] self.locked_codes().contains(c) ==> c < PROJECT_COUNT
        &&& forall|c: u64| #[trigger] self.available_codes().contains(c) ==> c < PROJECT_COUNT
        &&& forall|c: u64| #[trigger] self.finished_codes().contains(c) ==> c < PROJECT_COUNT
        &&& forall|c: u64|
            !(#[trigger] self.locked_codes().contains(c)
                && self.available_codes().contains(c))
        &&& forall|c: u64|
            !(#[trigger] self.locked_codes().contains(c) && self.finished_codes().contains(c))
        &&& forall|c: u64|
            !(#[trigger] self.available_codes().contains(c)
                && self.finished_codes().contains(c))
        &&& self.spec_active() matches Some(pq) ==> {
            &&& pq.1.wf()
            &&& !self.locked_codes().contains(pq.0.spec_code())
            &&& !self.available_codes().contains(pq.0.spec_code())
            &&& !self.finished_codes().contains(pq.0.spec_code())
        }
    }

    /// A fresh manager: "Catchier Flyer" is open from the start, everything
    /// else is locked, nothing is active or finished.
    pub fn new() -> (m: ResearchManager)
        ensures
            m.wf(),
            m.locked_codes() =~= seq![0u64, 1u64, 3u64],
            m.available_codes() =~= seq![2u64],
            m.finished_codes() =~= Seq::<u64>::empty(),
            m.spec_active() is None,
    {
        let mut locked = iset_new();
        let _ = iset_insert(&mut locked, 0);
        let _ = iset_insert(&mut locked, 1);
        let _ = iset_insert(&mut locked, 3);
        let mut available = iset_new();
        let _ = iset_insert(&mut available, 2);
        proof {
            assert(iset_elems(locked) =~= seq![0u64, 1u64, 3u64]);
            assert(iset_elems(available) =~= seq![2u64]);
            assert(seq![0u64, 1u64, 3u64].no_duplicates());
            assert(seq![2u64].no_duplicates());
        }
        ResearchManager { locked, active: None, available, finished: iset_new() }
    }

    /// Moves a locked project into the available set; unlocking a project
    /// that is not locked does nothing.
    pub fn unlock(&mut self, project: Project)
        requires
            old(self).wf(),
        ensures
            final(self).wf(),
            old(self).locked_codes().contains(project.spec_code()) ==> {
                &&& !final(self).locked_codes().contains(project.spec_code())
                &&& forall|c: u64|
                    c != project.spec_code() ==> #[trigger] final(self).locked_codes().contains(
                        c,
                    ) == old(self).locked_codes().contains(c)
                &&& final(self).available_codes() == old(self).available_codes().push(
                    project.spec_code(),
                )
                &&& forall|c: u64|
                    #[trigger] final(self).available_codes().contains(c) == (old(
                        self,
                    ).available_codes().contains(c) || c == project.spec_code())
            },
            !old(self).locked_codes().contains(project.spec_code())
                ==> final(self).locked_codes() == old(self).locked_codes()
                && final(self).available_codes() == old(self).available_codes(),
            final(self).finished_codes() == old(self).finished_codes(),
            final(self).spec_active() == old(self).spec_active(),
    {
        let c = project.code();
        let ghost pre = iset_elems(self.locked);
        let removed = iset_swap_remove(&mut self.locked, &c);
        if removed {
            proof {
                let i = choose|i: int|
                    0 <= i < pre.len() && pre[i] == c && iset_elems(self.locked) =~= pre.update(
                        i,
                        pre.last(),
                    ).drop_last();
                lemma_swap_remove_set(pre, i);
                lemma_push_fresh(iset_elems(self.available), c);
            }
            let _ = iset_insert(&mut self.available, c);
        }
    }

    /// The codes of the projects open for activation.
    pub fn available(&self) -> (s: &IndexSet<u64>)
        ensures
            iset_elems(*s) == self.available_codes(),
    {
        &self.available
    }

    /// The projects open for activation, in order.
    pub fn available_projects(&self) -> (v: Vec<Project>)
        requires
            self.wf(),
        ensures
            v@.len() == self.available_codes().len(),
            forall|i: int|
                0 <= i < v@.len() ==> (#[trigger] v@[i]).spec_code() == self.available_codes()[i],
    {
        let n = iset_len(&self.available);
        let mut v: Vec<Project> = Vec::new();
        let mut i: usize = 0;
        while i < n
            invariant
                i <= n,
                n == self.available_codes().len(),
                self.wf(),
                v@.len() == i,
                forall|j: int|
                    0 <= j < i ==> (#[trigger] v@[j]).spec_code() == self.available_codes()[j],
            decreases n - i,
        {
            let c = iset_get_index(&self.available, i);
            proof {
                assert(self.available_codes().contains(self.available_codes()[i as int]));
            }
            match c {
                Some(code) => {
                    match Project::from_code(code) {
                        Some(p) => { v.push(p) },
                        None => {
                            proof {
                                assert(false);
                            }
                        },
                    }
                },
                None => {
                    proof {
                        assert(false);
                    }
                },
            }
            i = i + 1;
        }
        v
    }

    /// The project under research and its progress, if any.
    pub fn active(&self) -> (a: &Option<(Project, Quantity<ResearchPoints>)>)
        ensures
            *a == self.spec_active(),
    {
        &self.active
    }

    /// Starts researching an available project, with no progress yet.
    /// Activating while something is active, or activating a project that is
    /// not available, is a contract violation.
    pub fn activate(&mut self, project: Project)
        requires
            old(self).wf(),
            old(self).spec_active() is None,
            old(self).available_codes().contains(project.spec_code()),
        ensures
            final(self).wf(),
            (final(self).spec_active() matches Some(pq) && pq.0 == project && pq.1@ == 0),
            !final(self).available_codes().contains(project.spec_code()),
            forall|c: u64|
                c != project.spec_code() ==> #[trigger] final(self).available_codes().contains(c)
                    == old(self).available_codes().contains(c),
            final(self).locked_codes() == old(self).locked_codes(),
            final(self).finished_codes() == old(self).finished_codes(),
    {
        let c = project.code();
        let ghost pre = iset_elems(self.available);
        let removed = iset_swap_remove(&mut self.available, &c);
        proof {
            let i = choose|i: int|
                0 <= i < pre.len() && pre[i] == c && iset_elems(self.available) =~= pre.update(
                    i,
                    pre.last(),
                ).drop_last();
            lemma_swap_remove_set(pre, i);
        }
        self.active = Some((project, Quantity::new(0)));
    }
}

/// Removing position `i` of a duplicate-free sequence by swapping in the
/// last element and popping keeps it duplicate-free and removes exactly the
/// element at `i`.
proof fn lemma_swap_remove_set(s: Seq<u64>, i: int)
    requires
        s.no_duplicates(),
        0 <= i < s.len(),
    ensures
        s.update(i, s.last()).drop_last().no_duplicates(),
        forall|c: u64|
            #[trigger] s.update(i, s.last()).drop_last().contains(c) == (s.contains(c) && c
                != s[i]),
{
    let n = s.len() as int;
    let t = s.update(i, s.last()).drop_last();
    assert(t.len() == n - 1);
    assert forall|j: int| 0 <= j < n - 1 implies t[j] == (if j == i {
        s[n - 1]
    } else {
        s[j]
    }) by {
    }
    assert forall|c: u64| #[trigger] t.contains(c) implies (s.contains(c) && c != s[i]) by {
        let j = choose|j: int| 0 <= j < t.len() && t[j] == c;
        if j == i {
            assert(s[n - 1] == c);
            assert(s.contains(c));
            if c == s[i] {
                assert(s[n - 1] == s[i] && i != n - 1);
            }
        } else {
            assert(s[j] == c);
            assert(s.contains(c));
            if c == s[i] {
                assert(s[j] == s[i] && j != i);
            }
        }
    }
    assert forall|c: u64| (s.contains(c) && c != s[i]) implies #[trigger] t.contains(c) by {
        let j = choose|j: int| 0 <= j < s.len() && s[j] == c;
        if j == n - 1 {
            assert(i != n - 1);
            assert(t[i] == c);
        } else {
            assert(t[j] == c);
        }
    }
    assert forall|j: int, k: int| 0 <= j < k < t.len() implies t[j] != t[k] by {
        if t[j] == t[k] {
            if j == i {
                assert(s[n - 1] == s[k] && k != n - 1);
            } else if k == i {
                assert(s[n - 1] == s[j] && j != n - 1);
            } else {
                assert(s[j] == s[k]);
            }
        }
    }
    assert(t.no_duplicates()) by {
        assert(forall|j: int, k: int| 0 <= j < k < t.len() ==> t[j] != t[k]);
    }
}

/// The research card: the manager plus how fast research happens.
pub struct Research {
    /// Whether the card has been discovered (it appears with the first
    /// researcher).
    pub discovered: bool,
    /// The project life cycle.
    pub manager: ResearchManager,
    /// The research rate one researcher contributes.
    pub rate_per_researcher: Rate<ResearchPoints>,
    /// The progress one manual research action contributes; zero until
    /// manual research is unlocked.
    pub manual_research_per_click: Quantity<ResearchPoints>,
}

impl Research {
    pub open spec fn wf(self) -> bool {
        &&& self.manager.wf()
        &&& self.rate_per_researcher.wf()
        &&& self.manual_research_per_click.wf()
    }

    /// A fresh research card: not yet discovered, one research point per
    /// researcher-minute, no manual research.
    pub fn new() -> (r: Research)
        ensures
            r.wf(),
            initial_research(r),
    {
        proof {
            let g = GRANULARITY as int;
            let m = TICKS_PER_MINUTE as int;
            assert(g == 2_207_520_000 * m);
            assert(g % m == 0 && g % (m * g) <= u128::MAX && g <= max_total())
                by (nonlinear_arith)
                requires
                    g == 2_207_520_000 * m,
                    0 < m,
                    g == GRANULARITY,
                    m == TICKS_PER_MINUTE,
                    max_total() == u128::MAX * GRANULARITY + (GRANULARITY - 1),
            ;
        }
        Research {
            discovered: false,
            manager: ResearchManager::new(),
            rate_per_researcher: Rate::new(Quantity::new(1), Duration::minute()),
            manual_research_per_click: Quantity::new(0),
        }
    }
}

/// How every fresh research card starts.
pub open spec fn initial_research(r: Research) -> bool {
    &&& !r.discovered
    &&& r.manager.locked_codes() =~= seq![0u64, 1u64, 3u64]
    &&& r.manager.available_codes() =~= seq![2u64]
    &&& r.manager.finished_codes() =~= Seq::<u64>::empty()
    &&& r.manager.spec_active() is None
    &&& r.rate_per_researcher@ == GRANULARITY as int / TICKS_PER_MINUTE as int
    &&& r.manual_research_per_click@ == 0
}

/// The pact between the research card and the activism card: the activism
/// parameters are exactly what the finished projects say they are, and a
/// project can only be reached after its prerequisite is finished.
pub open spec fn research_consistent(r: Research, a: Activism) -> bool {
    let fin = r.manager.finished_codes();
    &&& a.flyer_effectiveness@ == (if fin.contains(1u64) {
        effectiveness_2()
    } else if fin.contains(0u64) {
        effectiveness_1()
    } else {
        effectiveness_0()
    })
    &&& a.flyer_persuasiveness@ == (if fin.contains(2u64) {
        persuasiveness_1()
    } else {
        GRANULARITY as int / 10
    })
    &&& a.has_recycling == fin.contains(3u64)
    &&& (r.manager.available_codes().contains(1u64) || r.manager.active_is(1u64)
        || fin.contains(1u64)) ==> fin.contains(0u64)
    &&& (r.manager.available_codes().contains(0u64) || r.manager.active_is(0u64)
        || fin.contains(0u64)) ==> fin.contains(2u64)
}

impl Project {
    /// Applies the finished project's permanent effect to the world.
    ///
    /// Each project is applied exactly once, after its prerequisite:
    /// applying out of order is a contract violation.
    pub fn apply(self, world: &mut World)
        requires
            old(world).cards.activism.wf(),
            old(world).cards.research.wf(),
            research_consistent(old(world).cards.research, old(world).cards.activism),
            !old(world).cards.research.manager.finished_codes().contains(self.spec_code()),
            !old(world).cards.research.manager.available_codes().contains(self.spec_code()),
            !old(world).cards.research.manager.active_is(self.spec_code()),
            self == Project::BetterGuidelines1 ==> old(
                world,
            ).cards.research.manager.finished_codes().contains(2u64),
            self == Project::BetterGuidelines2 ==> old(
                world,
            ).cards.research.manager.finished_codes().contains(0u64),
        ensures
            final(world).cards.activism.wf(),
            final(world).cards.research.wf(),
            project_effect(self, *old(world), *final(world)),
    {
        match self {
            Project::BetterGuidelines1 => {
                world.cards.activism.flyer_effectiveness = flyer_effectiveness_1();
                world.cards.research.manager.unlock(Project::BetterGuidelines2);
                world.cards.research.manager.unlock(Project::CatchierFlyer1);
            },
            Project::BetterGuidelines2 => {
                world.cards.activism.flyer_effectiveness = flyer_effectiveness_2();
            },
            Project::CatchierFlyer1 => {
                world.cards.activism.flyer_persuasiveness = Quantity::fraction(1, 7);
                world.cards.research.manager.unlock(Project::BetterGuidelines1);
            },
            Project::Recycling => {
                world.cards.activism.has_recycling = true;
            },
        }
    }

}

/// Exactly the project stored under `code` was offered for unlocking: if it
/// was locked it moved to the end of the available set, and no other entry
/// of the locked or available sets changed.
pub open spec fn unlocks_exactly(code: u64, w0: World, w: World) -> bool {
    &&& !w.cards.research.manager.locked_codes().contains(code)
    &&& forall|c: u64|
        c != code ==> #[trigger] w.cards.research.manager.locked_codes().contains(c)
            == w0.cards.research.manager.locked_codes().contains(c)
    &&& forall|c: u64|
        c != code ==> #[trigger] w.cards.research.manager.available_codes().contains(c)
            == w0.cards.research.manager.available_codes().contains(c)
    &&& (w0.cards.research.manager.locked_codes().contains(code)
        ==> w.cards.research.manager.available_codes().contains(code))
    &&& (w.cards.research.manager.available_codes().contains(code)
        ==> w0.cards.research.manager.available_codes().contains(code)
        || w0.cards.research.manager.locked_codes().contains(code))
}

/// The permanent effect of one finished project on the activism card and on
/// what is unlocked; everything else keeps its value.
pub open spec fn project_effect(p: Project, w0: World, w: World) -> bool {
    &&& w.cards.activism.flyer_effectiveness@ == (match p {
        Project::BetterGuidelines1 => effectiveness_1(),
        Project::BetterGuidelines2 => effectiveness_2(),
        _ => w0.cards.activism.flyer_effectiveness@,
    })
    &&& w.cards.activism.flyer_persuasiveness@ == (match p {
        Project::CatchierFlyer1 => persuasiveness_1(),
        _ => w0.cards.activism.flyer_persuasiveness@,
    })
    &&& w.cards.activism.has_recycling == (p == Project::Recycling
        || w0.cards.activism.has_recycling)
    &&& (p == Project::BetterGuidelines1 ==> unlocks_exactly(1u64, w0, w))
    &&& (p == Project::CatchierFlyer1 ==> unlocks_exactly(0u64, w0, w))
    &&& ((p == Project::BetterGuidelines2 || p == Project::Recycling)
        ==> w.cards.research.manager.locked_codes()
        == w0.cards.research.manager.locked_codes() && w.cards.research.manager.available_codes()
        == w0.cards.research.manager.available_codes())
    &&& w.cards.research.manager.finished_codes() == w0.cards.research.manager.finished_codes()
    &&& w.cards.research.manager.spec_active() == w0.cards.research.manager.spec_active()
    &&& w.cards.activism.emission_balance == w0.cards.activism.emission_balance
    &&& w.cards.activism.flyer == w0.cards.activism.flyer
    &&& w.cards.activism.total_number_of_flyers == w0.cards.activism.total_number_of_flyers
    &&& w.cards.activism.supporting_people == w0.cards.activism.supporting_people
    &&& w.cards.activism.unsupporting_people == w0.cards.activism.unsupporting_people
    &&& w.cards.activism.save_rate_from_flyers == w0.cards.activism.save_rate_from_flyers
    &&& w.cards.activism.next_unlock_people == w0.cards.activism.next_unlock_people
    &&& w.cards.activism.next_next_unlock_people == w0.cards.activism.next_next_unlock_people
    &&& w.cards.activism.flyer_print_cost == w0.cards.activism.flyer_print_cost
    &&& w.cards.activism.maximal_emission_deficit == w0.cards.activism.maximal_emission_deficit
    &&& w.cards.activism.stage == w0.cards.activism.stage
    &&& w.cards.research.discovered == w0.cards.research.discovered
    &&& w.cards.research.rate_per_researcher == w0.cards.research.rate_per_researcher
    &&& w.cards.research.manual_research_per_click == w0.cards.research.manual_research_per_click
    &&& w.cards.staff == w0.cards.staff
    &&& w.cards.milestones == w0.cards.milestones
    &&& w.cards.selected == w0.cards.selected
    &&& w.messages == w0.messages
    &&& w.total_ticks == w0.total_ticks
}

/// Appending a fresh element keeps a sequence duplicate-free, and the new
/// sequence holds exactly the old elements and the new one.
proof fn lemma_push_fresh(s: Seq<u64>, x: u64)
    requires
        s.no_duplicates(),
        !s.contains(x),
    ensures
        s.push(x).no_duplicates(),
        forall|c: u64| #[trigger] s.push(x).contains(c) == (s.contains(c) || c == x),
{
    let t = s.push(x);
    assert forall|c: u64| #[trigger] t.contains(c) implies (s.contains(c) || c == x) by {
        let j = choose|j: int| 0 <= j < t.len() && t[j] == c;
        if j < s.len() {
            assert(s[j] == c);
        }
    }
    assert forall|c: u64| (s.contains(c) || c == x) implies #[trigger] t.contains(c) by {
        if s.contains(c) {
            let j = choose|j: int| 0 <= j < s.len() && s[j] == c;
            assert(t[j] == c);
        } else {
            assert(t[s.len() as int] == c);
        }
    }
    assert forall|j: int, k: int| 0 <= j < k < t.len() implies t[j] != t[k] by {
        if k == s.len() as int {
            assert(t[j] == s[j]);
            if t[j] == x {
                assert(s.contains(x));
            }
        }
    }
    assert(t.no_duplicates()) by {
        assert(forall|j: int, k: int| 0 <= j < k < t.len() ==> t[j] != t[k]);
    }
}

/// The research rate of `w`, in residual steps of progress per tick: the
/// per-researcher rate times the whole number of researchers.
pub open spec fn spec_research_rate(w: World) -> int {
    w.cards.research.rate_per_researcher@ * (w.cards.staff.researcher@ / GRANULARITY as int)
}

/// Machine headroom for one research simulation step.
pub open spec fn research_sim_fits(w: World, delta: Duration) -> bool {
    &&& spec_research_rate(w) <= max_total()
    &&& spec_research_rate(w) * delta@ <= max_total()
    &&& w.cards.research.manager.spec_active() matches Some(pq) ==> pq.1@ + spec_research_rate(
        w,
    ) * delta@ <= max_total()
}

/// What one manager simulation step does. With no active project nothing
/// happens. Otherwise the research rate is integrated over `delta` into the
/// progress; the project completes exactly when the progress reaches its
/// cost, and completion applies the project's effect, files it as finished
/// and announces it.
pub open spec fn research_manager_sim_post(w0: World, w: World, delta: Duration) -> bool {
    match w0.cards.research.manager.spec_active() {
        None => w == w0,
        Some(pq) => {
            let progress = pq.1@ + spec_research_rate(w0) * delta@;
            if progress < pq.0.spec_cost() {
                &&& (w.cards.research.manager.spec_active() matches Some(pq2) && pq2.0 == pq.0
                    && pq2.1@ == progress)
                &&& w.cards.research.manager.locked_codes()
                    == w0.cards.research.manager.locked_codes()
                &&& w.cards.research.manager.available_codes()
                    == w0.cards.research.manager.available_codes()
                &&& w.cards.research.manager.finished_codes()
                    == w0.cards.research.manager.finished_codes()
                &&& w.cards.research.discovered == w0.cards.research.discovered
                &&& w.cards.research.rate_per_researcher == w0.cards.research.rate_per_researcher
                &&& w.cards.research.manual_research_per_click
                    == w0.cards.research.manual_research_per_click
                &&& w.cards.activism == w0.cards.activism
                &&& w.cards.staff == w0.cards.staff
                &&& w.cards.milestones == w0.cards.milestones
                &&& w.cards.selected == w0.cards.selected
                &&& w.messages == w0.messages
                &&& w.total_ticks == w0.total_ticks
            } else {
                &&& w.cards.research.manager.spec_active() is None
                &&& w.cards.research.manager.finished_codes()
                    == w0.cards.research.manager.finished_codes().push(pq.0.spec_code())
                &&& finish_effect(pq.0, w0, w)
                &&& w.cards.research.discovered == w0.cards.research.discovered
                &&& w.messages.pending().len() == w0.messages.pending().len() + 1
                &&& w.messages.pending().drop_last() =~= w0.messages.pending()
                &&& w.messages.pending().last().spec_text() =~= "Finished research: "@
                    + pq.0.spec_name()
                &&& w.messages.pending().last().spec_duration() == 5
                    * crate::duration::TICKS_PER_SECOND
                &&& w.messages.shown_for() == w0.messages.shown_for()
                &&& w.total_ticks == w0.total_ticks
            }
        },
    }
}

/// Like [`project_effect`], for the completion step: the same activism
/// changes and unlocks, with the manager's finished set and the message
/// queue described separately.
pub open spec fn finish_effect(p: Project, w0: World, w: World) -> bool {
    &&& w.cards.activism.flyer_effectiveness@ == (match p {
        Project::BetterGuidelines1 => effectiveness_1(),
        Project::BetterGuidelines2 => effectiveness_2(),
        _ => w0.cards.activism.flyer_effectiveness@,
    })
    &&& w.cards.activism.flyer_persuasiveness@ == (match p {
        Project::CatchierFlyer1 => persuasiveness_1(),
        _ => w0.cards.activism.flyer_persuasiveness@,
    })
    &&& w.cards.activism.has_recycling == (p == Project::Recycling
        || w0.cards.activism.has_recycling)
    &&& (p == Project::BetterGuidelines1 ==> unlocks_exactly(1u64, w0, w))
    &&& (p == Project::CatchierFlyer1 ==> unlocks_exactly(0u64, w0, w))
    &&& ((p == Project::BetterGuidelines2 || p == Project::Recycling)
        ==> w.cards.research.manager.locked_codes()
        == w0.cards.research.manager.locked_codes() && w.cards.research.manager.available_codes()
        == w0.cards.research.manager.available_codes())
    &&& w.cards.activism.emission_balance == w0.cards.activism.emission_balance
    &&& w.cards.activism.flyer == w0.cards.activism.flyer
    &&& w.cards.activism.total_number_of_flyers == w0.cards.activism.total_number_of_flyers
    &&& w.cards.activism.supporting_people == w0.cards.activism.supporting_people
    &&& w.cards.activism.unsupporting_people == w0.cards.activism.unsupporting_people
    &&& w.cards.activism.save_rate_from_flyers == w0.cards.activism.save_rate_from_flyers
    &&& w.cards.activism.next_unlock_people == w0.cards.activism.next_unlock_people
    &&& w.cards.activism.next_next_unlock_people == w0.cards.activism.next_next_unlock_people
    &&& w.cards.activism.flyer_print_cost == w0.cards.activism.flyer_print_cost
    &&& w.cards.activism.maximal_emission_deficit == w0.cards.activism.maximal_emission_deficit
    &&& w.cards.activism.stage == w0.cards.activism.stage
    &&& w.cards.research.rate_per_researcher == w0.cards.research.rate_per_researcher
    &&& w.cards.research.manual_research_per_click == w0.cards.research.manual_research_per_click
    &&& w.cards.staff == w0.cards.staff
    &&& w.cards.milestones == w0.cards.milestones
    &&& w.cards.selected == w0.cards.selected
}

impl World {
    /// The combined research rate of all researchers.
    pub fn research_rate(&self) -> (r: Rate<ResearchPoints>)
        requires
            self.cards.research.wf(),
            self.cards.staff.wf(),
            spec_research_rate(*self) <= max_total(),
        ensures
            r.wf(),
            r@ == spec_research_rate(*self),
    {
        self.cards.research.rate_per_researcher.mul_scalar(
            self.cards.staff.researcher.whole_amount(),
        )
    }

    /// One simulation step of the project under research, if any.
    pub fn simulate_research_manager(&mut self, delta: Duration)
        requires
            old(self).wf(),
            research_sim_fits(*old(self), delta),
        ensures
            final(self).wf(),
            research_manager_sim_post(*old(self), *final(self), delta),
    {
        let active = self.cards.research.manager.active;
        match active {
            None => {},
            Some((project, progress)) => {
                let rate = self.research_rate();
                let gained = rate.per(delta);
                let mut new_progress = progress;
                new_progress.add_assign(gained);
                if project.cost().le(&new_progress) {
                    self.cards.research.manager.active = None;
                    project.apply(self);
                    let code = project.code();
                    let ghost fin0 = self.cards.research.manager.finished_codes();
                    proof {
                        lemma_push_fresh(fin0, code as u64);
                        if project == Project::BetterGuidelines1 {
                            if fin0.contains(1u64) {
                                assert(fin0.contains(0u64));
                            }
                        }
                        if project == Project::CatchierFlyer1 {
                            if fin0.contains(0u64) {
                                assert(fin0.contains(2u64));
                            }
                        }
                    }
                    let _ = iset_insert(&mut self.cards.research.manager.finished, code);
                    let mut text = String::from_str("Finished research: ");
                    text.append(project.name().as_str());
                    self.messages.queue(Message::new(text, standard_message_duration()));
                } else {
                    self.cards.research.manager.active = Some((project, new_progress));
                }
            },
        }
    }
}

/// What one research-card step does: the card appears as soon as the first
/// researcher exists (announced once), then the active project advances as
/// [`research_manager_sim_post`] says.
pub open spec fn research_card_post(w0: World, w: World, delta: Duration) -> bool {
    let disc = !w0.cards.research.discovered && w0.cards.staff.researcher@ > 0;
    let n0 = w0.messages.pending().len() as int;
    &&& w.cards.research.discovered == (w0.cards.research.discovered
        || w0.cards.staff.researcher@ > 0)
    &&& forall|i: int| 0 <= i < n0 ==> w.messages.pending()[i] == w0.messages.pending()[i]
    &&& w.messages.shown_for() == w0.messages.shown_for()
    &&& (disc ==> w.messages.pending()[n0].spec_text() == "Research unlocked."@)
    &&& w.cards.research.rate_per_researcher == w0.cards.research.rate_per_researcher
    &&& w.total_ticks == w0.total_ticks
    &&& match w0.cards.research.manager.spec_active() {
        None => {
            &&& w.cards.research.manager == w0.cards.research.manager
            &&& w.cards.research.manual_research_per_click
                == w0.cards.research.manual_research_per_click
            &&& w.cards.activism == w0.cards.activism
            &&& w.cards.staff == w0.cards.staff
            &&& w.cards.milestones == w0.cards.milestones
            &&& w.cards.selected == w0.cards.selected
            &&& w.messages.pending().len() == n0 + (if disc {
                1int
            } else {
                0
            })
        },
        Some(pq) => {
            let progress = pq.1@ + spec_research_rate(w0) * delta@;
            if progress < pq.0.spec_cost() {
                &&& (w.cards.research.manager.spec_active() matches Some(pq2) && pq2.0 == pq.0
                    && pq2.1@ == progress)
                &&& w.cards.research.manager.locked_codes()
                    == w0.cards.research.manager.locked_codes()
                &&& w.cards.research.manager.available_codes()
                    == w0.cards.research.manager.available_codes()
                &&& w.cards.research.manager.finished_codes()
                    == w0.cards.research.manager.finished_codes()
                &&& w.cards.research.manual_research_per_click
                    == w0.cards.research.manual_research_per_click
                &&& w.cards.activism == w0.cards.activism
                &&& w.cards.staff == w0.cards.staff
                &&& w.cards.milestones == w0.cards.milestones
                &&& w.cards.selected == w0.cards.selected
                &&& w.messages.pending().len() == n0 + (if disc {
                    1int
                } else {
                    0
                })
            } else {
                &&& w.cards.research.manager.spec_active() is None
                &&& w.cards.research.manager.finished_codes()
                    == w0.cards.research.manager.finished_codes().push(pq.0.spec_code())
                &&& finish_effect(pq.0, w0, w)
                &&& w.messages.pending().len() == n0 + (if disc {
                    2int
                } else {
                    1
                })
                &&& w.messages.pending().last().spec_text() =~= "Finished research: "@
                    + pq.0.spec_name()
            }
        },
    }
}

impl World {
    /// One simulation step of the research card: discovery, then the active
    /// project.
    pub fn simulate_card_research(&mut self, delta: Duration)
        requires
            old(self).wf(),
            research_sim_fits(*old(self), delta),
        ensures
            final(self).wf(),
            research_card_post(*old(self), *final(self), delta),
    {
        let any_researcher = {
            let zero = Quantity::new(0);
            zero.lt(&self.cards.staff.researcher)
        };
        if !self.cards.research.discovered && any_researcher {
            self.cards.research.discovered = true;
            self.messages.queue(
                Message::new(
                    String::from_str("Research unlocked."),
                    standard_message_duration(),
                ),
            );
        }
        let ghost mid = *self;
        self.simulate_research_manager(delta);
        proof {
            let q0 = old(self).messages.pending();
            let q1 = mid.messages.pending();
            let q2 = self.messages.pending();
            assert forall|i: int| 0 <= i < q0.len() implies q2[i] == q0[i] by {
                assert(q1[i] == q0[i]);
            }
            if !old(self).cards.research.discovered && old(self).cards.staff.researcher@ > 0 {
                assert(q1[q0.len() as int].spec_text() == "Research unlocked."@);
                assert(q2[q0.len() as int] == q1[q0.len() as int]);
            }
        }
    }
}

impl World {
    /// Starts researching the available project at position `index` of the
    /// menu, if nothing is under research and the position exists.
    pub fn activate_project_action(&mut self, index: usize) -> (started: bool)
        requires
            old(self).wf(),
        ensures
            final(self).wf(),
            started == (old(self).cards.research.manager.spec_active() is None && index < old(
                self,
            ).cards.research.manager.available_codes().len()),
            !started ==> *final(self) == *old(self),
            started ==> {
                &&& (final(self).cards.research.manager.spec_active() matches Some(pq)
                    && pq.0.spec_code() == old(self).cards.research.manager.available_codes()[
                index as int] && pq.1@ == 0)
                &&& !final(self).cards.research.manager.available_codes().contains(
                    old(self).cards.research.manager.available_codes()[index as int],
                )
                &&& final(self).cards.research.manager.locked_codes() == old(
                    self,
                ).cards.research.manager.locked_codes()
                &&& final(self).cards.research.manager.finished_codes() == old(
                    self,
                ).cards.research.manager.finished_codes()
                &&& final(self).cards.activism == old(self).cards.activism
                &&& final(self).messages == old(self).messages
            },
    {
        let is_idle = self.cards.research.manager.active().is_none();
        if !is_idle {
            return false;
        }
        let n = iset_len(&self.cards.research.manager.available);
        if index >= n {
            return false;
        }
        let code = match iset_get_index(&self.cards.research.manager.available, index) {
            Some(c) => c,
            None => {
                proof {
                    assert(false);
                }
                0
            },
        };
        proof {
            assert(self.cards.research.manager.available_codes().contains(
                self.cards.research.manager.available_codes()[index as int],
            ));
        }
        let project = match Project::from_code(code) {
            Some(p) => p,
            None => {
                proof {
                    assert(false);
                }
                Project::CatchierFlyer1
            },
        };
        self.cards.research.manager.activate(project);
        true
    }

    /// One manual research action: adds the manual amount to the running
    /// project's progress, when a project runs and the machine's integers
    /// allow it.
    pub fn manual_research_action(&mut self) -> (applied: bool)
        requires
            old(self).wf(),
        ensures
            final(self).wf(),
            applied == (old(self).cards.research.manager.spec_active() matches Some(pq) && pq.1@
                + old(self).cards.research.manual_research_per_click@ <= u128::MAX),
            !applied ==> *final(self) == *old(self),
            applied ==> {
                &&& (final(self).cards.research.manager.spec_active() matches Some(pq2)
                    && old(self).cards.research.manager.spec_active() matches Some(pq)
                    && pq2.0 == pq.0 && pq2.1@ == pq.1@ + old(
                    self,
                ).cards.research.manual_research_per_click@)
                &&& final(self).cards.research.manager.locked_codes() == old(
                    self,
                ).cards.research.manager.locked_codes()
                &&& final(self).cards.research.manager.available_codes() == old(
                    self,
                ).cards.research.manager.available_codes()
                &&& final(self).cards.research.manager.finished_codes() == old(
                    self,
                ).cards.research.manager.finished_codes()
                &&& final(self).cards.activism == old(self).cards.activism
                &&& final(self).messages == old(self).messages
            },
    {
        proof {
            crate::quantity::lemma_quantity_view_bounds(
                self.cards.research.manual_research_per_click,
            );
            match self.cards.research.manager.spec_active() {
                Some(pq) => {
                    crate::quantity::lemma_quantity_view_bounds(pq.1);
                },
                None => {},
            }
        }
        let active = self.cards.research.manager.active;
        match active {
            None => false,
            Some((project, progress)) => {
                let pt = match progress.try_total_steps() {
                    Some(x) => x,
                    None => { return false },
                };
                let mt = match self.cards.research.manual_research_per_click.try_total_steps() {
                    Some(x) => x,
                    None => { return false },
                };
                if pt <= u128::MAX - mt {
                    let mut advanced = progress;
                    advanced.add_assign(self.cards.research.manual_research_per_click);
                    self.cards.research.manager.active = Some((project, advanced));
                    true
                } else {
                    false
                }
            },
        }
    }
}

/// A whole-unit total is exactly divisible by the ticks of a year, because
/// `GRANULARITY` is `4200 * TICKS_PER_YEAR`.
proof fn lemma_granularity_per_year(amount: int)
    requires
        0 <= amount <= 1_000_000_000,
    ensures
        (amount * GRANULARITY) % (TICKS_PER_YEAR as int) == 0,
        (amount * GRANULARITY) % (TICKS_PER_YEAR * GRANULARITY) <= u128::MAX,
        amount * GRANULARITY <= max_total(),
{
    let g = GRANULARITY as int;
    let y = TICKS_PER_YEAR as int;
    assert(g == 4200 * y);
    assert((amount * g) % y == 0 && (amount * g) % (y * g) <= u128::MAX && amount * g
        <= max_total()) by (nonlinear_arith)
        requires
            g == 4200 * y,
            0 < y,
            0 <= amount <= 1_000_000_000,
            g == GRANULARITY,
            y == TICKS_PER_YEAR,
            max_total() == u128::MAX * GRANULARITY + (GRANULARITY - 1),
    ;
}

} // verus!
