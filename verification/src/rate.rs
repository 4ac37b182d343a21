//! Per-tick change rates.
//!
//! A [`Rate`] is the quantity added in one tick. It is built by dividing a
//! quantity exactly by a duration's tick count, so integration over any
//! duration — one multiplication — is exact. Summing many irregular time
//! slices and integrating each gives exactly the total of integrating the
//! summed slice: frame-timing jitter can never cause drift.

use vstd::arithmetic::div_mod::lemma_fundamental_div_mod;
use vstd::prelude::*;
use vstd::string::StringExecFns;

use crate::decimal::{max_total_displays, quantity_decimal};
use crate::duration::{Duration, GRANULARITY, TICKS_PER_SECOND};
use crate::quantity::{max_total, Quantity, QuantityType};

verus! {

/// A per-tick delta of the unit `Q`.
#[derive(Clone, Copy, Debug)]
pub struct Rate<Q: QuantityType> {
    difference_per_tick: Quantity<Q>,
}

impl<Q: QuantityType> View for Rate<Q> {
    type V = int;

    /// The residual steps added per tick.
    closed spec fn view(&self) -> int {
        self.difference_per_tick@
    }
}

impl<Q: QuantityType> Rate<Q> {
    pub closed spec fn wf(self) -> bool {
        self.difference_per_tick.wf()
    }

    /// The rate at which nothing accrues.
    pub fn zero() -> (r: Rate<Q>)
        ensures
            r.wf(),
            r@ == 0,
    {
        Rate { difference_per_tick: Quantity::new(0) }
    }

    /// The rate that accrues `increase` over `duration`, spread exactly.
    ///
    /// Rates are only ever built from quantities and durations chosen so the
    /// division is exact; an inexact pair is a contract violation in the
    /// caller.
    pub fn new(increase: Quantity<Q>, duration: Duration) -> (r: Rate<Q>)
        requires
            increase.wf(),
            duration@ != 0,
            increase@ % duration@ == 0,
            increase@ % (duration@ * GRANULARITY) <= u128::MAX,
        ensures
            r.wf(),
            r@ == increase@ / duration@,
    {
        Rate { difference_per_tick: increase.divide_exactly(duration.ticks()) }
    }

    /// The quantity accrued over `duration`: the single integration
    /// primitive.
    pub fn per(self, duration: Duration) -> (q: Quantity<Q>)
        requires
            self.wf(),
            self@ * duration@ <= max_total(),
        ensures
            q.wf(),
            q@ == self@ * duration@,
    {
        self.difference_per_tick.mul_scalar(duration.ticks())
    }

    /// Adds the rate of an independent cause into `self`: superposition.
    pub fn add_assign(&mut self, rhs: Rate<Q>)
        requires
            old(self).wf(),
            rhs.wf(),
            old(self)@ + rhs@ <= max_total(),
        ensures
            final(self).wf(),
            final(self)@ == old(self)@ + rhs@,
    {
        self.difference_per_tick.add_assign(rhs.difference_per_tick);
    }

    /// The combined rate of two independent causes.
    pub fn add(self, rhs: Rate<Q>) -> (r: Rate<Q>)
        requires
            self.wf(),
            rhs.wf(),
            self@ + rhs@ <= max_total(),
        ensures
            r.wf(),
            r@ == self@ + rhs@,
    {
        let mut sum = self;
        sum.add_assign(rhs);
        sum
    }

    /// The rate of `rhs` identical independent contributors.
    pub fn mul_scalar(self, rhs: u128) -> (r: Rate<Q>)
        requires
            self.wf(),
            self@ * rhs <= max_total(),
        ensures
            r.wf(),
            r@ == self@ * rhs,
    {
        Rate { difference_per_tick: self.difference_per_tick.mul_scalar(rhs) }
    }

    /// The rate displayed as an amount per second.
    pub fn stringify(&self, accuracy: usize) -> (s: String)
        requires
            self.wf(),
            self@ * TICKS_PER_SECOND <= max_total(),
            max_total_displays(self@ * TICKS_PER_SECOND, accuracy as nat),
        ensures
            s@ == quantity_decimal(self@ * TICKS_PER_SECOND, accuracy as nat)
                + Q::spec_suffix() + seq!['/', 's'],
    {
        proof {
            reveal_strlit("/s");
            assert("/s"@ =~= seq!['/', 's']);
        }
        let per_second = self.per(Duration::second());
        let s = per_second.stringify(accuracy).concat("/s");
        proof {
            assert(s@ =~= quantity_decimal(self@ * TICKS_PER_SECOND, accuracy as nat)
                + Q::spec_suffix() + seq!['/', 's']);
        }
        s
    }
}

impl<Q: QuantityType> Rate<Q> {
    /// The per-second display as [`Self::stringify`], or `None` where the
    /// rate is too large for the requested precision.
    pub fn stringify_checked(&self, accuracy: usize) -> (r: Option<String>)
        requires
            self.wf(),
        ensures
            match r {
                Some(s) => s@ == quantity_decimal(self@ * TICKS_PER_SECOND, accuracy as nat)
                    + Q::spec_suffix() + seq!['/', 's'],
                None => self@ * TICKS_PER_SECOND > u128::MAX || !max_total_displays(
                    self@ * TICKS_PER_SECOND,
                    accuracy as nat,
                ),
            },
    {
        let steps = match self.try_rate_steps() {
            Some(x) => x,
            None => {
                proof {
                    assert(self@ * TICKS_PER_SECOND > u128::MAX) by (nonlinear_arith)
                        requires
                            self@ > u128::MAX,
                            TICKS_PER_SECOND >= 1,
                    ;
                }
                return None;
            },
        };
        if steps.checked_mul(TICKS_PER_SECOND).is_none() {
            return None;
        }
        proof {
            assert(u128::MAX <= max_total()) by (nonlinear_arith)
                requires
                    max_total() == u128::MAX * GRANULARITY + (GRANULARITY - 1),
                    GRANULARITY >= 1,
            ;
        }
        let per_second = self.per(Duration::second());
        match per_second.stringify_checked(accuracy) {
            Some(s) => {
                proof {
                    reveal_strlit("/s");
                    assert("/s"@ =~= seq!['/', 's']);
                }
                let out = s.concat("/s");
                proof {
                    assert(out@ =~= quantity_decimal(self@ * TICKS_PER_SECOND, accuracy as nat)
                        + Q::spec_suffix() + seq!['/', 's']);
                }
                Some(out)
            },
            None => None,
        }
    }
}

/// A rate's per-tick total is never negative, and a well-formed one never
/// exceeds the largest representable total.
pub broadcast proof fn lemma_rate_view_bounds<Q: QuantityType>(r: Rate<Q>)
    ensures
        0 <= #[trigger] r@,
        r.wf() ==> r@ <= max_total(),
{
    crate::quantity::lemma_quantity_view_bounds(r.difference_per_tick);
}

impl Duration {
    /// An estimate of how long `quantity` takes to accrue at `rate`,
    /// rounded up: the reported wait is never understated.
    pub fn from_quantity_and_rate_approximation<Q: QuantityType>(
        quantity: Quantity<Q>,
        rate: Rate<Q>,
    ) -> (d: Duration)
        requires
            quantity.wf(),
            rate.wf(),
            rate@ > 0,
            quantity@ <= u128::MAX,
            rate@ <= u128::MAX,
        ensures
            d@ * rate@ >= quantity@,
            (d@ - 1) * rate@ < quantity@,
    {
        let steps = quantity.total_steps();
        let per_tick = rate.rate_steps();
        let whole: u128 = steps / per_tick;
        let rem: u128 = steps % per_tick;
        proof {
            lemma_fundamental_div_mod(steps as int, per_tick as int);
            lemma_eta_rounds_up(steps as int, per_tick as int);
        }
        if rem == 0 {
            Duration::from_ticks(whole)
        } else {
            proof {
                assert(whole < u128::MAX) by (nonlinear_arith)
                    requires
                        steps == per_tick * (whole as int) + rem,
                        0 < rem < per_tick,
                        steps <= u128::MAX,
                        0 <= whole,
                ;
            }
            Duration::from_ticks(whole + 1)
        }
    }
}

impl<Q: QuantityType> Rate<Q> {
    /// The per-tick total in residual steps if it fits a machine word.
    pub fn try_rate_steps(&self) -> (r: Option<u128>)
        requires
            self.wf(),
        ensures
            match r {
                Some(t) => t == self@ && self@ <= u128::MAX,
                None => self@ > u128::MAX,
            },
    {
        self.difference_per_tick.try_total_steps()
    }

    /// The per-tick total in residual steps, as a machine word.
    fn rate_steps(&self) -> (t: u128)
        requires
            self.wf(),
            self@ <= u128::MAX,
        ensures
            t == self@,
    {
        self.difference_per_tick.total_steps()
    }
}

/// The ceiling division used for estimated waiting times: multiplying the
/// rounded-up quotient by the divisor reaches `steps`, while one tick fewer
/// falls short.
proof fn lemma_eta_rounds_up(steps: int, per_tick: int)
    requires
        0 <= steps,
        0 < per_tick,
    ensures
        steps % per_tick == 0 ==> (steps / per_tick) * per_tick >= steps && ((steps / per_tick)
            - 1) * per_tick < steps,
        steps % per_tick != 0 ==> (steps / per_tick + 1) * per_tick >= steps && (steps
            / per_tick) * per_tick < steps,
{
    lemma_fundamental_div_mod(steps, per_tick);
    let q = steps / per_tick;
    let r = steps % per_tick;
    assert((q * per_tick == steps - r) && ((q - 1) * per_tick == steps - r - per_tick) && ((q + 1)
        * per_tick == steps - r + per_tick)) by (nonlinear_arith)
        requires
            steps == per_tick * q + r,
    ;
}

/// Building a rate from an exactly divisible quantity and integrating it
/// back over the same duration restores the quantity: whenever `d` divides
/// the total of `q` exactly, `Rate::new(q, d).per(d) == q`. The premises are
/// exactly the contracts of `Rate::new` and `Rate::per`.
pub proof fn lemma_rate_round_trip<Q: QuantityType>(
    q: Quantity<Q>,
    r: Rate<Q>,
    p: Quantity<Q>,
    d: Duration,
)
    requires
        q.wf(),
        d@ != 0,
        q@ % d@ == 0,
        r.wf(),
        r@ == q@ / d@,
        p.wf(),
        p@ == r@ * d@,
    ensures
        p == q,
{
    lemma_fundamental_div_mod(q@, d@);
    assert((q@ / d@) * d@ == q@) by (nonlinear_arith)
        requires
            q@ == d@ * (q@ / d@) + q@ % d@,
            q@ % d@ == 0,
    ;
    crate::quantity::lemma_view_injective(p, q);
}

/// Integration is additive: accruing a rate over two durations one after the
/// other gives exactly the integral over their sum, `r.per(d1 + d2) ==
/// r.per(d1).add(r.per(d2))`. This is why irregular frame timing can never
/// change a total. The premises are exactly the contracts of `Duration::add`,
/// `Rate::per` and `Quantity::add`.
pub proof fn lemma_integration_additive<Q: QuantityType>(
    r: Rate<Q>,
    d1: Duration,
    d2: Duration,
    whole: Quantity<Q>,
    part1: Quantity<Q>,
    part2: Quantity<Q>,
    parts: Quantity<Q>,
)
    requires
        r.wf(),
        whole.wf(),
        whole@ == r@ * (d1@ + d2@),
        part1.wf(),
        part1@ == r@ * d1@,
        part2.wf(),
        part2@ == r@ * d2@,
        parts.wf(),
        parts@ == part1@ + part2@,
    ensures
        whole == parts,
{
    assert(r@ * (d1@ + d2@) == r@ * d1@ + r@ * d2@) by (nonlinear_arith);
    crate::quantity::lemma_view_injective(whole, parts);
}

} // verus!
