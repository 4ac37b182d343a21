//! A two-sided ledger for one unit.
//!
//! A [`Balance`] holds lifetime credits and lifetime debits as two
//! independent accumulators that only ever grow; the signed net is computed
//! on demand and never stored. This mirrors "lifetime emitted versus
//! lifetime saved" semantics rather than a live spendable account.

use vstd::prelude::*;

use crate::duration::GRANULARITY;

use super::{Quantity, QuantityType, SignedQuantity};

verus! {

/// Two monotonically growing accumulators: `pos` for credits, `neg` for
/// debits.
#[derive(Clone, Copy, Debug)]
pub struct Balance<Q: QuantityType> {
    pos: Quantity<Q>,
    neg: Quantity<Q>,
}

impl<Q: QuantityType> Balance<Q> {
    /// The lifetime credit accumulator, as a value.
    pub closed spec fn credit_part(self) -> Quantity<Q> {
        self.pos
    }

    /// The lifetime debit accumulator, as a value.
    pub closed spec fn debit_part(self) -> Quantity<Q> {
        self.neg
    }

    pub open spec fn wf(self) -> bool {
        self.credit_part().wf() && self.debit_part().wf()
    }

    /// The signed net of the ledger, `credits - debits`, recomputed fresh on
    /// every call. The sign is non-negative exactly when the debits do not
    /// exceed the credits.
    pub fn balance(&self) -> (r: SignedQuantity<Q>)
        requires
            self.wf(),
        ensures
            r.wf(),
            r@ == self.credit_part()@ - self.debit_part()@,
    {
        SignedQuantity::of_difference(&self.pos, &self.neg)
    }

    /// The lifetime credits.
    pub fn pos(&self) -> (r: &Quantity<Q>)
        ensures
            *r == self.credit_part(),
    {
        &self.pos
    }

    /// The lifetime debits.
    pub fn neg(&self) -> (r: &Quantity<Q>)
        ensures
            *r == self.debit_part(),
    {
        &self.neg
    }

    /// Mutable access to the credit accumulator, for posting credits.
    pub fn pos_mut(&mut self) -> (r: &mut Quantity<Q>)
        ensures
            *r == old(self).credit_part(),
            final(self).credit_part() == *final(r),
            final(self).debit_part() == old(self).debit_part(),
    {
        &mut self.pos
    }

    /// Mutable access to the debit accumulator, for posting costs charged
    /// against the ledger.
    pub fn neg_mut(&mut self) -> (r: &mut Quantity<Q>)
        ensures
            *r == old(self).debit_part(),
            final(self).debit_part() == *final(r),
            final(self).credit_part() == old(self).credit_part(),
    {
        &mut self.neg
    }

    /// Whether the net balance reaches `arg` whole units: the threshold
    /// check progression gating uses. Works directly on the accumulators,
    /// borrowing one whole unit where the debit residual overhangs.
    pub fn is_at_least(&self, arg: u128) -> (r: bool)
        requires
            self.wf(),
        ensures
            r == (self.credit_part()@ - self.debit_part()@ >= arg * GRANULARITY),
    {
        let spillover: u128 = if self.pos.residual < self.neg.residual {
            1
        } else {
            0
        };
        let needed = match self.neg.amount.checked_add(spillover) {
            Some(x) => match x.checked_add(arg) {
                Some(y) => y,
                None => {
                    proof {
                        lemma_threshold(
                            self.pos.amount as int,
                            self.pos.residual as int,
                            self.neg.amount as int,
                            self.neg.residual as int,
                            arg as int,
                        );
                    }
                    return false;
                },
            },
            None => {
                proof {
                    lemma_threshold(
                        self.pos.amount as int,
                        self.pos.residual as int,
                        self.neg.amount as int,
                        self.neg.residual as int,
                        arg as int,
                    );
                }
                return false;
            },
        };
        proof {
            lemma_threshold(
                self.pos.amount as int,
                self.pos.residual as int,
                self.neg.amount as int,
                self.neg.residual as int,
                arg as int,
            );
        }
        needed <= self.pos.amount
    }

    /// A ledger with both accumulators at zero.
    pub fn new() -> (b: Balance<Q>)
        ensures
            b.wf(),
            b.credit_part()@ == 0,
            b.debit_part()@ == 0,
    {
        Balance { pos: Quantity::new(0), neg: Quantity::new(0) }
    }
}

/// The accumulator-level threshold test equals the mathematical one: the
/// net reaches `arg` whole units exactly when the debit's whole part, plus
/// one borrowed unit where the debit residual overhangs, plus `arg`, stays
/// within the credit's whole part.
proof fn lemma_threshold(pa: int, pr: int, na: int, nr: int, arg: int)
    requires
        0 <= pa,
        0 <= pr < GRANULARITY,
        0 <= na,
        0 <= nr < GRANULARITY,
        0 <= arg,
    ensures
        ((pa * GRANULARITY + pr) - (na * GRANULARITY + nr) >= arg * GRANULARITY) == (na + (if pr
            < nr {
            1int
        } else {
            0int
        }) + arg <= pa),
{
    let g = GRANULARITY as int;
    if pr < nr {
        assert(((pa * g + pr) - (na * g + nr) >= arg * g) == (na + 1 + arg <= pa))
            by (nonlinear_arith)
            requires
                0 <= pr < nr < g,
                0 <= pa,
                0 <= na,
                0 <= arg,
                0 < g,
        ;
    } else {
        assert(((pa * g + pr) - (na * g + nr) >= arg * g) == (na + arg <= pa))
            by (nonlinear_arith)
            requires
                0 <= nr <= pr < g,
                0 <= pa,
                0 <= na,
                0 <= arg,
                0 < g,
        ;
    }
}

} // verus!
