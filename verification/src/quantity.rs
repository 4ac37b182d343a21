//! Exact, non-negative fixed-point quantities tagged by a unit marker.
//!
//! A [`Quantity`] is a pair of a whole `amount` and a sub-unit `residual`,
//! with `residual < GRANULARITY` as invariant. Its mathematical value is
//! `amount + residual / GRANULARITY`; contracts speak of the total measured
//! in residual steps, `amount * GRANULARITY + residual`, which is what the
//! view returns. All arithmetic is exact: nothing is ever rounded away.

use vstd::arithmetic::div_mod::{
    lemma_fundamental_div_mod, lemma_fundamental_div_mod_converse,
};
use vstd::prelude::*;

use vstd::string::StringExecFns;

use crate::decimal::{max_total_displays, pow10, quantity_decimal, quantity_string};
use crate::duration::GRANULARITY;

pub mod balance;
pub mod types;

verus! {

/// The largest total (in residual steps) a quantity can hold.
pub open spec fn max_total() -> int {
    u128::MAX * GRANULARITY + (GRANULARITY - 1)
}

/// Relies on `PhantomData`'s `Clone`: cloning the zero-sized marker yields
/// the marker itself. vstd gives this std impl no specification of its own.
pub assume_specification<T: core::marker::PointeeSized>[ <core::marker::PhantomData<T> as Clone>::clone ](
    m: &core::marker::PhantomData<T>,
) -> (r: core::marker::PhantomData<T>)
    ensures
        r == *m,
;

/// A zero-sized marker distinguishing what a quantity counts.
///
/// The marker is resolved at compile time, so quantities of different units
/// can never be mixed; its only runtime job is the display suffix.
pub trait QuantityType: Copy {
    /// The suffix appended to a formatted amount of this unit.
    spec fn spec_suffix() -> Seq<char>;

    /// The suffix appended to a formatted amount of this unit.
    fn suffix() -> (s: &'static str)
        ensures
            s@ == Self::spec_suffix(),
    ;
}

/// An exact, non-negative fixed-point scalar of the unit `Q`.
#[derive(Clone, Copy, Debug)]
pub struct Quantity<Q: QuantityType> {
    amount: u128,
    residual: u128,
    unit: core::marker::PhantomData<Q>,
}

impl<Q: QuantityType> View for Quantity<Q> {
    type V = int;

    /// The total value measured in residual steps of `1 / GRANULARITY`.
    closed spec fn view(&self) -> int {
        self.amount * GRANULARITY + self.residual
    }
}

impl<Q: QuantityType> Quantity<Q> {
    /// The representation invariant: the residual never reaches a whole unit.
    pub closed spec fn wf(self) -> bool {
        self.residual < GRANULARITY
    }

    /// `amount` whole units, with no residual.
    pub fn new(amount: u128) -> (q: Quantity<Q>)
        ensures
            q.wf(),
            q@ == amount * GRANULARITY,
    {
        Quantity { amount, residual: 0, unit: core::marker::PhantomData }
    }

    /// The exact rational value `n / d`.
    ///
    /// Only denominators of `GRANULARITY` exist exactly; any other denominator
    /// is a contract violation in the caller.
    pub fn fraction(n: u128, d: u128) -> (q: Quantity<Q>)
        requires
            d != 0,
            GRANULARITY % d == 0,
        ensures
            q.wf(),
            q@ == n * ((GRANULARITY / d) as int),
            q@ * d == n * GRANULARITY,
    {
        proof {
            lemma_fraction_math(n as int, d as int, GRANULARITY as int);
        }
        let full: u128 = n / d;
        let rest: u128 = n % d;
        let per_part: u128 = GRANULARITY / d;
        let residual: u128 = mul_bounded(per_part, rest);
        Quantity { amount: full, residual, unit: core::marker::PhantomData }
    }

    /// The total in residual steps, as a machine word. Only quantities up to
    /// `u128::MAX` residual steps fit.
    pub fn total_steps(&self) -> (t: u128)
        requires
            self.wf(),
            self@ <= u128::MAX,
        ensures
            t == self@,
    {
        self.amount * GRANULARITY + self.residual
    }

    /// The total in residual steps if it fits a machine word, else `None`.
    pub fn try_total_steps(&self) -> (r: Option<u128>)
        requires
            self.wf(),
        ensures
            match r {
                Some(t) => t == self@ && self@ <= u128::MAX,
                None => self@ > u128::MAX,
            },
    {
        proof {
            assert(self.amount <= (u128::MAX - self.residual) / GRANULARITY as int
                <==> self.amount * GRANULARITY + self.residual <= u128::MAX) by (nonlinear_arith)
                requires
                    0 <= self.residual < GRANULARITY,
                    0 <= self.amount,
                    GRANULARITY > 0,
            ;
        }
        if self.amount <= (u128::MAX - self.residual) / GRANULARITY {
            Some(self.amount * GRANULARITY + self.residual)
        } else {
            None
        }
    }

    /// The decimal display of the quantity, truncated towards zero to
    /// `accuracy` digits after the point, followed by the unit's suffix.
    /// Pure integer arithmetic: the shown digits are exact.
    pub fn stringify(&self, accuracy: usize) -> (s: String)
        requires
            self.wf(),
            max_total_displays(self@, accuracy as nat),
        ensures
            s@ == quantity_decimal(self@, accuracy as nat) + Q::spec_suffix(),
    {
        let core = quantity_string(self.amount, self.residual, accuracy);
        core.concat(Q::suffix())
    }

    /// Whether this quantity can be shown with `accuracy` digits without
    /// leaving the machine's integers.
    pub fn can_display(&self, accuracy: usize) -> (r: bool)
        requires
            self.wf(),
        ensures
            r == max_total_displays(self@, accuracy as nat),
    {
        proof {
            crate::decimal::lemma_pow10_pos(accuracy as nat);
        }
        let p = match crate::decimal::try_ten_pow(accuracy) {
            Some(p) => p,
            None => {
                proof {
                    assert(pow10(accuracy as nat) * GRANULARITY > u128::MAX) by (nonlinear_arith)
                        requires
                            pow10(accuracy as nat) > u128::MAX,
                            GRANULARITY >= 1,
                    ;
                }
                return false;
            },
        };
        if p.checked_mul(GRANULARITY).is_none() {
            return false;
        }
        let ap = match self.amount.checked_mul(p) {
            Some(ap) => ap,
            None => {
                proof {
                    lemma_display_overflow(self.amount as int, self.residual as int, p as int);
                }
                return false;
            },
        };
        proof {
            lemma_display_bound(self.amount as int, self.residual as int, p as int);
        }
        let rp: u128 = self.residual * p;
        let q: u128 = rp / GRANULARITY;
        ap.checked_add(q).is_some()
    }

    /// The decimal display as [`Self::stringify`], or `None` where the
    /// value is too large for the requested precision.
    pub fn stringify_checked(&self, accuracy: usize) -> (r: Option<String>)
        requires
            self.wf(),
        ensures
            match r {
                Some(s) => s@ == quantity_decimal(self@, accuracy as nat) + Q::spec_suffix(),
                None => !max_total_displays(self@, accuracy as nat),
            },
    {
        if self.can_display(accuracy) {
            Some(self.stringify(accuracy))
        } else {
            None
        }
    }

    /// The whole part of the quantity; the residual is not rounded up.
    pub fn whole_amount(&self) -> (a: u128)
        requires
            self.wf(),
        ensures
            a * GRANULARITY <= self@,
            self@ < a * GRANULARITY + GRANULARITY,
            a == self@ / GRANULARITY as int,
    {
        proof {
            lemma_fundamental_div_mod_converse(
                self@,
                GRANULARITY as int,
                self.amount as int,
                self.residual as int,
            );
        }
        self.amount
    }
}

impl<Q: QuantityType> Quantity<Q> {
    /// Adds `increase` residual steps, then renormalises so that the residual
    /// stays below one whole unit.
    fn increase_residual(&mut self, increase: u128)
        requires
            old(self).residual + increase <= u128::MAX,
            old(self)@ + increase <= max_total(),
        ensures
            final(self).wf(),
            final(self)@ == old(self)@ + increase,
    {
        let ghost a0 = old(self).amount as int;
        let ghost r0 = old(self).residual as int;
        self.residual += increase;
        let inc: u128 = self.residual / GRANULARITY;
        let ghost s = self.residual as int;
        proof {
            lemma_fundamental_div_mod(s, GRANULARITY as int);
            assert(a0 + inc <= u128::MAX) by (nonlinear_arith)
                requires
                    s == GRANULARITY * (inc as int) + s % GRANULARITY as int,
                    0 <= s % GRANULARITY as int,
                    0 <= a0,
                    GRANULARITY > 0,
                    a0 * GRANULARITY + s <= u128::MAX * GRANULARITY + (GRANULARITY - 1),
            ;
        }
        self.residual %= GRANULARITY;
        self.amount += inc;
        proof {
            let r1 = self.residual as int;
            let a1 = self.amount as int;
            assert(a1 * GRANULARITY + r1 == a0 * GRANULARITY + s) by (nonlinear_arith)
                requires
                    s == GRANULARITY * (inc as int) + r1,
                    a1 == a0 + inc,
            ;
        }
    }

    /// Adds `rhs` into `self`, exactly.
    pub fn add_assign(&mut self, rhs: Quantity<Q>)
        requires
            old(self).wf(),
            rhs.wf(),
            old(self)@ + rhs@ <= max_total(),
        ensures
            final(self).wf(),
            final(self)@ == old(self)@ + rhs@,
    {
        let ghost a0 = old(self).amount as int;
        let ghost r0 = old(self).residual as int;
        proof {
            assert(a0 + rhs.amount <= u128::MAX) by (nonlinear_arith)
                requires
                    a0 * GRANULARITY + r0 + rhs@ <= u128::MAX * GRANULARITY + (GRANULARITY - 1),
                    rhs@ == rhs.amount * GRANULARITY + rhs.residual,
                    r0 >= 0,
                    rhs.residual >= 0,
                    0 <= a0,
                    0 <= rhs.amount,
                    GRANULARITY > 0,
            ;
        }
        self.amount += rhs.amount;
        self.increase_residual(rhs.residual);
    }

    /// The exact sum of the two quantities.
    pub fn add(self, rhs: Quantity<Q>) -> (q: Quantity<Q>)
        requires
            self.wf(),
            rhs.wf(),
            self@ + rhs@ <= max_total(),
        ensures
            q.wf(),
            q@ == self@ + rhs@,
    {
        let mut sum = self;
        sum.add_assign(rhs);
        sum
    }

    /// Adds `rhs` whole units.
    pub fn add_units(&mut self, rhs: u128)
        requires
            old(self).wf(),
            old(self)@ + rhs * GRANULARITY <= max_total(),
        ensures
            final(self).wf(),
            final(self)@ == old(self)@ + rhs * GRANULARITY,
    {
        let ghost a0 = old(self).amount as int;
        let ghost r0 = old(self).residual as int;
        proof {
            assert(a0 + rhs <= u128::MAX && (a0 + rhs) * GRANULARITY == a0 * GRANULARITY + rhs
                * GRANULARITY) by (nonlinear_arith)
                requires
                    a0 * GRANULARITY + r0 + rhs * GRANULARITY <= u128::MAX * GRANULARITY + (
                    GRANULARITY - 1),
                    r0 >= 0,
                    0 <= a0,
                    0 <= rhs,
                    GRANULARITY > 0,
            ;
        }
        self.amount += rhs;
    }

    /// Subtracts `rhs` from `self`. Subtracting more than is there is a
    /// contract violation in the caller, never a rounding event.
    pub fn sub_assign(&mut self, rhs: Quantity<Q>)
        requires
            old(self).wf(),
            rhs.wf(),
            rhs@ <= old(self)@,
        ensures
            final(self).wf(),
            final(self)@ == old(self)@ - rhs@,
    {
        let (spillover, res): (u128, u128) = if rhs.residual <= self.residual {
            (0, self.residual - rhs.residual)
        } else {
            proof {
                lemma_amount_order(
                    rhs.amount as int,
                    rhs.residual as int,
                    self.amount as int,
                    self.residual as int,
                );
            }
            (1, (GRANULARITY - rhs.residual) + self.residual)
        };
        proof {
            if spillover == 0 {
                lemma_amount_order(
                    rhs.amount as int,
                    0,
                    self.amount as int,
                    self.residual as int,
                );
            }
        }
        self.amount = self.amount - (rhs.amount + spillover);
        self.residual = res;
    }

    /// The exact difference of the two quantities.
    pub fn sub(self, rhs: Quantity<Q>) -> (q: Quantity<Q>)
        requires
            self.wf(),
            rhs.wf(),
            rhs@ <= self@,
        ensures
            q.wf(),
            q@ == self@ - rhs@,
    {
        let mut diff = self;
        diff.sub_assign(rhs);
        diff
    }

    /// Whether `self` is at most `other`.
    pub fn le(&self, other: &Quantity<Q>) -> (r: bool)
        requires
            self.wf(),
            other.wf(),
        ensures
            r == (self@ <= other@),
    {
        proof {
            lemma_lex_order(
                self.amount as int,
                self.residual as int,
                other.amount as int,
                other.residual as int,
            );
        }
        if self.amount != other.amount {
            self.amount < other.amount
        } else {
            self.residual <= other.residual
        }
    }

    /// Whether `self` is strictly below `other`.
    pub fn lt(&self, other: &Quantity<Q>) -> (r: bool)
        requires
            self.wf(),
            other.wf(),
        ensures
            r == (self@ < other@),
    {
        proof {
            lemma_lex_order(
                self.amount as int,
                self.residual as int,
                other.amount as int,
                other.residual as int,
            );
        }
        if self.amount != other.amount {
            self.amount < other.amount
        } else {
            self.residual < other.residual
        }
    }

    /// Pays `val` out of `self` if it is affordable.
    ///
    /// Succeeds exactly when `val` does not exceed `self`; on success `self`
    /// decreases by exactly `val`, on failure it is untouched. An insufficient
    /// balance is an ordinary outcome, not an error.
    pub fn try_pay(&mut self, val: Quantity<Q>) -> (success: bool)
        requires
            old(self).wf(),
            val.wf(),
        ensures
            final(self).wf(),
            success == (val@ <= old(self)@),
            success ==> final(self)@ == old(self)@ - val@,
            !success ==> *final(self) == *old(self),
    {
        if val.le(self) {
            self.sub_assign(val);
            true
        } else {
            false
        }
    }

    /// Subtracts as much of `amount` as is there and reports what was
    /// actually removed: the minimum of `amount` and the old stock. The
    /// stock is left at the old value minus the return, never below zero.
    pub fn saturating_sub(&mut self, amount: Quantity<Q>) -> (removed: Quantity<Q>)
        requires
            old(self).wf(),
            amount.wf(),
        ensures
            final(self).wf(),
            removed.wf(),
            removed@ == if amount@ <= old(self)@ { amount@ } else { old(self)@ },
            final(self)@ == if amount@ <= old(self)@ { old(self)@ - amount@ } else { 0int },
            final(self)@ == old(self)@ - removed@,
    {
        if amount.le(self) {
            self.sub_assign(amount);
            amount
        } else {
            let actual = *self;
            *self = Quantity::new(0);
            actual
        }
    }

    /// The quantity scaled by the integer `rhs`, exactly.
    pub fn mul_scalar(self, rhs: u128) -> (q: Quantity<Q>)
        requires
            self.wf(),
            self@ * rhs <= max_total(),
        ensures
            q.wf(),
            q@ == self@ * rhs,
    {
        let mut scaled = self;
        scaled.mul_assign_scalar(rhs);
        scaled
    }

    /// Scales `self` by the integer `rhs` in place, exactly.
    ///
    /// The factor is split into its multiple of `GRANULARITY` and the rest,
    /// so the residual contribution never overflows even for huge factors.
    pub fn mul_assign_scalar(&mut self, rhs: u128)
        requires
            old(self).wf(),
            old(self)@ * rhs <= max_total(),
        ensures
            final(self).wf(),
            final(self)@ == old(self)@ * rhs,
    {
        let big_part: u128 = rhs / GRANULARITY;
        let small_part: u128 = rhs % GRANULARITY;
        proof {
            lemma_mul_scalar_bounds(
                self.amount as int,
                self.residual as int,
                rhs as int,
                big_part as int,
                small_part as int,
            );
        }
        let residual: u128 = self.residual;
        self.residual = 0;

        self.amount = mul_bounded(self.amount, rhs);
        self.amount = self.amount + mul_bounded(big_part, residual);
        self.increase_residual(mul_bounded(small_part, residual));
    }

    /// Divides exactly by `divisor`: the whole-part remainder is folded into
    /// residual space first, and the folded residual must leave no remainder.
    /// An inexact division is a contract violation in the caller.
    pub fn divide_exactly(self, divisor: u128) -> (q: Quantity<Q>)
        requires
            self.wf(),
            divisor != 0,
            self@ % (divisor as int) == 0,
            self@ % (divisor * GRANULARITY) <= u128::MAX,
        ensures
            q.wf(),
            q@ == self@ / (divisor as int),
    {
        let mut quot = self;
        let amount_not_accounted_for: u128 = quot.amount % divisor;
        proof {
            lemma_divide_exactly(
                quot.amount as int,
                quot.residual as int,
                divisor as int,
            );
        }
        quot.amount = quot.amount / divisor;
        quot.residual = quot.residual + mul_bounded(amount_not_accounted_for, GRANULARITY);

        quot.residual = quot.residual / divisor;
        quot
    }
}

impl<Q: QuantityType> PartialEq for Quantity<Q> {
    /// Quantities are equal exactly when their representations are; for
    /// well-formed quantities that is the equality of their totals.
    fn eq(&self, other: &Quantity<Q>) -> (r: bool) {
        self.amount == other.amount && self.residual == other.residual
    }
}

impl<Q: QuantityType> vstd::std_specs::cmp::PartialEqSpecImpl for Quantity<Q> {
    open spec fn obeys_eq_spec() -> bool {
        true
    }

    closed spec fn eq_spec(&self, other: &Quantity<Q>) -> bool {
        self.amount == other.amount && self.residual == other.residual
    }
}

impl<Q: QuantityType> Eq for Quantity<Q> {

}

impl<Q: QuantityType> Default for Quantity<Q> {
    /// The zero quantity.
    fn default() -> (q: Quantity<Q>)
        ensures
            q.wf(),
            q@ == 0,
    {
        Quantity::new(0)
    }
}

/// The signed net of a [`crate::quantity::balance::Balance`]: a magnitude
/// with a sign. A negative value always carries a strictly positive
/// magnitude, so the sign is meaningful.
#[derive(Clone, Copy, Debug)]
pub struct SignedQuantity<Q: QuantityType> {
    absolute_value: Quantity<Q>,
    is_not_negative: bool,
}

impl<Q: QuantityType> View for SignedQuantity<Q> {
    type V = int;

    /// The signed total, measured in residual steps.
    closed spec fn view(&self) -> int {
        if self.is_not_negative {
            self.absolute_value@
        } else {
            -self.absolute_value@
        }
    }
}

impl<Q: QuantityType> SignedQuantity<Q> {
    pub closed spec fn wf(self) -> bool {
        &&& self.absolute_value.wf()
        &&& !self.is_not_negative ==> self.absolute_value@ > 0
    }

    /// Whether the signed value equals the plain quantity `other`. A
    /// negative net never equals a quantity, since quantities are never
    /// negative.
    pub fn eq_quantity(&self, other: &Quantity<Q>) -> (r: bool)
        requires
            self.wf(),
            other.wf(),
        ensures
            r == (self@ == other@),
    {
        proof {
            if self.absolute_value@ == other@ {
                lemma_view_injective(self.absolute_value, *other);
            }
        }
        self.is_not_negative && self.absolute_value.amount == other.amount
            && self.absolute_value.residual == other.residual
    }

    /// Whether the signed value reaches the plain quantity `other`.
    ///
    /// A negative net compares below every quantity, since quantities are
    /// never negative.
    pub fn is_at_least(&self, other: &Quantity<Q>) -> (r: bool)
        requires
            self.wf(),
            other.wf(),
        ensures
            r == (self@ >= other@),
    {
        self.is_not_negative && other.le(&self.absolute_value)
    }

    /// Whether the signed value is strictly below the plain quantity `other`.
    pub fn is_less_than(&self, other: &Quantity<Q>) -> (r: bool)
        requires
            self.wf(),
            other.wf(),
        ensures
            r == (self@ < other@),
    {
        !self.is_at_least(other)
    }

    /// The signed difference `pos - neg` of two plain quantities.
    pub(crate) fn of_difference(pos: &Quantity<Q>, neg: &Quantity<Q>) -> (r: SignedQuantity<Q>)
        requires
            pos.wf(),
            neg.wf(),
        ensures
            r.wf(),
            r@ == pos@ - neg@,
    {
        if neg.le(pos) {
            SignedQuantity { absolute_value: (*pos).sub(*neg), is_not_negative: true }
        } else {
            SignedQuantity { absolute_value: (*neg).sub(*pos), is_not_negative: false }
        }
    }

    /// Whether the value is zero or positive.
    pub fn is_non_negative(&self) -> (r: bool)
        requires
            self.wf(),
        ensures
            r == (self@ >= 0),
    {
        self.is_not_negative
    }

    /// The signed decimal display as [`Self::stringify`], or `None` where
    /// the magnitude is too large for the requested precision.
    pub fn stringify_checked(&self, prec: usize) -> (r: Option<String>)
        requires
            self.wf(),
        ensures
            match r {
                Some(s) => s@ == (if self@ >= 0 {
                    seq!['+']
                } else {
                    seq!['-']
                }) + quantity_decimal(
                    if self@ >= 0 {
                        self@
                    } else {
                        -self@
                    },
                    prec as nat,
                ) + Q::spec_suffix(),
                None => !max_total_displays(
                    if self@ >= 0 {
                        self@
                    } else {
                        -self@
                    },
                    prec as nat,
                ),
            },
    {
        if self.absolute_value.can_display(prec) {
            Some(self.stringify(prec))
        } else {
            None
        }
    }

    /// The signed decimal display: an explicit `+` or `-`, then the
    /// magnitude truncated to `prec` digits after the point, then the
    /// unit's suffix.
    pub fn stringify(&self, prec: usize) -> (s: String)
        requires
            self.wf(),
            max_total_displays(
                if self@ >= 0 {
                    self@
                } else {
                    -self@
                },
                prec as nat,
            ),
        ensures
            s@ == (if self@ >= 0 {
                seq!['+']
            } else {
                seq!['-']
            }) + quantity_decimal(
                if self@ >= 0 {
                    self@
                } else {
                    -self@
                },
                prec as nat,
            ) + Q::spec_suffix(),
    {
        proof {
            reveal_strlit("+");
            reveal_strlit("-");
            assert("+"@ =~= seq!['+']);
            assert("-"@ =~= seq!['-']);
        }
        let sign: &'static str = if self.is_not_negative {
            "+"
        } else {
            "-"
        };
        let mut s = String::from_str(sign);
        let magnitude = self.absolute_value.stringify(prec);
        s.append(magnitude.as_str());
        proof {
            assert(s@ =~= (if self@ >= 0 {
                seq!['+']
            } else {
                seq!['-']
            }) + quantity_decimal(
                if self@ >= 0 {
                    self@
                } else {
                    -self@
                },
                prec as nat,
            ) + Q::spec_suffix());
        }
        s
    }
}

/// Scaling an exact fraction by its denominator restores the whole number:
/// for every `n` and every exact denominator `d` of `GRANULARITY`, the
/// product `fraction(n, d) * d` equals `Quantity::new(n)`, with no residual
/// left over. The premises are exactly the contracts of `fraction` and
/// `mul_scalar`.
pub proof fn lemma_fraction_times_denominator<Q: QuantityType>(
    f: Quantity<Q>,
    p: Quantity<Q>,
    w: Quantity<Q>,
    n: u128,
    d: u128,
)
    requires
        d != 0,
        GRANULARITY % d == 0,
        f.wf(),
        f@ == n * ((GRANULARITY / d) as int),
        p.wf(),
        p@ == f@ * d,
        w.wf(),
        w@ == n * GRANULARITY,
    ensures
        p == w,
{
    lemma_fundamental_div_mod(GRANULARITY as int, d as int);
    assert((n * ((GRANULARITY / d) as int)) * d == n * GRANULARITY) by (nonlinear_arith)
        requires
            GRANULARITY == d * (GRANULARITY as int / d as int) + GRANULARITY % d,
            GRANULARITY % d == 0,
    ;
    lemma_view_injective(p, w);
}

/// A quantity's total is never negative, and a well-formed one never
/// exceeds the largest representable total.
pub broadcast proof fn lemma_quantity_view_bounds<Q: QuantityType>(q: Quantity<Q>)
    ensures
        0 <= #[trigger] q@,
        q.wf() ==> q@ <= max_total(),
{
}

/// Two well-formed quantities with the same total are the same value:
/// the split into whole amount and residual is unique.
pub proof fn lemma_view_injective<Q: QuantityType>(a: Quantity<Q>, b: Quantity<Q>)
    requires
        a.wf(),
        b.wf(),
        a@ == b@,
    ensures
        a == b,
{
    lemma_fundamental_div_mod_converse(a@, GRANULARITY as int, a.amount as int, a.residual as int);
    lemma_fundamental_div_mod_converse(b@, GRANULARITY as int, b.amount as int, b.residual as int);
}

/// For well-formed field pairs, the lexicographic field order is the order
/// of the totals.
proof fn lemma_lex_order(a1: int, r1: int, a2: int, r2: int)
    requires
        0 <= a1,
        0 <= r1 < GRANULARITY,
        0 <= a2,
        0 <= r2 < GRANULARITY,
    ensures
        a1 < a2 ==> a1 * GRANULARITY + r1 < a2 * GRANULARITY + r2,
        a1 > a2 ==> a1 * GRANULARITY + r1 > a2 * GRANULARITY + r2,
        a1 == a2 ==> (a1 * GRANULARITY + r1 <= a2 * GRANULARITY + r2) == (r1 <= r2),
{
    assert(a1 < a2 ==> a1 * GRANULARITY + r1 < a2 * GRANULARITY + r2) by (nonlinear_arith)
        requires
            0 <= r1 < GRANULARITY,
            0 <= r2,
    ;
    assert(a2 < a1 ==> a2 * GRANULARITY + r2 < a1 * GRANULARITY + r1) by (nonlinear_arith)
        requires
            0 <= r2 < GRANULARITY,
            0 <= r1,
    ;
}

/// If the total of `(a1, r1)` is at most the total of `(a2, r2)` then
/// `a1 <= a2`, and strictly if additionally `r1 > r2`.
proof fn lemma_amount_order(a1: int, r1: int, a2: int, r2: int)
    requires
        0 <= a1,
        0 <= r1 < GRANULARITY,
        0 <= a2,
        0 <= r2 < GRANULARITY,
        a1 * GRANULARITY + r1 <= a2 * GRANULARITY + r2,
    ensures
        a1 <= a2,
        r2 < r1 ==> a1 < a2,
{
    assert(a1 <= a2 && (r2 < r1 ==> a1 < a2)) by (nonlinear_arith)
        requires
            0 <= a1,
            0 <= r1 < GRANULARITY,
            0 <= a2,
            0 <= r2 < GRANULARITY,
            a1 * GRANULARITY + r1 <= a2 * GRANULARITY + r2,
    ;
}

/// Overflow bounds and exactness for scaling a well-formed quantity by
/// `rhs == big * GRANULARITY + small`.
proof fn lemma_mul_scalar_bounds(a: int, r: int, rhs: int, big: int, small: int)
    requires
        0 <= a,
        0 <= r < GRANULARITY,
        0 <= rhs,
        big == rhs / GRANULARITY as int,
        small == rhs % GRANULARITY as int,
        (a * GRANULARITY + r) * rhs <= max_total(),
    ensures
        a * rhs <= u128::MAX,
        big * r <= u128::MAX,
        a * rhs + big * r <= u128::MAX,
        small * r <= u128::MAX,
        small * r + 0 <= u128::MAX,
        (a * rhs + big * r) * GRANULARITY + 0 + small * r == (a * GRANULARITY + r) * rhs,
{
    lemma_fundamental_div_mod(rhs, GRANULARITY as int);
    assert(a * rhs + big * r <= u128::MAX && a * rhs >= 0 && big * r >= 0 && small * r
        < GRANULARITY * GRANULARITY && small * r >= 0 && (a * rhs + big * r) * GRANULARITY + small
        * r == (a * GRANULARITY + r) * rhs) by (nonlinear_arith)
        requires
            0 <= a,
            0 <= r < GRANULARITY,
            0 <= rhs,
            rhs == GRANULARITY * big + small,
            0 <= small < GRANULARITY,
            0 <= big,
            (a * GRANULARITY + r) * rhs <= u128::MAX * GRANULARITY + (GRANULARITY - 1),
    ;
    assert(GRANULARITY * GRANULARITY <= u128::MAX);
}

/// Folding the whole-part remainder of a division into residual space stays
/// within `u128` and produces the exact quotient of the total.
proof fn lemma_divide_exactly(a: int, r: int, d: int)
    requires
        0 <= a,
        0 <= r < GRANULARITY,
        0 < d,
        (a * GRANULARITY + r) % d == 0,
        (a * GRANULARITY + r) % (d * GRANULARITY as int) <= u128::MAX,
    ensures
        (a % d) * GRANULARITY <= u128::MAX,
        r + (a % d) * GRANULARITY <= u128::MAX,
        (r + (a % d) * GRANULARITY) % d == 0,
        ((r + (a % d) * GRANULARITY) / d) < GRANULARITY,
        (a / d) * GRANULARITY + ((r + (a % d) * GRANULARITY) / d) == (a * GRANULARITY + r) / d,
{
    let t = a * GRANULARITY + r;
    let g = GRANULARITY as int;
    lemma_fundamental_div_mod(a, d);
    let aq = a / d;
    let ar = a % d;
    let s = r + ar * g;
    assert(t == (d * g) * aq + s && 0 <= s < d * g) by (nonlinear_arith)
        requires
            t == a * g + r,
            a == d * aq + ar,
            0 <= ar < d,
            0 <= r < g,
            s == r + ar * g,
            0 < d,
            0 < g,
    ;
    lemma_fundamental_div_mod_converse(t, d * g, aq, s);
    assert(s <= u128::MAX);
    lemma_fundamental_div_mod(t, d);
    let k = t / d - g * aq;
    assert(s == d * k) by (nonlinear_arith)
        requires
            t == d * (t / d) + t % d,
            t % d == 0,
            t == (d * g) * aq + s,
            k == t / d - g * aq,
    ;
    assert(0 <= k) by (nonlinear_arith)
        requires
            s == d * k,
            0 <= s,
            0 < d,
    ;
    lemma_fundamental_div_mod_converse(s, d, k, 0);
    assert(k < g) by (nonlinear_arith)
        requires
            s == d * k,
            s < d * g,
            0 < d,
    ;
}

/// Where the whole part alone overflows when scaled, the whole total does
/// not fit the largest representable total either.
proof fn lemma_display_overflow(a: int, r: int, p: int)
    requires
        0 <= a,
        0 <= r < GRANULARITY,
        1 <= p,
        a * p > u128::MAX,
    ensures
        (a * GRANULARITY + r) * p > max_total(),
{
    assert((a * GRANULARITY + r) * p > u128::MAX * GRANULARITY + (GRANULARITY - 1))
        by (nonlinear_arith)
        requires
            0 <= a,
            0 <= r,
            1 <= p,
            a * p >= u128::MAX + 1,
            GRANULARITY >= 1,
    ;
}

/// Scaling for display fits the machine exactly when the scaled whole part
/// plus the scaled residual's whole contribution stays within one word.
proof fn lemma_display_bound(a: int, r: int, p: int)
    requires
        0 <= a,
        0 <= r < GRANULARITY,
        1 <= p,
        p * GRANULARITY <= u128::MAX,
        a * p <= u128::MAX,
    ensures
        r * p <= u128::MAX,
        ((a * GRANULARITY + r) * p <= max_total()) == (a * p + (r * p) / (GRANULARITY as int)
            <= u128::MAX),
{
    let g = GRANULARITY as int;
    assert(r * p <= u128::MAX) by (nonlinear_arith)
        requires
            0 <= r < g,
            1 <= p,
            p * g <= u128::MAX,
            g == GRANULARITY,
    ;
    lemma_fundamental_div_mod(r * p, g);
    let q = (r * p) / g;
    let rem = (r * p) % g;
    assert((a * g + r) * p == g * (a * p + q) + rem && 0 <= rem < g) by (nonlinear_arith)
        requires
            r * p == g * q + rem,
            0 <= rem < g,
            0 < g,
    ;
    if a * p + q <= u128::MAX {
        assert((a * g + r) * p <= u128::MAX * g + (g - 1)) by (nonlinear_arith)
            requires
                (a * g + r) * p == g * (a * p + q) + rem,
                a * p + q <= u128::MAX,
                rem < g,
                0 < g,
        ;
    } else {
        assert((a * g + r) * p > u128::MAX * g + (g - 1)) by (nonlinear_arith)
            requires
                (a * g + r) * p == g * (a * p + q) + rem,
                a * p + q >= u128::MAX + 1,
                0 <= rem,
                0 < g,
        ;
    }
}

/// Multiplication that the caller has shown not to overflow.
fn mul_bounded(a: u128, b: u128) -> (r: u128)
    requires
        a * b <= u128::MAX,
    ensures
        r == a * b,
{
    a * b
}

/// `(G/d) * (n % d) < G` and the total of `fraction(n, d)` is `n * (G/d)`,
/// whenever `d` divides `G` exactly.
proof fn lemma_fraction_math(n: int, d: int, g: int)
    requires
        0 < d,
        0 < g,
        g % d == 0,
        0 <= n,
    ensures
        (g / d) * (n % d) < g,
        (n / d) * g + (g / d) * (n % d) == n * (g / d),
        (n * (g / d)) * d == n * g,
{
    lemma_fundamental_div_mod(g, d);
    lemma_fundamental_div_mod(n, d);
    let q = g / d;
    let nf = n / d;
    let nr = n % d;
    assert(g == q * d) by (nonlinear_arith)
        requires
            g == d * q + g % d,
            g % d == 0,
    ;
    assert(0 <= nr < d);
    assert(q * nr < g) by (nonlinear_arith)
        requires
            g == q * d,
            0 <= nr < d,
            0 < g,
            0 < d,
            0 <= q,
    ;
    assert(nf * g + q * nr == n * q) by (nonlinear_arith)
        requires
            g == q * d,
            n == d * nf + nr,
    ;
    assert((n * q) * d == n * g) by (nonlinear_arith)
        requires
            g == q * d,
    ;
}

} // verus!
