//! The fixed-point arithmetic core, exercised on concrete values.

use save_the_planet::duration::{Duration, GRANULARITY, TICKS_PER_SECOND, TICKS_PER_YEAR};
use save_the_planet::quantity::types::{Emission, Flyer, Person};
use save_the_planet::quantity::Quantity;
use save_the_planet::rate::Rate;

#[test]
fn fraction_times_denominator_is_whole() {
    // An exact tenth scaled by ten gives exactly one, no residual left over.
    let tenth: Quantity<Flyer> = Quantity::fraction(1, 10);
    assert_eq!(tenth.mul_scalar(10), Quantity::new(1));

    let seventh: Quantity<Person> = Quantity::fraction(3, 7);
    assert_eq!(seventh.mul_scalar(7), Quantity::new(3));

    let hundredth: Quantity<Emission> = Quantity::fraction(123, 100);
    assert_eq!(hundredth.mul_scalar(100), Quantity::new(123));
}

#[test]
fn rate_round_trip_restores_quantity() {
    let q: Quantity<Emission> = Quantity::new(100_000);
    let r = Rate::new(q, Duration::year());
    assert_eq!(r.per(Duration::year()), q);

    let q2: Quantity<Flyer> = Quantity::new(6);
    let r2 = Rate::new(q2, Duration::minute());
    assert_eq!(r2.per(Duration::minute()), q2);
}

#[test]
fn integration_is_additive() {
    let r: Rate<Emission> = Rate::new(Quantity::new(100_000), Duration::year());
    // Two deliberately irregular spans.
    let d1 = Duration::from_ticks(123_456_789);
    let d2 = Duration::from_ticks(987_654_321_987);
    let whole = r.per(d1.add(d2));
    let parts = r.per(d1).add(r.per(d2));
    assert_eq!(whole, parts);
}

#[test]
fn try_pay_succeeds_iff_affordable() {
    let mut q: Quantity<Emission> = Quantity::new(10);
    // Affordable: exactly the stock.
    assert!(q.try_pay(Quantity::new(10)));
    assert_eq!(q, Quantity::new(0));

    let mut q2: Quantity<Emission> = Quantity::new(5);
    // Not affordable: more than the stock; the stock is untouched.
    assert!(!q2.try_pay(Quantity::new(6)));
    assert_eq!(q2, Quantity::new(5));

    // On success the stock decreases by exactly the payment.
    let mut q3: Quantity<Emission> = Quantity::fraction(7, 2);
    assert!(q3.try_pay(Quantity::fraction(3, 2)));
    assert_eq!(q3, Quantity::new(2));
}

#[test]
fn saturating_sub_returns_min_and_clamps_at_zero() {
    let mut q: Quantity<Person> = Quantity::new(5);
    let removed = q.saturating_sub(Quantity::new(2));
    assert_eq!(removed, Quantity::new(2));
    assert_eq!(q, Quantity::new(3));

    let removed2 = q.saturating_sub(Quantity::new(7));
    assert_eq!(removed2, Quantity::new(3));
    assert_eq!(q, Quantity::new(0));
}

#[test]
fn ten_partial_reductions_make_one_whole_unit() {
    // Ten applications of a 0.1-sized reduction remove exactly one whole
    // unit in total, thanks to residual carry.
    let mut unsupporting: Quantity<Person> = Quantity::new(9_000_000_000);
    let persuasiveness: Quantity<Person> = Quantity::fraction(1, 10);
    let mut total_subtracted: Quantity<Person> = Quantity::new(0);
    for _ in 0..10 {
        let removed = unsupporting.saturating_sub(persuasiveness);
        total_subtracted.add_assign(removed);
    }
    assert_eq!(total_subtracted, Quantity::new(1));
    assert_eq!(unsupporting, Quantity::new(8_999_999_999));
}

#[test]
fn annual_rate_per_second_is_sub_unit() {
    let r: Rate<Emission> = Rate::new(Quantity::new(100_000), Duration::year());
    let per_second = r.per(Duration::second());
    assert_eq!(per_second.whole_amount(), 0);
    let per_year = r.per(Duration::year());
    assert_eq!(per_year, Quantity::new(100_000));
}

#[test]
fn whole_amount_truncates() {
    let q: Quantity<Flyer> = Quantity::fraction(7, 2);
    assert_eq!(q.whole_amount(), 3);
}

#[test]
fn divide_exactly_splits_whole_and_residual() {
    let q: Quantity<Emission> = Quantity::new(3);
    let half = q.divide_exactly(2);
    assert_eq!(half, Quantity::fraction(3, 2));
}

#[test]
fn eta_is_rounded_up() {
    // A rate of one third of a unit per tick reaches half a unit only
    // after two whole ticks: the estimate never understates the wait.
    let rate: Rate<Flyer> = Rate::new(Quantity::new(1), Duration::from_ticks(3));
    let gap: Quantity<Flyer> = Quantity::fraction(1, 2);
    let eta = Duration::from_quantity_and_rate_approximation(gap, rate);
    assert_eq!(eta.ticks(), 2);

    // An exact quotient is not rounded further.
    let gap2: Quantity<Flyer> = Quantity::new(1);
    let eta2 = Duration::from_quantity_and_rate_approximation(gap2, rate);
    assert_eq!(eta2.ticks(), 3);
}

#[test]
fn duration_arithmetic() {
    let d = Duration::from_seconds(2);
    assert_eq!(d.ticks(), 2 * TICKS_PER_SECOND);
    assert_eq!(d.add(Duration::tick()).ticks(), 2 * TICKS_PER_SECOND + 1);
    assert_eq!(d.sub(Duration::second()).ticks(), TICKS_PER_SECOND);
    assert_eq!(Duration::year().ticks(), TICKS_PER_YEAR);
    assert!(Duration::second().le(&Duration::minute()));
    assert!(Duration::instant().lt(&Duration::tick()));
}

#[test]
fn granularity_is_highly_composite() {
    for d in [2u128, 5, 7, 10, 100, 120] {
        assert_eq!(GRANULARITY % d, 0, "{} must divide the granularity", d);
    }
}
