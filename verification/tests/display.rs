//! Decimal display: exact integer formatting, checked against a floating
//! reference computation.

use save_the_planet::duration::GRANULARITY;
use save_the_planet::quantity::balance::Balance;
use save_the_planet::quantity::types::{Emission, Flyer};
use save_the_planet::quantity::Quantity;
use save_the_planet::rate::Rate;
use save_the_planet::duration::Duration;

#[test]
fn quantity_stringify_is_exact() {
    let q: Quantity<Flyer> = Quantity::new(3);
    assert_eq!(q.stringify(0), "3");
    let half: Quantity<Flyer> = Quantity::fraction(1, 2);
    assert_eq!(half.stringify(2), "0.50");
    let e: Quantity<Emission> = Quantity::fraction(725, 100);
    assert_eq!(e.stringify(2), "7.25g");
    // Truncation towards zero, never rounding up.
    let third_ish: Quantity<Flyer> = Quantity::fraction(2, 3);
    assert_eq!(third_ish.stringify(2), "0.66");
}

#[test]
fn balance_stringify_matches_float_reference() {
    let mut b: Balance<Emission> = Balance::new();
    b.pos_mut().add_assign(Quantity::fraction(2100, 100));
    b.neg_mut().add_assign(Quantity::fraction(1375, 100));

    let pos_f = 21.00_f64;
    let neg_f = 13.75_f64;
    let reference = format!("{:+.2}g", pos_f - neg_f);
    assert_eq!(b.balance().stringify(2), reference);
    assert!(b.balance().is_non_negative());

    let mut c: Balance<Emission> = Balance::new();
    c.pos_mut().add_assign(Quantity::new(1));
    c.neg_mut().add_assign(Quantity::fraction(5, 2));
    let reference2 = format!("{:+.2}g", 1.0_f64 - 2.5_f64);
    assert_eq!(c.balance().stringify(2), reference2);
    assert!(!c.balance().is_non_negative());
}

#[test]
fn balance_sign_matches_comparison() {
    let mut b: Balance<Flyer> = Balance::new();
    b.pos_mut().add_assign(Quantity::new(2));
    b.neg_mut().add_assign(Quantity::new(2));
    // Equal credits and debits: non-negative zero.
    assert!(b.balance().is_non_negative());
    assert!(b.balance().is_at_least(&Quantity::new(0)));
    assert!(!b.balance().is_at_least(&Quantity::fraction(1, 10)));

    b.neg_mut().add_assign(Quantity::fraction(1, 10));
    assert!(!b.balance().is_non_negative());
    assert!(b.balance().is_less_than(&Quantity::new(0)));
}

#[test]
fn rate_stringify_is_per_second() {
    // One unit per second, displayed with two digits.
    let r: Rate<Flyer> = Rate::new(Quantity::new(1), Duration::second());
    assert_eq!(r.stringify(2), "1.00/s");
    let e: Rate<Emission> = Rate::new(Quantity::new(3), Duration::from_seconds(2));
    assert_eq!(e.stringify(1), "1.5g/s");
}

#[test]
fn signed_stringify_has_explicit_sign() {
    let mut b: Balance<Flyer> = Balance::new();
    b.pos_mut().add_assign(Quantity::fraction(1, 10));
    assert_eq!(b.balance().stringify(1), "+0.1");
}

#[test]
fn granularity_keeps_two_decimal_digits_exact() {
    assert_eq!(GRANULARITY % 100, 0);
    let q: Quantity<Flyer> = Quantity::fraction(1, 100);
    assert_eq!(q.stringify(2), "0.01");
}

#[test]
fn threshold_check_borrows_correctly() {
    let mut b: Balance<Emission> = Balance::new();
    b.pos_mut().add_assign(Quantity::new(5));
    b.neg_mut().add_assign(Quantity::fraction(5, 2));
    // Net is 2.5: at least 2, not at least 3.
    assert!(b.is_at_least(2));
    assert!(!b.is_at_least(3));
    // The debit residual overhangs the credit residual: one unit borrowed.
    let mut c: Balance<Emission> = Balance::new();
    c.pos_mut().add_assign(Quantity::new(3));
    c.neg_mut().add_assign(Quantity::fraction(1, 10));
    assert!(c.is_at_least(2));
    assert!(!c.is_at_least(3));
}

#[test]
fn signed_equality_against_quantity() {
    let mut b: Balance<Flyer> = Balance::new();
    b.pos_mut().add_assign(Quantity::fraction(5, 2));
    assert!(b.balance().eq_quantity(&Quantity::fraction(5, 2)));
    assert!(!b.balance().eq_quantity(&Quantity::new(2)));
    // A negative net never equals a quantity, not even in magnitude.
    b.neg_mut().add_assign(Quantity::new(5));
    assert!(!b.balance().eq_quantity(&Quantity::fraction(5, 2)));
}
