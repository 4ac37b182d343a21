//! Exact decimal display of fixed-point totals.
//!
//! A total measured in residual steps of `1 / GRANULARITY` is scaled to the
//! requested number of decimal digits with pure integer arithmetic, then
//! written digit by digit. Nothing here rounds up: the scaled value is
//! truncated towards zero, so the display never overstates a stock.

use vstd::arithmetic::div_mod::{
    lemma_fundamental_div_mod, lemma_fundamental_div_mod_converse,
};
use vstd::prelude::*;
use vstd::string::StringExecFns;

use crate::duration::GRANULARITY;
use crate::quantity::max_total;

verus! {

/// `10^e`, as a mathematical number.
pub open spec fn pow10(e: nat) -> nat
    decreases e,
{
    if e == 0 {
        1
    } else {
        10 * pow10((e - 1) as nat)
    }
}

/// The character for one decimal digit.
pub open spec fn digit_char(d: nat) -> char {
    if d == 0 {
        '0'
    } else if d == 1 {
        '1'
    } else if d == 2 {
        '2'
    } else if d == 3 {
        '3'
    } else if d == 4 {
        '4'
    } else if d == 5 {
        '5'
    } else if d == 6 {
        '6'
    } else if d == 7 {
        '7'
    } else if d == 8 {
        '8'
    } else {
        '9'
    }
}

/// The plain decimal digits of `n`, most significant first, without leading
/// zeroes (a single `0` for zero).
pub open spec fn dec_rep(n: nat) -> Seq<char>
    decreases n,
{
    if n < 10 {
        seq![digit_char(n)]
    } else {
        dec_rep(n / 10) + seq![digit_char(n % 10)]
    }
}

/// Exactly `width` decimal digits of `n`, most significant first, padded
/// with leading zeroes.
pub open spec fn dec_fixed(n: nat, width: nat) -> Seq<char>
    decreases width,
{
    if width == 0 {
        Seq::empty()
    } else {
        dec_fixed(n / 10, (width - 1) as nat) + seq![digit_char(n % 10)]
    }
}

/// The decimal display of a total of residual steps, truncated to
/// `accuracy` digits after the point; no point at all for `accuracy == 0`.
pub open spec fn quantity_decimal(total: int, accuracy: nat) -> Seq<char> {
    let scaled = (total * pow10(accuracy)) / (GRANULARITY as int);
    if accuracy == 0 {
        dec_rep(scaled as nat)
    } else {
        dec_rep((scaled / (pow10(accuracy) as int)) as nat) + seq!['.'] + dec_fixed(
            (scaled % (pow10(accuracy) as int)) as nat,
            accuracy,
        )
    }
}

/// Whether a total of residual steps can be scaled to `accuracy` decimal
/// digits without leaving `u128`: the machine limit on display precision.
pub open spec fn max_total_displays(total: int, accuracy: nat) -> bool {
    &&& pow10(accuracy) * GRANULARITY <= u128::MAX
    &&& total * pow10(accuracy) <= max_total()
}

/// Powers of ten are positive.
pub proof fn lemma_pow10_pos(e: nat)
    ensures
        pow10(e) >= 1,
    decreases e,
{
    if e > 0 {
        lemma_pow10_pos((e - 1) as nat);
    }
}

/// `10^a <= 10^b` for `a <= b`.
pub proof fn lemma_pow10_mono(a: nat, b: nat)
    requires
        a <= b,
    ensures
        pow10(a) <= pow10(b),
        pow10(a) >= 1,
    decreases b,
{
    lemma_pow10_pos(a);
    if a < b {
        lemma_pow10_mono(a, (b - 1) as nat);
    }
}

/// `10^e`, executable.
pub fn ten_pow(e: usize) -> (r: u128)
    requires
        pow10(e as nat) <= u128::MAX,
    ensures
        r == pow10(e as nat),
{
    let mut r: u128 = 1;
    let mut i: usize = 0;
    while i < e
        invariant
            i <= e,
            r == pow10(i as nat),
            pow10(e as nat) <= u128::MAX,
        decreases e - i,
    {
        proof {
            lemma_pow10_mono((i + 1) as nat, e as nat);
        }
        r = r * 10;
        i = i + 1;
    }
    r
}

/// `10^e` as a machine word, or `None` where it does not fit one.
pub fn try_ten_pow(e: usize) -> (r: Option<u128>)
    ensures
        match r {
            Some(v) => v == pow10(e as nat) && pow10(e as nat) <= u128::MAX,
            None => pow10(e as nat) > u128::MAX,
        },
{
    let mut v: u128 = 1;
    let mut i: usize = 0;
    while i < e
        invariant
            i <= e,
            v == pow10(i as nat),
        decreases e - i,
    {
        match v.checked_mul(10) {
            Some(next) => {
                v = next;
            },
            None => {
                proof {
                    lemma_pow10_mono((i + 1) as nat, e as nat);
                }
                return None;
            },
        }
        i = i + 1;
    }
    Some(v)
}

/// The character of the decimal digit `d`.
fn digit_str(d: u128) -> (s: &'static str)
    requires
        d < 10,
    ensures
        s@ == seq![digit_char(d as nat)],
{
    proof {
        reveal_strlit("0");
        reveal_strlit("1");
        reveal_strlit("2");
        reveal_strlit("3");
        reveal_strlit("4");
        reveal_strlit("5");
        reveal_strlit("6");
        reveal_strlit("7");
        reveal_strlit("8");
        reveal_strlit("9");
    }
    let s: &'static str = if d == 0 {
        "0"
    } else if d == 1 {
        "1"
    } else if d == 2 {
        "2"
    } else if d == 3 {
        "3"
    } else if d == 4 {
        "4"
    } else if d == 5 {
        "5"
    } else if d == 6 {
        "6"
    } else if d == 7 {
        "7"
    } else if d == 8 {
        "8"
    } else {
        "9"
    };
    proof {
        assert(s@ =~= seq![digit_char(d as nat)]);
    }
    s
}

/// The decimal digits of `n`, without leading zeroes.
pub fn dec_string(n: u128) -> (s: String)
    ensures
        s@ == dec_rep(n as nat),
    decreases n,
{
    if n < 10 {
        String::from_str(digit_str(n))
    } else {
        let mut s = dec_string(n / 10);
        s.append(digit_str(n % 10));
        s
    }
}

/// Exactly `width` decimal digits of `n`, left-padded with zeroes.
pub fn dec_string_fixed(n: u128, width: usize) -> (s: String)
    ensures
        s@ == dec_fixed(n as nat, width as nat),
    decreases width,
{
    if width == 0 {
        String::new()
    } else {
        let mut s = dec_string_fixed(n / 10, width - 1);
        s.append(digit_str(n % 10));
        s
    }
}

/// The decimal display of the well-formed pair `(amount, residual)`,
/// truncated to `accuracy` digits after the point.
pub fn quantity_string(amount: u128, residual: u128, accuracy: usize) -> (s: String)
    requires
        residual < GRANULARITY,
        pow10(accuracy as nat) * GRANULARITY <= u128::MAX,
        (amount * GRANULARITY + residual) * pow10(accuracy as nat) <= max_total(),
    ensures
        s@ == quantity_decimal(amount * GRANULARITY + residual, accuracy as nat),
{
    proof {
        lemma_pow10_mono(0, accuracy as nat);
        assert(pow10(accuracy as nat) <= u128::MAX) by (nonlinear_arith)
            requires
                pow10(accuracy as nat) * GRANULARITY <= u128::MAX,
                pow10(accuracy as nat) >= 1,
                GRANULARITY >= 1,
        ;
    }
    let f: u128 = ten_pow(accuracy);
    let ghost total = amount * GRANULARITY + residual;
    proof {
        lemma_scaling_fits(amount as int, residual as int, f as int);
    }
    let scaled: u128 = amount * f + (residual * f) / GRANULARITY;
    let int_part: u128 = scaled / f;
    let frac_part: u128 = scaled % f;
    proof {
        assert(scaled == (total * pow10(accuracy as nat)) / (GRANULARITY as int));
    }
    let mut s = dec_string(int_part);
    if accuracy > 0 {
        proof {
            reveal_strlit(".");
            assert("."@ =~= seq!['.']);
        }
        s.append(".");
        let frac = dec_string_fixed(frac_part, accuracy);
        s.append(frac.as_str());
    } else {
        proof {
            lemma_fundamental_div_mod_converse(scaled as int, 1, scaled as int, 0);
        }
    }
    s
}

/// Scaling a well-formed total by `f` stays within `u128` at every step,
/// and the two-step computation equals the scaled total divided by
/// `GRANULARITY`.
proof fn lemma_scaling_fits(a: int, r: int, f: int)
    requires
        0 <= a,
        0 <= r < GRANULARITY,
        1 <= f,
        f * GRANULARITY <= u128::MAX,
        (a * GRANULARITY + r) * f <= max_total(),
    ensures
        a * f <= u128::MAX,
        r * f <= u128::MAX,
        a * f + (r * f) / (GRANULARITY as int) <= u128::MAX,
        a * f + (r * f) / (GRANULARITY as int) == ((a * GRANULARITY + r) * f) / (
        GRANULARITY as int),
{
    let g = GRANULARITY as int;
    lemma_fundamental_div_mod(r * f, g);
    let q = (r * f) / g;
    let rem = (r * f) % g;
    assert((a * g + r) * f == g * (a * f + q) + rem && 0 <= rem < g) by (nonlinear_arith)
        requires
            r * f == g * q + rem,
            0 <= rem < g,
            0 < g,
    ;
    lemma_fundamental_div_mod_converse((a * g + r) * f, g, a * f + q, rem);
    assert(r * f <= u128::MAX) by (nonlinear_arith)
        requires
            0 <= r,
            r < g,
            1 <= f,
            f * g <= u128::MAX,
            0 <= f,
    ;
    assert(a * f + q <= u128::MAX) by (nonlinear_arith)
        requires
            g * (a * f + q) + rem == (a * g + r) * f,
            (a * g + r) * f <= u128::MAX * g + (g - 1),
            0 <= rem,
            0 <= a,
            0 <= q,
            0 <= f,
            0 < g,
    ;
    assert(a * f >= 0 && q >= 0) by (nonlinear_arith)
        requires
            0 <= a,
            0 <= f,
            r * f == g * q + rem,
            0 <= r,
            0 <= rem < g,
            0 < g,
    ;
}

} // verus!
