//! The native balance: a count of lamports, written in SOL to four decimal
//! places.
//!
//! The balance is divided by the lamports in a SOL as doubles divide, and
//! the quotient is written to four decimals, so that the text is the one
//! that wallets and explorers print which take this division in floating
//! point. For a balance below two to the power 53 that is not exactly
//! halfway between two ten-thousandths this is the true quotient rounded to
//! the nearest ten-thousandth.

use vstd::prelude::*;
use vstd::string::*;
use vstd::arithmetic::div_mod::{
    lemma_div_is_ordered,
    lemma_div_is_ordered_by_denominator,
    lemma_fundamental_div_mod,
};
use crate::binary::{
    binary_quotient,
    divide,
    held_count,
    hold,
    lemma_fine_scale_normalizes,
    lemma_small_count_is_held,
    multiple,
    normal_floor,
    rounded_multiple,
    SIGNIFICAND_BOUND,
};
use crate::decimal::{decimal, padded_decimal, push_decimal, push_padded_decimal};
use crate::rounding::{lemma_nearest_even_is_nearest, lemma_nearest_is_unique, nearest_even};

verus! {

/// Lamports in one SOL.
pub const LAMPORTS_PER_SOL: u64 = 1_000_000_000;

/// Lamports in one ten-thousandth of a SOL, the smallest amount shown.
pub const LAMPORTS_PER_UNIT: u64 = 100_000;

/// Ten-thousandths in one SOL.
pub const UNITS_PER_SOL: u64 = 10_000;

/// The number of ten-thousandths of a SOL that is shown for a balance: the
/// balance as a double holds it, divided by the lamports in a SOL as doubles
/// divide, times ten thousand, rounded to the nearest integer.
pub open spec fn shown_units(lamports: nat) -> nat {
    rounded_multiple(
        binary_quotient(held_count(lamports), LAMPORTS_PER_SOL as nat),
        UNITS_PER_SOL as nat,
    )
}

/// The number of ten-thousandths of a SOL nearest to a balance; a balance
/// exactly halfway between two of them goes to the even one.
pub open spec fn nearest_units(lamports: nat) -> nat {
    nearest_even(lamports, LAMPORTS_PER_UNIT as nat)
}

/// A count of ten-thousandths written in SOL: the whole SOL, a point, and
/// the ten-thousandths as four digits.
pub open spec fn units_text(units: nat) -> Seq<char> {
    decimal(units / (UNITS_PER_SOL as nat)) + seq!['.'] + padded_decimal(
        units % (UNITS_PER_SOL as nat),
        4,
    )
}

/// The balance in SOL with four decimals.
pub open spec fn sol_text(lamports: nat) -> Seq<char> {
    units_text(shown_units(lamports))
}

/// The line of the report that gives the balance.
pub open spec fn balance_line_text(lamports: nat) -> Seq<char> {
    "💰 SOL: "@ + sol_text(lamports) + " SOL"@
}

/// For a balance below two to the power 53 that is not exactly halfway
/// between two ten-thousandths of a SOL, what is shown is the
/// ten-thousandth nearest to the balance: the roundings of the binary
/// division do not reach the fourth decimal.
pub proof fn lemma_ordinary_balance_is_shown_to_the_nearest(lamports: nat)
    requires
        lamports < SIGNIFICAND_BOUND,
        lamports % (LAMPORTS_PER_UNIT as nat) != LAMPORTS_PER_UNIT / 2,
    ensures
        shown_units(lamports) == nearest_units(lamports),
{
    let sol = LAMPORTS_PER_SOL as nat;
    let unit = LAMPORTS_PER_UNIT as nat;
    let factor = UNITS_PER_SOL as nat;
    let floor = normal_floor(sol);
    lemma_small_count_is_held(lamports);
    let quotient = binary_quotient(lamports, sol);
    let scale = quotient.scale;
    let significand = quotient.significand;
    let near = nearest_units(lamports);
    if lamports > 0 {
        lemma_fine_scale_normalizes(lamports, floor);
        lemma_nearest_even_is_nearest(lamports * scale, sol);
        lemma_nearest_even_is_nearest(lamports, unit);
        lemma_fundamental_div_mod(lamports as int, unit as int);
        // The nearest ten-thousandth misses the balance by less than half
        // of one, so by 49 999 lamports at most; the significand misses
        // the scaled quotient by half a unit at most.
        let miss = near * unit - lamports;
        let slip = lamports * scale - significand * sol;
        assert(-49_999 <= miss <= 49_999) by {
            assert((lamports / unit + 1) * unit == unit * (lamports / unit) + unit)
                by (nonlinear_arith);
        }
        // The scale is above half the lamports in a SOL, as the balance is
        // below two to the power 53.
        assert(scale > 500_000_000) by (nonlinear_arith)
            requires
                lamports * scale >= 0x10_0000_0000_0000 * 1_000_000_000,
                lamports < 0x20_0000_0000_0000,
                scale >= 0,
        ;
        // So the two misses together stay below half a ten-thousandth.
        let gap = near * scale - significand * factor;
        assert(unit * gap == scale * miss + slip) by (nonlinear_arith)
            requires
                gap == near * scale - significand * factor,
                miss == near * unit - lamports,
                slip == lamports * scale - significand * sol,
                sol == factor * unit,
        ;
        assert(-49_999 * scale <= scale * miss <= 49_999 * scale) by (nonlinear_arith)
            requires
                -49_999 <= miss <= 49_999,
                scale > 0,
        ;
        assert(-scale < 2 * gap < scale) by (nonlinear_arith)
            requires
                unit * gap == scale * miss + slip,
                -49_999 * scale <= scale * miss <= 49_999 * scale,
                -500_000_000 <= slip <= 500_000_000,
                scale > 500_000_000,
                unit == 100_000,
        ;
        lemma_nearest_is_unique(significand * factor, scale, near);
    }
}

/// Computes the ten-thousandths of a SOL that are shown for a balance.
pub fn display_units(lamports: u64) -> (units: u64)
    ensures
        units == shown_units(lamports as nat),
{
    let held = hold(lamports);
    assert(normal_floor(LAMPORTS_PER_SOL as nat) == 0x10_0000_0000_0000 * 1_000_000_000)
        by (nonlinear_arith)
        requires
            normal_floor(LAMPORTS_PER_SOL as nat) == (0x10_0000_0000_0000 as nat) * (
            1_000_000_000 as nat),
    ;
    let quotient = divide(held, LAMPORTS_PER_SOL);
    let units = multiple(quotient, UNITS_PER_SOL);
    proof {
        // The count fits 64 bits: the significand is two to the power 53 at
        // most, and the scale of a balance of 64 bits at least 244 141.
        let whole = quotient.significand * UNITS_PER_SOL;
        assert(whole <= 0x20_0000_0000_0000 * 10_000) by (nonlinear_arith)
            requires
                whole == quotient.significand * 10_000,
                quotient.significand <= 0x20_0000_0000_0000,
        ;
        if held > 0 {
            assert(quotient.scale >= 244_141) by (nonlinear_arith)
                requires
                    held * quotient.scale >= 0x10_0000_0000_0000 * 1_000_000_000,
                    held <= 0x1_0000_0000_0000_0000,
                    quotient.scale >= 0,
            ;
            lemma_div_is_ordered_by_denominator(whole as int, 244_141, quotient.scale as int);
            lemma_div_is_ordered(whole as int, 90_071_992_547_409_920_000int, 244_141);
        } else {
            lemma_div_is_ordered_by_denominator(whole as int, 1, quotient.scale as int);
        }
    }
    units as u64
}

/// Appends the balance in SOL, to four decimals, to `out`.
pub fn push_sol(out: &mut String, lamports: u64)
    ensures
        final(out)@ == old(out)@ + sol_text(lamports as nat),
{
    let units: u64 = display_units(lamports);
    push_decimal(out, units / UNITS_PER_SOL);
    proof {
        reveal_strlit(".");
    }
    out.append(".");
    push_padded_decimal(out, units % UNITS_PER_SOL, 4);
}

/// Writes a balance in SOL to four decimals: 2 500 000 000 lamports are
/// "2.5000".
pub fn format_sol(lamports: u64) -> (text: String)
    ensures
        text@ == sol_text(lamports as nat),
{
    let mut text = String::new();
    push_sol(&mut text, lamports);
    text
}

/// Writes the balance line of the report.
pub fn balance_line(lamports: u64) -> (line: String)
    ensures
        line@ == balance_line_text(lamports as nat),
{
    let mut line = "💰 SOL: ".to_owned();
    push_sol(&mut line, lamports);
    line.append(" SOL");
    line
}

} // verus!
