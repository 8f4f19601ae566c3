//! Binary floating-point arithmetic, done on integers.
//!
//! A double holds a number as a significand of 53 bits times a power of
//! two. Wallets and explorers commonly divide a balance in doubles; to print
//! the digits that they print, this module takes the same roundings, each to
//! the nearest value that a double can hold, halves to the even significand.
//! A quotient is kept as a significand over a power of two, so that every
//! step is exact arithmetic on integers.

use vstd::prelude::*;
use vstd::arithmetic::div_mod::{lemma_div_denominator, lemma_fundamental_div_mod};
use crate::rounding::{nearest_even, round_half_even};

verus! {

/// Two to the power 53: a significand is less than this.
pub const SIGNIFICAND_BOUND: u64 = 0x20_0000_0000_0000;

/// Two to the power 52: a significand of full width is at least this.
pub const SIGNIFICAND_FLOOR: u64 = 0x10_0000_0000_0000;

/// Two to the power 64: no integer of 64 bits is held as more.
pub const MAX_HELD: u128 = 0x1_0000_0000_0000_0000;

/// The largest divisor that [`divide`] takes.
pub const MAX_DIVISOR: u64 = 0xFFFF_FFFF;

/// The power of two in whose multiples a double holds the integer `count`:
/// one while `count` fits the significand, and doubled with each bit by
/// which it does not.
pub open spec fn coarse_step(count: nat) -> nat
    decreases count,
{
    if count < SIGNIFICAND_BOUND {
        1
    } else {
        2 * coarse_step(count / 2)
    }
}

/// The number that a double holds for the integer `count`: the nearest
/// multiple of its step, halves to the even multiple.
pub open spec fn held_count(count: nat) -> nat {
    nearest_even(count, coarse_step(count)) * coarse_step(count)
}

/// The power of two by which `value` is multiplied to reach `floor`: the
/// least that takes it there, and one where nothing is to be done.
pub open spec fn fine_scale(value: nat, floor: nat) -> nat
    decreases
            (if value < floor {
                floor - value
            } else {
                0
            }),
{
    if value == 0 || value >= floor {
        1
    } else {
        2 * fine_scale(2 * value, floor)
    }
}

/// A quotient as a double holds it: `significand / scale`, the scale a power
/// of two.
pub struct BinaryQuotient {
    pub significand: nat,
    pub scale: nat,
}

/// The least numerator that gives a significand of full width over
/// `divisor`.
pub open spec fn normal_floor(divisor: nat) -> nat {
    (SIGNIFICAND_FLOOR as nat) * divisor
}

/// The double nearest to `value / divisor`, for a quotient below two to the
/// power 53: the quotient is scaled up until its integer part has the full
/// width of a significand, and rounded there.
pub open spec fn binary_quotient(value: nat, divisor: nat) -> BinaryQuotient {
    let scale = fine_scale(value, normal_floor(divisor));
    BinaryQuotient { significand: nearest_even(value * scale, divisor), scale: scale }
}

/// The integer nearest to `factor` times the quotient, halves to the even
/// one. This is the rounding of a decimal numeral of the quotient, `factor`
/// being ten to the number of its decimals.
pub open spec fn rounded_multiple(quotient: BinaryQuotient, factor: nat) -> nat {
    nearest_even(quotient.significand * factor, quotient.scale)
}

/// An integer below two to the power 53 is held as it is.
pub proof fn lemma_small_count_is_held(count: nat)
    requires
        count < SIGNIFICAND_BOUND,
    ensures
        held_count(count) == count,
{
    assert(coarse_step(count) == 1);
}

/// The step leaves a significand of full width: from two to the power 53
/// on, the count in steps lies between two to the power 52 and two to the
/// power 53.
pub proof fn lemma_coarse_step_normalizes(count: nat)
    ensures
        coarse_step(count) >= 1,
        count / coarse_step(count) < SIGNIFICAND_BOUND,
        count >= SIGNIFICAND_BOUND ==> count / coarse_step(count) >= SIGNIFICAND_FLOOR,
    decreases count,
{
    if count >= SIGNIFICAND_BOUND {
        let half = count / 2;
        lemma_coarse_step_normalizes(half);
        lemma_div_denominator(count as int, 2, coarse_step(half) as int);
    }
}

/// The scale takes a value below the floor into the floor's binade: the
/// scaled value is at least the floor and less than twice the floor.
pub proof fn lemma_fine_scale_normalizes(value: nat, floor: nat)
    requires
        0 < value < floor,
    ensures
        fine_scale(value, floor) >= 2,
        floor <= value * fine_scale(value, floor) < 2 * floor,
    decreases floor - value,
{
    let twice = 2 * value;
    if twice >= floor {
        assert(value * 2 == twice) by (nonlinear_arith)
            requires
                twice == 2 * value,
        ;
    } else {
        lemma_fine_scale_normalizes(twice, floor);
        let rest = fine_scale(twice, floor);
        assert(value * (2 * rest) == twice * rest) by (nonlinear_arith)
            requires
                twice == 2 * value,
        ;
    }
}

/// The quotient that is held is the double nearest to the true one: its
/// significand has the full width, and it misses the true quotient by half
/// a unit of its last place at most, and by a half only where the
/// significand is even.
pub proof fn lemma_binary_quotient_is_nearest(value: nat, divisor: nat)
    requires
        0 < divisor,
        0 < value < normal_floor(divisor),
    ensures
        SIGNIFICAND_FLOOR <= binary_quotient(value, divisor).significand <= SIGNIFICAND_BOUND,
        2 * vstd::math::abs(
            binary_quotient(value, divisor).significand * divisor - value * binary_quotient(
                value,
                divisor,
            ).scale,
        ) <= divisor,
        2 * vstd::math::abs(
            binary_quotient(value, divisor).significand * divisor - value * binary_quotient(
                value,
                divisor,
            ).scale,
        ) == divisor ==> binary_quotient(value, divisor).significand % 2 == 0,
{
    let floor = normal_floor(divisor);
    let scale = fine_scale(value, floor);
    let scaled = value * scale;
    let significand = nearest_even(scaled, divisor);
    lemma_fine_scale_normalizes(value, floor);
    crate::rounding::lemma_nearest_even_is_nearest(scaled, divisor);
    lemma_fundamental_div_mod(scaled as int, divisor as int);
    assert(SIGNIFICAND_FLOOR <= scaled / divisor < SIGNIFICAND_BOUND) by (nonlinear_arith)
        requires
            0x10_0000_0000_0000 * divisor <= scaled < 2 * (0x10_0000_0000_0000 * divisor),
            scaled == divisor * (scaled / divisor) + scaled % divisor,
            0 <= scaled % divisor < divisor,
    ;
}

/// The step of an integer of 64 bits is a power of two up to 2048, and so
/// divides two to the power 64.
pub proof fn lemma_coarse_step_divides(count: nat)
    requires
        count <= u64::MAX,
    ensures
        1 <= coarse_step(count) <= 2048,
        MAX_HELD as nat % coarse_step(count) == 0,
{
    reveal_with_fuel(coarse_step, 13);
    let step = coarse_step(count);
    assert(step == 1 || step == 2 || step == 4 || step == 8 || step == 16 || step == 32 || step
        == 64 || step == 128 || step == 256 || step == 512 || step == 1024 || step == 2048);
}

/// No double nearest to an integer of 64 bits is above two to the power
/// 64: that power is itself a multiple of the step, and the nearest
/// multiple lies less than a step above the integer.
pub proof fn lemma_held_count_bound(count: nat)
    requires
        count <= u64::MAX,
    ensures
        held_count(count) <= MAX_HELD,
{
    let step = coarse_step(count);
    let near = nearest_even(count, step);
    let bound_steps = MAX_HELD as nat / step;
    lemma_coarse_step_divides(count);
    lemma_fundamental_div_mod(count as int, step as int);
    lemma_fundamental_div_mod(MAX_HELD as int, step as int);
    assert(near * step < count + step) by {
        assert((count / step + 1) * step == step * (count / step) + step) by (nonlinear_arith);
        assert((count / step) * step == step * (count / step)) by (nonlinear_arith);
    }
    assert(near <= bound_steps) by (nonlinear_arith)
        requires
            near * step < MAX_HELD + step,
            MAX_HELD == step * bound_steps,
            step >= 1,
    ;
    assert(near * step <= step * bound_steps) by (nonlinear_arith)
        requires
            near <= bound_steps,
            step >= 1,
    ;
}

/// A quotient as a double holds it, in machine integers.
#[derive(Clone, Copy, Debug)]
pub struct Quotient {
    pub significand: u64,
    pub scale: u128,
}

impl View for Quotient {
    type V = BinaryQuotient;

    open spec fn view(&self) -> BinaryQuotient {
        BinaryQuotient { significand: self.significand as nat, scale: self.scale as nat }
    }
}

/// Holds an integer as a double does: `count as f64`, as an integer.
pub fn hold(count: u64) -> (held: u128)
    ensures
        held == held_count(count as nat),
        held <= MAX_HELD,
{
    let mut top: u64 = count;
    let mut step: u64 = 1;
    while top >= SIGNIFICAND_BOUND
        invariant
            1 <= step <= 4096,
            top == count / step,
            coarse_step(count as nat) == step * coarse_step(top as nat),
        decreases top,
    {
        proof {
            let whole = count as int;
            let by = step as int;
            if by >= 2048 {
                vstd::arithmetic::div_mod::lemma_div_is_ordered_by_denominator(whole, 2048, by);
            }
            lemma_div_denominator(whole, by, 2);
            assert(by * (2 * coarse_step((top / 2) as nat)) == (by * 2) * coarse_step(
                (top / 2) as nat,
            )) by (nonlinear_arith);
        }
        top = top / 2;
        step = step * 2;
    }
    assert(coarse_step(count as nat) == step) by {
        assert(step * 1 == step);
    }
    let near = round_half_even(count as u128, step as u128);
    proof {
        lemma_held_count_bound(count as nat);
    }
    near * (step as u128)
}

/// Divides as doubles divide: `value as f64 / divisor as f64`, for a value
/// that a double holds exactly and a quotient below two to the power 53.
pub fn divide(value: u128, divisor: u64) -> (quotient: Quotient)
    requires
        0 < divisor <= MAX_DIVISOR,
        value < 2 * normal_floor(divisor as nat),
    ensures
        quotient@ == binary_quotient(value as nat, divisor as nat),
        quotient.significand <= SIGNIFICAND_BOUND,
        1 <= quotient.scale <= 2 * normal_floor(divisor as nat),
        value > 0 ==> normal_floor(divisor as nat) <= value * quotient.scale < 2 * normal_floor(
            divisor as nat,
        ),
{
    let floor: u128 = (SIGNIFICAND_FLOOR as u128) * (divisor as u128);
    let mut scaled: u128 = value;
    let mut scale: u128 = 1;
    if value > 0 {
        while scaled < floor
            invariant
                floor == normal_floor(divisor as nat),
                floor <= 0x10_0000_0000_0000 * 0xFFFF_FFFF,
                0 < scaled < 2 * floor,
                scaled == value * scale,
                1 <= scale <= scaled,
                fine_scale(value as nat, floor as nat) == scale * fine_scale(
                    scaled as nat,
                    floor as nat,
                ),
            decreases 2 * floor - scaled,
        {
            proof {
                let rest = fine_scale((2 * scaled) as nat, floor as nat);
                assert(scale * (2 * rest) == (scale * 2) * rest) by (nonlinear_arith);
                assert(value * (scale * 2) == (value * scale) * 2) by (nonlinear_arith);
            }
            scaled = scaled * 2;
            scale = scale * 2;
        }
    }
    assert(fine_scale(value as nat, floor as nat) == scale) by {
        assert(scale * 1 == scale);
    }
    let near = round_half_even(scaled, divisor as u128);
    proof {
        assert(floor as int == divisor as int * (SIGNIFICAND_FLOOR as int)) by (nonlinear_arith)
            requires
                floor as int == (SIGNIFICAND_FLOOR as int) * (divisor as int),
        ;
        vstd::arithmetic::div_mod::lemma_multiply_divide_lt(
            scaled as int,
            divisor as int,
            SIGNIFICAND_BOUND as int,
        );
    }
    Quotient { significand: near as u64, scale }
}

/// Rounds `factor` times a quotient to the nearest integer, halves to the
/// even one.
pub fn multiple(quotient: Quotient, factor: u64) -> (near: u128)
    requires
        1 <= quotient.scale <= u128::MAX / 2,
    ensures
        near == rounded_multiple(quotient@, factor as nat),
        near <= (quotient.significand * factor) / (quotient.scale as int) + 1,
{
    assert(quotient.significand * factor <= 0xFFFF_FFFF_FFFF_FFFF * 0xFFFF_FFFF_FFFF_FFFF)
        by (nonlinear_arith)
        requires
            quotient.significand <= 0xFFFF_FFFF_FFFF_FFFF,
            factor <= 0xFFFF_FFFF_FFFF_FFFF,
    ;
    let whole: u128 = (quotient.significand as u128) * (factor as u128);
    proof {
        vstd::arithmetic::div_mod::lemma_div_is_ordered_by_denominator(
            whole as int,
            1,
            quotient.scale as int,
        );
    }
    round_half_even(whole, quotient.scale)
}

} // verus!
