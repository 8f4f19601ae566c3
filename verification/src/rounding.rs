//! Rounding of a quotient to the nearest integer, halves to the even one.

use vstd::prelude::*;
use vstd::arithmetic::div_mod::{lemma_fundamental_div_mod, lemma_fundamental_div_mod_converse};
use vstd::math::abs;

verus! {

/// The integer nearest to `num / den`; a quotient exactly halfway between
/// two integers goes to the even one.
pub open spec fn nearest_even(num: nat, den: nat) -> nat {
    let below = num / den;
    let rest = num % den;
    if 2 * rest > den || (2 * rest == den && below % 2 == 1) {
        below + 1
    } else {
        below
    }
}

/// The rounded quotient misses the true one by a half at most, and by a
/// half only where it is even.
pub proof fn lemma_nearest_even_is_nearest(num: nat, den: nat)
    requires
        den > 0,
    ensures
        2 * abs(nearest_even(num, den) * den - num) <= den,
        2 * abs(nearest_even(num, den) * den - num) == den ==> nearest_even(num, den) % 2 == 0,
{
    let below = num / den;
    lemma_fundamental_div_mod(num as int, den as int);
    assert((below + 1) * den == below * den + den) by (nonlinear_arith);
}

/// An integer that misses the quotient by less than a half is the rounded
/// quotient.
pub proof fn lemma_nearest_is_unique(num: nat, den: nat, near: nat)
    requires
        den > 0,
        2 * abs(near * den - num) < den,
    ensures
        nearest_even(num, den) == near,
{
    lemma_fundamental_div_mod(num as int, den as int);
    if near * den <= num {
        // The quotient lies less than a half above `near`.
        let rest = num - near * den;
        lemma_fundamental_div_mod_converse(num as int, den as int, near as int, rest);
    } else {
        // The quotient lies less than a half below `near`.
        let rest = den - (near * den - num);
        assert(near > 0) by (nonlinear_arith)
            requires
                near * den > num,
                num >= 0,
                den > 0,
        ;
        assert((near - 1) * den == near * den - den) by (nonlinear_arith);
        lemma_fundamental_div_mod_converse(num as int, den as int, near - 1, rest);
    }
}

/// Rounds `num / den` to the nearest integer, halves to the even one.
pub fn round_half_even(num: u128, den: u128) -> (near: u128)
    requires
        0 < den <= u128::MAX / 2,
        num / den < u128::MAX,
    ensures
        near == nearest_even(num as nat, den as nat),
{
    let below: u128 = num / den;
    let rest: u128 = num % den;
    if 2 * rest > den || (2 * rest == den && below % 2 == 1) {
        below + 1
    } else {
        below
    }
}

} // verus!
