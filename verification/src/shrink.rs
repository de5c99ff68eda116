//! Arithmetic of the shrinking schedule: every attempt scales both sides of
//! the picture to nine tenths of the previous attempt, rounded down, and no
//! attempt is made with a side of a hundred pixels or fewer.

use vstd::prelude::*;
use vstd::arithmetic::power::{lemma_pow0, lemma_pow_positive, pow};

verus! {

/// A side of this many pixels or fewer is never rendered.
pub const FLOOR: u32 = 100;

/// One side after one shrinking step: nine tenths of it, rounded down.
pub open spec fn shrunk(side: nat) -> nat {
    side * 9 / 10
}

/// One side after `steps` shrinking steps, each applied to the result of the
/// step before it.
pub open spec fn attempt(side: nat, steps: nat) -> nat
    decreases steps,
{
    if steps == 0 {
        side
    } else {
        shrunk(attempt(side, (steps - 1) as nat))
    }
}

/// Whether a picture of this size is still above the floor on both sides.
pub open spec fn above_floor(width: nat, height: nat) -> bool {
    width > FLOOR && height > FLOOR
}

/// The number of attempts that a picture of this size allows: the shrinking
/// steps after which both sides are still above the floor.
pub open spec fn rounds(width: nat, height: nat) -> nat
    decreases width,
{
    if above_floor(shrunk(width), shrunk(height)) {
        1 + rounds(shrunk(width), shrunk(height))
    } else {
        0
    }
}

/// Scales one side down by one step.
pub fn shrink(side: u32) -> (out: u32)
    ensures
        out == shrunk(side as nat),
{
    let wide: u64 = side as u64;
    let scaled: u64 = wide * 9 / 10;
    scaled as u32
}

/// The size of the next attempt, or nothing where that attempt would reach
/// the floor.
pub fn next_attempt(width: u32, height: u32) -> (out: Option<(u32, u32)>)
    ensures
        out == if above_floor(shrunk(width as nat), shrunk(height as nat)) {
            Some((shrunk(width as nat) as u32, shrunk(height as nat) as u32))
        } else {
            None
        },
{
    let next_width = shrink(width);
    let next_height = shrink(height);
    if next_width > FLOOR && next_height > FLOOR {
        Some((next_width, next_height))
    } else {
        None
    }
}

/// A step never enlarges a side, and makes a side above zero smaller.
pub proof fn lemma_shrunk_is_smaller(side: nat)
    ensures
        shrunk(side) <= side,
        side > 0 ==> shrunk(side) < side,
{
}

/// Steps compose: `more` further steps after `steps` steps are
/// `steps + more` steps.
pub proof fn lemma_attempt_continues(side: nat, steps: nat, more: nat)
    ensures
        attempt(attempt(side, steps), more) == attempt(side, steps + more),
    decreases more,
{
    if more > 0 {
        lemma_attempt_continues(side, steps, (more - 1) as nat);
        assert(steps + more - 1 == steps + (more - 1));
    }
}

/// Compounding: after `steps` steps a side is never above nine tenths to the
/// power of `steps` of what it was, and less than ten pixels below it. Stated
/// without fractions: `10^steps * attempt <= 9^steps * side` and
/// `9^steps * side < 10^steps * (attempt + 10)`.
pub proof fn lemma_compounding(side: nat, steps: nat)
    ensures
        pow(10, steps) * attempt(side, steps) <= pow(9, steps) * side,
        pow(9, steps) * side < pow(10, steps) * (attempt(side, steps) + 10),
{
    lemma_compounding_bounds(side, steps);
    lemma_pow_positive(9, steps);
    let tens = pow(10, steps);
    let reached = attempt(side, steps) as int;
    assert(tens * (reached + 10) == tens * reached + 10 * tens) by (nonlinear_arith);
}

/// The two bounds of which `lemma_compounding` is the readable form: the
/// lower one says that the loss is at most `10 * (1 - 0.9^steps)` pixels.
proof fn lemma_compounding_bounds(side: nat, steps: nat)
    ensures
        pow(10, steps) * attempt(side, steps) <= pow(9, steps) * side,
        pow(9, steps) * side - 10 * (pow(10, steps) - pow(9, steps)) <= pow(10, steps) * attempt(
            side,
            steps,
        ),
    decreases steps,
{
    if steps == 0 {
        lemma_pow0(9);
        lemma_pow0(10);
    } else {
        let before = (steps - 1) as nat;
        lemma_compounding_bounds(side, before);
        let a = attempt(side, before) as int;
        let b = attempt(side, steps) as int;
        let nines = pow(9, before);
        let tens = pow(10, before);
        let s = side as int;
        assert(pow(9, steps) == 9 * nines) by {
            reveal(pow);
        }
        assert(pow(10, steps) == 10 * tens) by {
            reveal(pow);
        }
        lemma_pow_positive(10, before);
        lemma_pow_positive(9, before);
        assert(10 * b <= 9 * a);
        assert(9 * a - 9 <= 10 * b);
        assert((10 * tens) * b <= (9 * nines) * s) by (nonlinear_arith)
            requires
                10 * b <= 9 * a,
                tens * a <= nines * s,
                tens > 0,
        ;
        assert((9 * nines) * s - 10 * (10 * tens - 9 * nines) <= (10 * tens) * b) by (nonlinear_arith)
            requires
                9 * a - 9 <= 10 * b,
                nines * s - 10 * (tens - nines) <= tens * a,
                tens > 0,
        ;
    }
}

/// Every attempt that is made is above the floor on both sides, and the one
/// after the last would not be: `rounds` counts exactly the attempts.
pub proof fn lemma_rounds_are_the_attempts(width: nat, height: nat)
    ensures
        forall|k: nat|
            1 <= k <= rounds(width, height) ==> above_floor(
                #[trigger] attempt(width, k),
                attempt(height, k),
            ),
        !above_floor(
            attempt(width, rounds(width, height) + 1),
            attempt(height, rounds(width, height) + 1),
        ),
    decreases width,
{
    let w = shrunk(width);
    let h = shrunk(height);
    assert(attempt(width, 1) == w && attempt(height, 1) == h) by {
        reveal_with_fuel(attempt, 2);
    }
    if above_floor(w, h) {
        lemma_rounds_are_the_attempts(w, h);
        let n = rounds(w, h);
        assert forall|k: nat| 1 <= k <= rounds(width, height) implies above_floor(
            #[trigger] attempt(width, k),
            attempt(height, k),
        ) by {
            if k > 1 {
                lemma_attempt_continues(width, 1, (k - 1) as nat);
                lemma_attempt_continues(height, 1, (k - 1) as nat);
                assert(above_floor(attempt(w, (k - 1) as nat), attempt(h, (k - 1) as nat)));
            }
        }
        lemma_attempt_continues(width, 1, n + 1);
        lemma_attempt_continues(height, 1, n + 1);
    }
}

/// The schedule is short: every attempt takes a tenth off both sides, so
/// while attempts are made, `FLOOR * 10^rounds` stays below
/// `9^rounds * side` for either side.
pub proof fn lemma_rounds_are_few(width: nat, height: nat)
    requires
        rounds(width, height) >= 1,
    ensures
        FLOOR * pow(10, rounds(width, height)) < pow(9, rounds(width, height)) * width,
        FLOOR * pow(10, rounds(width, height)) < pow(9, rounds(width, height)) * height,
{
    let n = rounds(width, height);
    lemma_rounds_are_the_attempts(width, height);
    assert(above_floor(attempt(width, n), attempt(height, n)));
    lemma_compounding(width, n);
    lemma_compounding(height, n);
    lemma_pow_positive(10, n);
    let tens = pow(10, n);
    let w = attempt(width, n) as int;
    let h = attempt(height, n) as int;
    assert(100 * tens < tens * w) by (nonlinear_arith)
        requires
            tens > 0,
            w > 100,
    ;
    assert(100 * tens < tens * h) by (nonlinear_arith)
        requires
            tens > 0,
            h > 100,
    ;
}

/// The schedule ends: there are no more attempts than the width has pixels,
/// nor than the height has.
pub proof fn lemma_rounds_are_bounded(width: nat, height: nat)
    ensures
        rounds(width, height) <= width,
        rounds(width, height) <= height,
    decreases width,
{
    if above_floor(shrunk(width), shrunk(height)) {
        lemma_rounds_are_bounded(shrunk(width), shrunk(height));
    }
}

} // verus!
