//! Easing curves: pure shaping functions from fixed-point progress
//! (`0..=UNIT`) to fixed-point shaped progress.
//!
//! Callers clamp progress before applying a curve; the curves themselves
//! stay total so that deliberate overshoot remains possible.

use vstd::prelude::*;
use vstd::arithmetic::div_mod::{lemma_div_is_ordered, lemma_div_pos_is_pos};
use crate::fixed::{UNIT, is_sqrt_floor, sqrt_floor, lemma_sqrt_floor_correct, lemma_sqrt_floor_unique, isqrt};

verus! {

/// Quadratic coefficient of the back curve: 1.70158 in fixed point.
pub const C_BACK_1: i64 = 17_016;

/// Cubic coefficient of the back curve: C_BACK_1 + UNIT.
pub const C_BACK_3: i64 = 27_016;

/// A named curve shape.
#[derive(Clone, Copy, PartialEq, Eq, Structural, Debug)]
pub enum Ease {
    /// Progress is returned unshaped.
    Linear,
    /// Decelerating curve that overshoots the end and settles back.
    OutBack,
    /// Symmetric circular acceleration then deceleration.
    InOutCirc,
}

/// The back curve `1 + c3*(x-1)^3 + c1*(x-1)^2`, in fixed point,
/// with every quotient rounded as the executable code rounds it.
pub open spec fn ease_out_back(x: int) -> int {
    let e = UNIT - x;
    UNIT - (C_BACK_3 * ((e * e) * e)) / 1_000_000_000_000 + (C_BACK_1 * (e * e)) / 100_000_000
}

/// The circular in-out curve: `(1 - sqrt(1-(2x)^2))/2` rising to
/// `(sqrt(1-(2-2x)^2)+1)/2`, in fixed point.
pub open spec fn ease_in_out_circ(x: int) -> int {
    if x < UNIT / 2 {
        let u = 2 * x;
        (UNIT - sqrt_floor((100_000_000 - u * u) as nat)) / 2
    } else {
        let u = 2 * (UNIT - x);
        (sqrt_floor((100_000_000 - u * u) as nat) + UNIT) / 2
    }
}

/// The value of a curve at progress `x`.
pub open spec fn ease_value(e: Ease, x: int) -> int {
    match e {
        Ease::Linear => x,
        Ease::OutBack => ease_out_back(x),
        Ease::InOutCirc => ease_in_out_circ(x),
    }
}

impl Ease {
    /// Apply the curve to a clamped progress value.
    pub fn apply(self, x: i64) -> (r: i64)
        requires
            0 <= x <= UNIT,
        ensures
            r == ease_value(self, x as int),
            -2 * UNIT <= r <= 3 * UNIT,
    {
        proof {
            lemma_ease_value_bounds(self, x as int);
        }
        match self {
            Ease::Linear => x,
            Ease::OutBack => {
                let eu: u64 = (UNIT - x) as u64;
                proof {
                    assert(eu * eu <= 100_000_000) by (nonlinear_arith)
                        requires
                            eu <= 10_000,
                    ;
                    assert((eu * eu) * eu <= 1_000_000_000_000) by (nonlinear_arith)
                        requires
                            eu <= 10_000,
                            eu * eu <= 100_000_000,
                    ;
                    assert(27_016 * ((eu * eu) * eu) <= 27_016_000_000_000_000) by (nonlinear_arith)
                        requires
                            (eu * eu) * eu <= 1_000_000_000_000,
                    ;
                }
                let e2: u64 = eu * eu;
                let e3: u64 = e2 * eu;
                let t3: u64 = (27_016 * e3) / 1_000_000_000_000;
                let t2: u64 = (17_016 * e2) / 100_000_000;
                proof {
                    lemma_div_is_ordered(27_016 * (e3 as int), 27_016_000_000_000_000, 1_000_000_000_000);
                    lemma_div_is_ordered(17_016 * (e2 as int), 1_701_600_000_000, 100_000_000);
                    lemma_div_pos_is_pos(27_016 * (e3 as int), 1_000_000_000_000);
                    lemma_div_pos_is_pos(17_016 * (e2 as int), 100_000_000);
                }
                UNIT - (t3 as i64) + (t2 as i64)
            },
            Ease::InOutCirc => {
                if x < 5_000 {
                    let u: u64 = (2 * x) as u64;
                    proof {
                        assert(u * u < 100_000_000) by (nonlinear_arith)
                            requires
                                u <= 9_998,
                        ;
                    }
                    let s: u64 = isqrt(100_000_000 - u * u);
                    proof {
                        lemma_sqrt_in_unit((100_000_000 - u * u) as nat);
                    }
                    ((10_000 - s) / 2) as i64
                } else {
                    let u: u64 = (2 * (UNIT - x)) as u64;
                    proof {
                        assert(u * u <= 100_000_000) by (nonlinear_arith)
                            requires
                                u <= 10_000,
                        ;
                    }
                    let s: u64 = isqrt(100_000_000 - u * u);
                    proof {
                        lemma_sqrt_in_unit((100_000_000 - u * u) as nat);
                    }
                    ((s + 10_000) / 2) as i64
                }
            },
        }
    }
}

/// The square root of a value at most `UNIT^2` is at most `UNIT`.
pub proof fn lemma_sqrt_in_unit(v: nat)
    requires
        v <= 100_000_000,
    ensures
        sqrt_floor(v) <= 10_000,
{
    lemma_sqrt_floor_correct(v);
    let s = sqrt_floor(v) as int;
    assert(s <= 10_000) by (nonlinear_arith)
        requires
            s * s <= v,
            v <= 100_000_000,
            s >= 0,
    ;
}

/// Every curve stays within loose fixed-point bounds on clamped progress.
pub proof fn lemma_ease_value_bounds(e: Ease, x: int)
    requires
        0 <= x <= UNIT,
    ensures
        -2 * UNIT <= ease_value(e, x) <= 3 * UNIT,
{
    match e {
        Ease::Linear => {},
        Ease::OutBack => {
            let ev = UNIT - x;
            assert(0 <= (ev * ev) * ev <= 1_000_000_000_000 && 0 <= ev * ev <= 100_000_000)
                by (nonlinear_arith)
                requires
                    0 <= ev <= 10_000,
            ;
            assert(0 <= C_BACK_3 * ((ev * ev) * ev) <= 27_016_000_000_000_000) by (nonlinear_arith)
                requires
                    0 <= (ev * ev) * ev <= 1_000_000_000_000,
            ;
            assert(0 <= C_BACK_1 * (ev * ev) <= 1_701_600_000_000) by (nonlinear_arith)
                requires
                    0 <= ev * ev <= 100_000_000,
            ;
            lemma_div_is_ordered(C_BACK_3 * ((ev * ev) * ev), 27_016_000_000_000_000, 1_000_000_000_000);
            lemma_div_is_ordered(C_BACK_1 * (ev * ev), 1_701_600_000_000, 100_000_000);
            lemma_div_pos_is_pos(C_BACK_3 * ((ev * ev) * ev), 1_000_000_000_000);
            lemma_div_pos_is_pos(C_BACK_1 * (ev * ev), 100_000_000);
        },
        Ease::InOutCirc => {
            if x < UNIT / 2 {
                let u = 2 * x;
                assert(0 <= u * u < 100_000_000) by (nonlinear_arith)
                    requires
                        0 <= u <= 9_998,
                ;
                let v = (100_000_000 - u * u) as nat;
                lemma_sqrt_in_unit(v);
                lemma_div_pos_is_pos(UNIT - sqrt_floor(v), 2);
                lemma_div_is_ordered(UNIT - sqrt_floor(v), 10_000, 2);
            } else {
                let u = 2 * (UNIT - x);
                assert(0 <= u * u <= 100_000_000) by (nonlinear_arith)
                    requires
                        0 <= u <= 10_000,
                ;
                let v = (100_000_000 - u * u) as nat;
                lemma_sqrt_in_unit(v);
                lemma_div_pos_is_pos(sqrt_floor(v) + UNIT, 2);
                lemma_div_is_ordered(sqrt_floor(v) + UNIT, 20_000, 2);
            }
        },
    }
}

/// Every curve ends exactly at one.
pub proof fn lemma_ease_at_one(e: Ease)
    ensures
        ease_value(e, UNIT as int) == UNIT,
{
    match e {
        Ease::Linear => {},
        Ease::OutBack => {
            let ev = UNIT - UNIT as int;
            assert(ev * ev == 0) by (nonlinear_arith)
                requires
                    ev == 0,
            ;
            assert((ev * ev) * ev == 0) by (nonlinear_arith)
                requires
                    ev == 0,
            ;
        },
        Ease::InOutCirc => {
            let u = 2 * (UNIT - UNIT as int);
            assert(u * u == 0) by (nonlinear_arith)
                requires
                    u == 0,
            ;
            assert(is_sqrt_floor(100_000_000, 10_000)) by (nonlinear_arith);
            lemma_sqrt_floor_unique(100_000_000, 10_000);
        },
    }
}

} // verus!

