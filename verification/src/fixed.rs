//! Fixed-point arithmetic for the motion engine.
//!
//! All fractional quantities (progress, eased progress, world coordinates,
//! rotation angles, scale factors) are stored as `i64` values scaled by
//! `UNIT`: a stored value `v` stands for the real number `v / UNIT`.

use vstd::prelude::*;
use vstd::arithmetic::div_mod::{lemma_div_is_ordered, lemma_div_pos_is_pos};

verus! {

/// Scale of all fixed-point quantities: four decimal places.
pub const UNIT: i64 = 10_000;

/// Largest magnitude allowed for a fixed-point world value
/// (coordinates, tween range endpoints): 10^5 world units.
pub const VAL_MAX: i64 = 1_000_000_000;

/// Largest magnitude allowed for a position in flight (a follower chasing
/// a target can sit far outside the world bound for a while).
pub const POS_MAX: i64 = 50_000_000_000_000;

/// `r` is the integer square root (floor) of `n`.
pub open spec fn is_sqrt_floor(n: int, r: int) -> bool {
    0 <= r && r * r <= n && n < (r + 1) * (r + 1)
}

/// The integer square root of `n`, rounded down, as a recurrence.
pub open spec fn sqrt_floor(n: nat) -> nat
    decreases n,
{
    if n == 0 {
        0
    } else {
        let r = sqrt_floor((n - 1) as nat);
        if (r + 1) * (r + 1) <= n {
            r + 1
        } else {
            r
        }
    }
}

/// `sqrt_floor(n)` satisfies the square-root bracketing.
pub proof fn lemma_sqrt_floor_correct(n: nat)
    ensures
        is_sqrt_floor(n as int, sqrt_floor(n) as int),
    decreases n,
{
    if n > 0 {
        lemma_sqrt_floor_correct((n - 1) as nat);
        let r = sqrt_floor((n - 1) as nat);
        if (r + 1) * (r + 1) <= n {
            assert(((r + 1) + 1) * ((r + 1) + 1) > n) by (nonlinear_arith)
                requires
                    n - 1 < (r + 1) * (r + 1),
                    r >= 0,
            ;
        }
    }
}

/// Only one value satisfies the square-root bracketing.
pub proof fn lemma_sqrt_floor_unique(n: int, r: int)
    requires
        n >= 0,
        is_sqrt_floor(n, r),
    ensures
        r == sqrt_floor(n as nat),
{
    lemma_sqrt_floor_correct(n as nat);
    let s = sqrt_floor(n as nat) as int;
    if r < s {
        assert((r + 1) * (r + 1) <= s * s) by (nonlinear_arith)
            requires
                0 <= r,
                r + 1 <= s,
        ;
    }
    if s < r {
        assert((s + 1) * (s + 1) <= r * r) by (nonlinear_arith)
            requires
                0 <= s,
                s + 1 <= r,
        ;
    }
}

/// Integer square root, rounded down.
pub fn isqrt(n: u64) -> (r: u64)
    ensures
        r == sqrt_floor(n as nat),
        is_sqrt_floor(n as int, r as int),
{
    let mut lo: u64 = 0;
    let mut hi: u64 = 0x1_0000_0000;
    while lo + 1 < hi
        invariant
            lo < hi <= 0x1_0000_0000,
            (lo as int) * (lo as int) <= n as int,
            (n as int) < (hi as int) * (hi as int),
        decreases hi - lo,
    {
        let mid = lo + (hi - lo) / 2;
        assert((mid as int) * (mid as int) < 0x1_0000_0000 * 0x1_0000_0000) by (nonlinear_arith)
            requires
                mid < 0x1_0000_0000,
        ;
        if mid * mid <= n {
            lo = mid;
        } else {
            hi = mid;
        }
    }
    proof {
        lemma_sqrt_floor_unique(n as int, lo as int);
    }
    lo
}

/// Fixed-point product `a * f / UNIT`, with the quotient rounded
/// toward zero exactly as the executable code computes it.
pub open spec fn scale_mul(a: int, f: int) -> int {
    if a * f >= 0 {
        (a * f) / (UNIT as int)
    } else {
        -((-(a * f)) / (UNIT as int))
    }
}

/// The scaled product is bounded by the unscaled one's bound over `UNIT`.
pub proof fn lemma_scale_mul_bound(a: int, f: int, m: int)
    requires
        0 <= m,
        -m <= a * f <= m,
    ensures
        -(m / (UNIT as int)) <= scale_mul(a, f) <= m / (UNIT as int),
{
    if a * f >= 0 {
        lemma_div_is_ordered(a * f, m, UNIT as int);
        lemma_div_pos_is_pos(a * f, UNIT as int);
        lemma_div_pos_is_pos(m, UNIT as int);
    } else {
        lemma_div_is_ordered(-(a * f), m, UNIT as int);
        lemma_div_pos_is_pos(-(a * f), UNIT as int);
    }
}

/// Scaling by the fixed-point one is the identity.
pub proof fn lemma_scale_mul_unit(a: int)
    ensures
        scale_mul(a, UNIT as int) == a,
{
    if a >= 0 {
        assert(a * (UNIT as int) == a * UNIT);
        assert(a * UNIT / (UNIT as int) == a) by (nonlinear_arith);
    } else {
        assert(-(a * (UNIT as int)) == (-a) * (UNIT as int)) by (nonlinear_arith);
        assert((-a) * UNIT / (UNIT as int) == -a) by (nonlinear_arith);
    }
}

/// Each coordinate lies within the in-flight position bound.
pub open spec fn pos_bounded(x: int, y: int) -> bool {
    -POS_MAX <= x <= POS_MAX && -POS_MAX <= y <= POS_MAX
}

/// A scaled product with a factor in `0..=UNIT` lies between zero and the
/// unscaled operand.
pub proof fn lemma_scale_mul_within(a: int, f: int)
    requires
        0 <= f <= UNIT,
    ensures
        a >= 0 ==> 0 <= scale_mul(a, f) <= a,
        a < 0 ==> a <= scale_mul(a, f) <= 0,
{
    if a >= 0 {
        assert(0 <= a * f <= a * UNIT) by (nonlinear_arith)
            requires
                0 <= f <= UNIT,
                a >= 0,
        ;
        lemma_div_pos_is_pos(a * f, UNIT as int);
        lemma_div_is_ordered(a * f, a * (UNIT as int), UNIT as int);
        assert(a * (UNIT as int) / (UNIT as int) == a) by (nonlinear_arith);
    } else {
        assert(a * f <= 0 && 0 <= -(a * f) <= (-a) * UNIT) by (nonlinear_arith)
            requires
                0 <= f <= UNIT,
                a < 0,
        ;
        lemma_div_pos_is_pos(-(a * f), UNIT as int);
        lemma_div_is_ordered(-(a * f), (-a) * (UNIT as int), UNIT as int);
        assert((-a) * (UNIT as int) / (UNIT as int) == -a) by (nonlinear_arith);
        if a * f == 0 {
            assert(scale_mul(a, f) == 0);
        }
    }
}

/// Fixed-point multiply-and-rescale: `a * f / UNIT`, rounded toward zero.
pub fn mul_unit(a: i64, f: i64) -> (r: i64)
    requires
        -2 * POS_MAX <= a <= 2 * POS_MAX,
        -30_000 <= f <= 30_000,
    ensures
        r == scale_mul(a as int, f as int),
        -6 * POS_MAX <= r <= 6 * POS_MAX,
{
    let aa: u64 = if a < 0 { (-a) as u64 } else { a as u64 };
    let ff: u64 = if f < 0 { (-f) as u64 } else { f as u64 };
    proof {
        assert(aa * ff <= 100_000_000_000_000 * 30_000) by (nonlinear_arith)
            requires
                aa <= 100_000_000_000_000,
                ff <= 30_000,
        ;
    }
    let q = (aa * ff) / 10_000;
    let neg = (a < 0) != (f < 0);
    proof {
        assert(aa as int * ff as int == if a as int * f as int >= 0 {
            a as int * f as int
        } else {
            -(a as int * f as int)
        }) by (nonlinear_arith)
            requires
                aa == if a < 0 { -(a as int) } else { a as int },
                ff == if f < 0 { -(f as int) } else { f as int },
        ;
        lemma_div_pos_is_pos(aa as int * ff as int, UNIT as int);
        lemma_div_is_ordered(aa as int * ff as int, 3_000_000_000_000_000_000, UNIT as int);
        if neg && a as int * f as int >= 0 {
            // one factor is zero: the product and quotient are zero
            assert(a as int * f as int == 0) by (nonlinear_arith)
                requires
                    (a < 0) != (f < 0),
                    a as int * f as int >= 0,
            ;
        }
        if !neg {
            assert(a as int * f as int >= 0) by (nonlinear_arith)
                requires
                    (a < 0) == (f < 0),
            ;
        }
    }
    if neg {
        -(q as i64)
    } else {
        q as i64
    }
}

/// A two-dimensional point or translation, in fixed-point world units.
#[derive(Clone, Copy, PartialEq, Eq, Structural, Debug, Default)]
pub struct Vec2Fx {
    pub x: i64,
    pub y: i64,
}

impl Vec2Fx {
    /// Both coordinates lie within the world bound.
    pub open spec fn wf(self) -> bool {
        -VAL_MAX <= self.x <= VAL_MAX && -VAL_MAX <= self.y <= VAL_MAX
    }

    pub fn new(x: i64, y: i64) -> (r: Vec2Fx)
        ensures
            r.x == x && r.y == y,
    {
        Vec2Fx { x, y }
    }

    /// The origin.
    pub fn zero() -> (r: Vec2Fx)
        ensures
            r.x == 0 && r.y == 0,
    {
        Vec2Fx { x: 0, y: 0 }
    }
}

} // verus!
