//! The resumable tween primitive: time-driven interpolation between two
//! fixed-point values through an easing curve.

use vstd::prelude::*;
use vstd::arithmetic::div_mod::{
    lemma_div_is_ordered, lemma_div_multiples_vanish, lemma_div_pos_is_pos, lemma_mod_multiples_vanish,
    lemma_multiply_divide_le, lemma_multiply_divide_lt, lemma_small_mod,
};
use crate::ease::{Ease, ease_value, lemma_ease_at_one, lemma_ease_value_bounds};
use crate::fixed::{UNIT, VAL_MAX, mul_unit, scale_mul, lemma_scale_mul_bound, lemma_scale_mul_unit};

verus! {

/// Longest accepted duration, in milliseconds.
pub const DUR_MAX: u64 = 1_000_000_000_000;

/// A resumable, reversible interpolation over a numeric range.
///
/// Direction is encoded by the range: `start > end` runs backwards.
/// `elapsed_ms` never exceeds `duration_ms`; a looping tween wraps instead
/// of clamping. `just_finished` holds exactly after the tick on which
/// `elapsed_ms` crossed (or wrapped past) the duration.
#[derive(Clone, Copy, PartialEq, Eq, Structural, Debug)]
pub struct AnimateRange {
    pub start: i64,
    pub end: i64,
    pub duration_ms: u64,
    pub elapsed_ms: u64,
    pub ease: Ease,
    pub looping: bool,
    pub just_finished: bool,
}

impl AnimateRange {
    /// Range endpoints within world bounds, duration within the time bound,
    /// elapsed time never past the duration.
    pub open spec fn wf(self) -> bool {
        &&& -VAL_MAX <= self.start <= VAL_MAX
        &&& -VAL_MAX <= self.end <= VAL_MAX
        &&& self.duration_ms <= DUR_MAX
        &&& self.elapsed_ms <= self.duration_ms
    }

    /// Progress through the duration, in fixed point, clamped to `UNIT`;
    /// a zero duration counts as fully complete.
    pub open spec fn progress(self) -> int {
        if self.duration_ms == 0 {
            UNIT as int
        } else {
            (self.elapsed_ms * UNIT) / (self.duration_ms as int)
        }
    }

    /// The output value at the current elapsed time.
    pub open spec fn sample(self) -> int {
        self.start + scale_mul(self.end - self.start, ease_value(self.ease, self.progress()))
    }

    /// The state reached from `self` by advancing time by `delta_ms`.
    pub open spec fn stepped(self, delta_ms: u64) -> AnimateRange {
        if self.duration_ms == 0 {
            AnimateRange { just_finished: false, ..self }
        } else if self.looping {
            AnimateRange {
                elapsed_ms: ((self.elapsed_ms + delta_ms) % (self.duration_ms as int)) as u64,
                just_finished: self.elapsed_ms + delta_ms >= self.duration_ms,
                ..self
            }
        } else {
            AnimateRange {
                elapsed_ms: if self.elapsed_ms + delta_ms >= self.duration_ms {
                    self.duration_ms
                } else {
                    (self.elapsed_ms + delta_ms) as u64
                },
                just_finished: self.elapsed_ms < self.duration_ms
                    && self.elapsed_ms + delta_ms >= self.duration_ms,
                ..self
            }
        }
    }

    /// The state with elapsed time seeded to the fraction `p` of the duration.
    pub open spec fn with_percent(self, p: int) -> AnimateRange {
        AnimateRange {
            elapsed_ms: ((p * self.duration_ms) / (UNIT as int)) as u64,
            ..self
        }
    }

    /// Construct a tween at elapsed time zero.
    pub fn new(duration_ms: u64, ease: Ease, start: i64, end: i64, looping: bool) -> (r: AnimateRange)
        requires
            duration_ms <= DUR_MAX,
            -VAL_MAX <= start <= VAL_MAX,
            -VAL_MAX <= end <= VAL_MAX,
        ensures
            r == (AnimateRange {
                start,
                end,
                duration_ms,
                elapsed_ms: 0,
                ease,
                looping,
                just_finished: false,
            }),
            r.wf(),
    {
        AnimateRange { start, end, duration_ms, elapsed_ms: 0, ease, looping, just_finished: false }
    }

    /// The progress value, as executable fixed point.
    fn progress_fx(&self) -> (r: i64)
        requires
            self.wf(),
        ensures
            r == self.progress(),
            0 <= r <= UNIT,
    {
        if self.duration_ms == 0 {
            UNIT
        } else {
            proof {
                assert(self.elapsed_ms * UNIT <= self.duration_ms * UNIT) by (nonlinear_arith)
                    requires
                        self.elapsed_ms <= self.duration_ms,
                ;
                assert((self.duration_ms * UNIT) / (self.duration_ms as int) == UNIT) by {
                    assert(self.duration_ms * UNIT == (self.duration_ms as int) * (UNIT as int));
                    lemma_div_multiples_vanish(UNIT as int, self.duration_ms as int);
                    assert((self.duration_ms as int) * (UNIT as int) == (UNIT as int) * (self.duration_ms as int)) by (nonlinear_arith);
                }
                lemma_div_is_ordered(
                    self.elapsed_ms * UNIT,
                    self.duration_ms * UNIT,
                    self.duration_ms as int,
                );
                lemma_div_pos_is_pos(self.elapsed_ms * UNIT, self.duration_ms as int);
            }
            ((self.elapsed_ms * 10_000) / self.duration_ms) as i64
        }
    }

    /// The current output value: range start plus the eased fraction of the
    /// range, exactly as `sample` states it.
    pub fn value(&self) -> (r: i64)
        requires
            self.wf(),
        ensures
            r == self.sample(),
            -7 * VAL_MAX <= r <= 7 * VAL_MAX,
    {
        let p = self.progress_fx();
        let eased = self.ease.apply(p);
        let diff = self.end - self.start;
        proof {
            assert(-60_000_000_000_000 <= (diff as int) * (eased as int) <= 60_000_000_000_000)
                by (nonlinear_arith)
                requires
                    -2_000_000_000 <= diff <= 2_000_000_000,
                    -30_000 <= eased <= 30_000,
            ;
            lemma_scale_mul_bound(diff as int, eased as int, 60_000_000_000_000);
        }
        self.start + mul_unit(diff, eased)
    }

    /// Advance elapsed time by `delta_ms` and return the new output value.
    pub fn tick(&mut self, delta_ms: u64) -> (r: i64)
        requires
            old(self).wf(),
        ensures
            *final(self) == old(self).stepped(delta_ms),
            final(self).wf(),
            r == final(self).sample(),
            -7 * VAL_MAX <= r <= 7 * VAL_MAX,
    {
        if self.duration_ms == 0 {
            self.just_finished = false;
        } else if self.looping {
            let crossed = delta_ms >= self.duration_ms - self.elapsed_ms;
            let d = delta_ms % self.duration_ms;
            let sum = self.elapsed_ms + d;
            proof {
                let dur = self.duration_ms as int;
                let q = (delta_ms as int) / dur;
                assert(delta_ms == dur * q + d) by (nonlinear_arith)
                    requires
                        dur > 0,
                        q == (delta_ms as int) / dur,
                        d == (delta_ms as int) % dur,
                ;
                lemma_mod_multiples_vanish(q, self.elapsed_ms + d, dur);
                if sum >= self.duration_ms {
                    lemma_mod_multiples_vanish(1, sum - dur, dur);
                    lemma_small_mod((sum - dur) as nat, dur as nat);
                } else {
                    lemma_small_mod(sum as nat, dur as nat);
                }
            }
            self.elapsed_ms = if sum >= self.duration_ms { sum - self.duration_ms } else { sum };
            self.just_finished = crossed;
        } else {
            if delta_ms >= self.duration_ms - self.elapsed_ms {
                self.just_finished = self.elapsed_ms < self.duration_ms;
                self.elapsed_ms = self.duration_ms;
            } else {
                self.elapsed_ms = self.elapsed_ms + delta_ms;
                self.just_finished = false;
            }
        }
        self.value()
    }

    /// Seed the tween at the fraction `p` (fixed point, `0..=UNIT`) of its
    /// duration, leaving everything else untouched.
    pub fn set_percent(&mut self, p: i64)
        requires
            old(self).wf(),
            0 <= p <= UNIT,
        ensures
            *final(self) == old(self).with_percent(p as int),
            final(self).wf(),
    {
        proof {
            let dur = self.duration_ms as int;
            assert(p * dur <= UNIT * dur) by (nonlinear_arith)
                requires
                    0 <= p <= UNIT,
                    dur >= 0,
            ;
            lemma_div_pos_is_pos(p * dur, UNIT as int);
            lemma_multiply_divide_le(p * dur, UNIT as int, dur);
            assert(UNIT * dur == (UNIT as int) * dur) by (nonlinear_arith);
        }
        self.elapsed_ms = ((p as u64) * self.duration_ms) / 10_000;
    }

    /// Rewind to elapsed time zero and clear the finished flag.
    pub fn reset(&mut self)
        ensures
            *final(self) == (AnimateRange { elapsed_ms: 0, just_finished: false, ..*old(self) }),
    {
        self.elapsed_ms = 0;
        self.just_finished = false;
    }

    /// Whether the last tick crossed (or wrapped past) the duration.
    pub fn just_finished(&self) -> (r: bool)
        ensures
            r == self.just_finished,
    {
        self.just_finished
    }

    /// The tween has reached its duration.
    pub open spec fn complete(self) -> bool {
        self.elapsed_ms == self.duration_ms
    }
}

/// A completed (or zero-duration) tween outputs exactly its end value.
pub proof fn lemma_sample_at_end(t: AnimateRange)
    requires
        t.wf(),
        t.complete() || t.duration_ms == 0,
    ensures
        t.sample() == t.end,
{
    if t.duration_ms > 0 {
        let dur = t.duration_ms as int;
        assert(t.elapsed_ms * UNIT == dur * (UNIT as int)) by (nonlinear_arith)
            requires
                t.elapsed_ms == dur,
        ;
        lemma_div_multiples_vanish(UNIT as int, dur);
    }
    assert(t.progress() == UNIT as int);
    lemma_ease_at_one(t.ease);
    lemma_scale_mul_unit(t.end - t.start);
}

/// A non-looping tween completes exactly once: the tick whose cumulative
/// elapsed time reaches the duration outputs the end value and raises
/// `just_finished`; `just_finished` is false on every other tick, and no
/// later tick raises it again.
pub proof fn lemma_tick_completion(t: AnimateRange, delta_ms: u64)
    requires
        t.wf(),
        !t.looping,
        t.duration_ms > 0,
    ensures
        t.stepped(delta_ms).just_finished <==> (t.elapsed_ms < t.duration_ms
            && t.elapsed_ms + delta_ms >= t.duration_ms),
        t.elapsed_ms + delta_ms >= t.duration_ms ==> t.stepped(delta_ms).sample() == t.end,
        t.elapsed_ms + delta_ms >= t.duration_ms ==> forall|d2: u64|
            !(#[trigger] t.stepped(delta_ms).stepped(d2)).just_finished,
{
    if t.elapsed_ms + delta_ms >= t.duration_ms {
        lemma_sample_at_end(t.stepped(delta_ms));
    }
}

/// Seeding a fresh tween to the fraction `p` of its duration reaches the
/// same state as one tick of `p * duration / UNIT`: the seed hides no state.
pub proof fn lemma_set_percent_matches_tick(t: AnimateRange, p: int)
    requires
        t.wf(),
        t.elapsed_ms == 0,
        !t.just_finished,
        0 <= p < UNIT,
    ensures
        t.with_percent(p) == t.stepped(((p * t.duration_ms) / (UNIT as int)) as u64),
{
    let dur = t.duration_ms as int;
    let delta = (p * dur) / (UNIT as int);
    lemma_div_pos_is_pos(p * dur, UNIT as int);
    if dur > 0 {
        assert(p * dur < UNIT * dur) by (nonlinear_arith)
            requires
                0 <= p < UNIT,
                dur > 0,
        ;
        assert(UNIT * dur == (UNIT as int) * dur) by (nonlinear_arith);
        lemma_multiply_divide_lt(p * dur, UNIT as int, dur);
        if t.looping {
            lemma_small_mod(delta as nat, dur as nat);
        }
    } else {
        assert(p * dur == 0) by (nonlinear_arith)
            requires
                dur == 0,
        ;
    }
}

/// The multiplicative-scale variant of the tween: identical mechanics, but
/// the output stands for a scale factor (fixed point, `UNIT` is unit scale)
/// rather than a positional offset.
#[derive(Clone, Copy, PartialEq, Eq, Structural, Debug)]
pub struct AnimateScale {
    pub anim: AnimateRange,
}

impl AnimateScale {
    pub open spec fn wf(self) -> bool {
        self.anim.wf()
    }

    /// Construct a scale tween at elapsed time zero.
    pub fn new(duration_ms: u64, ease: Ease, start: i64, end: i64, looping: bool) -> (r: AnimateScale)
        requires
            duration_ms <= DUR_MAX,
            -VAL_MAX <= start <= VAL_MAX,
            -VAL_MAX <= end <= VAL_MAX,
        ensures
            r.anim == (AnimateRange {
                start,
                end,
                duration_ms,
                elapsed_ms: 0,
                ease,
                looping,
                just_finished: false,
            }),
            r.wf(),
    {
        AnimateScale { anim: AnimateRange::new(duration_ms, ease, start, end, looping) }
    }

    /// Advance the scale tween and return the current scale factor.
    pub fn tick(&mut self, delta_ms: u64) -> (r: i64)
        requires
            old(self).wf(),
        ensures
            final(self).anim == old(self).anim.stepped(delta_ms),
            final(self).wf(),
            r == final(self).anim.sample(),
    {
        self.anim.tick(delta_ms)
    }

    /// Seed the scale tween at a fraction of its duration.
    pub fn set_percent(&mut self, p: i64)
        requires
            old(self).wf(),
            0 <= p <= UNIT,
        ensures
            final(self).anim == old(self).anim.with_percent(p as int),
            final(self).wf(),
    {
        self.anim.set_percent(p)
    }

    /// Whether the last tick crossed the duration.
    pub fn just_finished(&self) -> (r: bool)
        ensures
            r == self.anim.just_finished,
    {
        self.anim.just_finished()
    }

    /// Rewind to elapsed time zero.
    pub fn reset(&mut self)
        ensures
            final(self).anim == (AnimateRange { elapsed_ms: 0, just_finished: false, ..old(self).anim }),
    {
        self.anim.reset()
    }
}

} // verus!
