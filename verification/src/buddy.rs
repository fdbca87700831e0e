//! Buddy entities: sides, slots, attributes, the idle wobble, and the
//! placement follower that chases a pad's resolved position.

use vstd::prelude::*;
use crate::AppState;
use crate::animate::{AnimateRange, DUR_MAX};
use crate::ease::Ease;
use crate::fixed::{UNIT, Vec2Fx, pos_bounded, scale_mul, mul_unit, lemma_scale_mul_unit,
    lemma_scale_mul_within};
use crate::rng::{gen_range_u64, random_bool};

verus! {

/// Number of slots on each side.
pub const MAX_PER_SIDE: usize = 3;

/// Largest accepted base value of an attribute.
pub const ATTR_MAX: usize = 1_000_000;

/// Largest accepted magnitude of an attribute's current value.
pub const ATTR_VAL_MAX: isize = 1_000_000_000;

/// Which battlefield half (or the shop staging row) an entity belongs to.
#[derive(Clone, Copy, PartialEq, Eq, Structural, Debug)]
pub enum Side {
    Left,
    Right,
    Shop,
}

impl Default for Side {
    fn default() -> (r: Side)
        ensures
            r == Side::Left,
    {
        Side::Left
    }
}

/// A discrete position index on one side. `base` is the assigned slot;
/// `current` may transiently differ during reassignment animations.
#[derive(Clone, Copy, PartialEq, Eq, Structural, Debug)]
pub struct Slot {
    pub current: usize,
    pub base: usize,
}

impl Slot {
    /// Both indices lie within the side's capacity.
    pub open spec fn wf(self) -> bool {
        self.current < MAX_PER_SIDE && self.base < MAX_PER_SIDE
    }

    pub fn new(slot: usize) -> (r: Slot)
        requires
            slot < MAX_PER_SIDE,
        ensures
            r.current == slot && r.base == slot,
            r.wf(),
    {
        Slot { current: slot, base: slot }
    }

    /// Force the current index back to the assigned one.
    pub fn reset(&mut self)
        ensures
            final(self).current == old(self).base,
            final(self).base == old(self).base,
    {
        self.current = self.base;
    }
}

impl Default for Slot {
    fn default() -> (r: Slot)
        ensures
            r.current == 0 && r.base == 0,
    {
        Slot::new(0)
    }
}

/// A placeable creature entity.
#[derive(Clone, Copy, PartialEq, Eq, Structural, Debug)]
pub struct Buddy {
    pub alive: bool,
}

impl Default for Buddy {
    fn default() -> (r: Buddy)
        ensures
            r.alive,
    {
        Buddy { alive: true }
    }
}

/// A stat with an assigned base and a current value that battle damage
/// lowers; the current value may go negative, but reads clamp it at zero.
#[derive(Clone, Copy, PartialEq, Eq, Structural, Debug)]
pub struct Attribute {
    pub base: usize,
    pub value: isize,
}

impl Attribute {
    pub open spec fn wf(self) -> bool {
        self.base <= ATTR_MAX && -ATTR_VAL_MAX <= self.value <= ATTR_VAL_MAX
    }

    pub fn new(base: usize) -> (r: Attribute)
        requires
            base <= ATTR_MAX,
        ensures
            r.base == base && r.value == base,
            r.wf(),
    {
        Attribute { base, value: base as isize }
    }

    /// Restore the current value to the base.
    pub fn reset(&mut self)
        requires
            old(self).wf(),
        ensures
            final(self).base == old(self).base,
            final(self).value == old(self).base,
            final(self).wf(),
    {
        self.value = self.base as isize;
    }

    /// The current value, clamped at zero.
    pub fn value(&self) -> (r: usize)
        requires
            self.wf(),
        ensures
            r == (if self.value >= 0 { self.value as int } else { 0 }),
    {
        if self.value < 0 {
            0
        } else {
            self.value as usize
        }
    }

    /// Lower the current value by `amount`.
    pub fn remove(&mut self, amount: usize)
        requires
            old(self).wf(),
            amount <= ATTR_MAX,
            old(self).value - amount >= -ATTR_VAL_MAX,
        ensures
            final(self).base == old(self).base,
            final(self).value == old(self).value - amount,
            final(self).wf(),
    {
        self.value = self.value - (amount as isize);
    }
}

/// A buddy's health stat.
#[derive(Clone, Copy, PartialEq, Eq, Structural, Debug)]
pub struct Health(pub Attribute);

impl Default for Health {
    fn default() -> (r: Health)
        ensures
            r.0.base == 1 && r.0.value == 1,
            r.0.wf(),
    {
        Health(Attribute::new(1))
    }
}

/// A buddy's strength stat.
#[derive(Clone, Copy, PartialEq, Eq, Structural, Debug)]
pub struct Strength(pub Attribute);

impl Default for Strength {
    fn default() -> (r: Strength)
        ensures
            r.0.base == 1 && r.0.value == 1,
            r.0.wf(),
    {
        Strength(Attribute::new(1))
    }
}

/// The face drawn on a buddy.
#[derive(Clone, Copy, PartialEq, Eq, Structural, Debug)]
pub enum BuddyFace {
    Happy,
    Neutral,
}

impl BuddyFace {
    /// The sprite sheet path of this face.
    pub fn get_path(&self) -> (r: &'static str)
        ensures
            r@ == (match *self {
                BuddyFace::Happy => "buddy/face/happy.png"@,
                BuddyFace::Neutral => "buddy/face/neutral.png"@,
            }),
    {
        match self {
            BuddyFace::Happy => "buddy/face/happy.png",
            BuddyFace::Neutral => "buddy/face/neutral.png",
        }
    }

    /// Draw a face at random.
    pub fn random() -> BuddyFace {
        let index = gen_range_u64(0, 2);
        if index == 0 {
            BuddyFace::Happy
        } else {
            BuddyFace::Neutral
        }
    }
}

impl Default for BuddyFace {
    fn default() -> (r: BuddyFace)
        ensures
            r == BuddyFace::Happy,
    {
        BuddyFace::Happy
    }
}

/// Whether a face sprite is mirrored: buddies on the left side face right,
/// everyone else faces left.
pub fn face_flip_x(side: &Side) -> (r: bool)
    ensures
        r == (*side != Side::Left),
{
    match side {
        Side::Left => false,
        Side::Right => true,
        Side::Shop => true,
    }
}

/// A buddy's body tint, with channels in fixed per-mille (`0..=1000`).
#[derive(Clone, Copy, PartialEq, Eq, Structural, Debug, Default)]
pub struct BuddyColor {
    pub r: u16,
    pub g: u16,
    pub b: u16,
}

impl BuddyColor {
    /// The tint is one of the three palette entries.
    pub open spec fn in_palette(self) -> bool {
        ||| self == (BuddyColor { r: 670, g: 530, b: 530 })
        ||| self == (BuddyColor { r: 530, g: 670, b: 530 })
        ||| self == (BuddyColor { r: 530, g: 530, b: 670 })
    }

    /// Draw one of the palette tints at random.
    pub fn random() -> (r: BuddyColor)
        ensures
            r.in_palette(),
    {
        let index = gen_range_u64(0, 3);
        if index == 0 {
            BuddyColor { r: 670, g: 530, b: 530 }
        } else if index == 1 {
            BuddyColor { r: 530, g: 670, b: 530 }
        } else {
            BuddyColor { r: 530, g: 530, b: 670 }
        }
    }
}

/// The blink timer: a buddy alternates between a long open-eyed span and a
/// short blink, each span's length drawn at random.
#[derive(Clone, Copy, PartialEq, Eq, Structural, Debug)]
pub struct BuddyBlink {
    pub timer_duration_ms: u64,
    pub timer_elapsed_ms: u64,
    pub is_blinking: bool,
}

/// The span length fits the state: blinks are short, open spans long.
pub open spec fn blink_duration_ok(is_blinking: bool, d: u64) -> bool {
    if is_blinking {
        50 <= d < 200
    } else {
        10_000 <= d < 20_000
    }
}

impl BuddyBlink {
    pub open spec fn wf(self) -> bool {
        self.timer_elapsed_ms <= self.timer_duration_ms && self.timer_duration_ms <= DUR_MAX
    }

    /// The tick advancing by `delta_ms` crosses the end of the span.
    pub open spec fn fires(self, delta_ms: u64) -> bool {
        self.timer_elapsed_ms < self.timer_duration_ms
            && self.timer_elapsed_ms + delta_ms >= self.timer_duration_ms
    }

    /// Start a span of the given kind with a freshly drawn length.
    pub fn new(is_blinking: bool) -> (r: BuddyBlink)
        ensures
            r.is_blinking == is_blinking,
            r.timer_elapsed_ms == 0,
            blink_duration_ok(is_blinking, r.timer_duration_ms),
            r.wf(),
    {
        let duration = if is_blinking {
            gen_range_u64(50, 200)
        } else {
            gen_range_u64(10_000, 20_000)
        };
        BuddyBlink { timer_duration_ms: duration, timer_elapsed_ms: 0, is_blinking }
    }

    /// Advance the blink timer; when the span ends, start the opposite
    /// span. Returns whether the eyes are closed after this tick.
    pub fn blink(&mut self, delta_ms: u64) -> (r: bool)
        requires
            old(self).wf(),
        ensures
            r == final(self).is_blinking,
            final(self).wf(),
            old(self).fires(delta_ms) ==> {
                &&& final(self).is_blinking == !old(self).is_blinking
                &&& final(self).timer_elapsed_ms == 0
                &&& blink_duration_ok(final(self).is_blinking, final(self).timer_duration_ms)
            },
            !old(self).fires(delta_ms) ==> *final(self) == (BuddyBlink {
                timer_elapsed_ms: if old(self).timer_elapsed_ms + delta_ms
                    >= old(self).timer_duration_ms {
                    old(self).timer_duration_ms
                } else {
                    (old(self).timer_elapsed_ms + delta_ms) as u64
                },
                ..*old(self)
            }),
    {
        let rem = self.timer_duration_ms - self.timer_elapsed_ms;
        if self.timer_elapsed_ms < self.timer_duration_ms && delta_ms >= rem {
            *self = BuddyBlink::new(!self.is_blinking);
        } else if delta_ms >= rem {
            self.timer_elapsed_ms = self.timer_duration_ms;
        } else {
            self.timer_elapsed_ms = self.timer_elapsed_ms + delta_ms;
        }
        self.is_blinking
    }
}

impl Default for BuddyBlink {
    fn default() -> (r: BuddyBlink)
        ensures
            !r.is_blinking,
            r.timer_elapsed_ms == 0,
            blink_duration_ok(false, r.timer_duration_ms),
            r.wf(),
    {
        BuddyBlink::new(false)
    }
}

/// Rotation amplitude of the idle wobble: 0.05 pi radians in fixed point.
pub const WOBBLE_ROT: i64 = 1_571;

/// Lateral amplitude of the idle wobble: 10 world units in fixed point.
pub const WOBBLE_TRANS: i64 = 100_000;

/// Shortest wobble cycle, in milliseconds.
pub const WOBBLE_DUR_MIN: u64 = 2_000;

/// Longest wobble cycle, in milliseconds (exclusive).
pub const WOBBLE_DUR_MAX: u64 = 5_000;

/// The transform a wobble produces: a lateral offset and a rotation about
/// the forward axis, both fixed point.
#[derive(Clone, Copy, PartialEq, Eq, Structural, Debug)]
pub struct WobbleTransform {
    pub x_offset: i64,
    pub z_rotation: i64,
}

/// The idle wobble: rotation and lateral offset tweens with linked ranges,
/// rebuilt with the direction flipped each time the rotation completes.
#[derive(Clone, Copy, PartialEq, Eq, Structural, Debug)]
pub struct BuddyWobble {
    pub animate_rotation: AnimateRange,
    pub animate_translation: AnimateRange,
    pub flipped: bool,
}

/// The wobble state reached by seeding fresh tweens of the given direction
/// and cycle length at the fraction `percent` of the cycle.
pub open spec fn wobble_seeded(flipped: bool, percent: int, duration_ms: u64) -> BuddyWobble {
    BuddyWobble {
        animate_rotation: (AnimateRange {
            start: if flipped { WOBBLE_ROT } else { (-WOBBLE_ROT) as i64 },
            end: if flipped { (-WOBBLE_ROT) as i64 } else { WOBBLE_ROT },
            duration_ms,
            elapsed_ms: 0,
            ease: Ease::InOutCirc,
            looping: false,
            just_finished: false,
        }).with_percent(percent),
        animate_translation: (AnimateRange {
            start: if flipped { (-WOBBLE_TRANS) as i64 } else { WOBBLE_TRANS },
            end: if flipped { WOBBLE_TRANS } else { (-WOBBLE_TRANS) as i64 },
            duration_ms,
            elapsed_ms: 0,
            ease: Ease::InOutCirc,
            looping: false,
            just_finished: false,
        }).with_percent(percent),
        flipped,
    }
}

impl BuddyWobble {
    pub open spec fn wf(self) -> bool {
        self.animate_rotation.wf() && self.animate_translation.wf()
    }

    /// Build a wobble of the given direction and cycle length, seeded at
    /// the fraction `percent` of the cycle.
    pub fn new_seeded(flipped: bool, percent: i64, duration_ms: u64) -> (r: BuddyWobble)
        requires
            0 <= percent <= UNIT,
            duration_ms <= DUR_MAX,
        ensures
            r == wobble_seeded(flipped, percent as int, duration_ms),
            r.wf(),
    {
        let rot: i64 = WOBBLE_ROT;
        let trans: i64 = WOBBLE_TRANS;
        let mut animate_rotation = if flipped {
            AnimateRange::new(duration_ms, Ease::InOutCirc, rot, -rot, false)
        } else {
            AnimateRange::new(duration_ms, Ease::InOutCirc, -rot, rot, false)
        };
        let mut animate_translation = if flipped {
            AnimateRange::new(duration_ms, Ease::InOutCirc, -trans, trans, false)
        } else {
            AnimateRange::new(duration_ms, Ease::InOutCirc, trans, -trans, false)
        };
        animate_rotation.set_percent(percent);
        animate_translation.set_percent(percent);
        BuddyWobble { animate_rotation, animate_translation, flipped }
    }

    /// Build a wobble of the given direction seeded at `percent`, with the
    /// cycle length drawn at random from the wobble range.
    pub fn new(flipped: bool, percent: i64) -> (r: BuddyWobble)
        requires
            0 <= percent <= UNIT,
        ensures
            exists|d: u64| WOBBLE_DUR_MIN <= d < WOBBLE_DUR_MAX
                && r == #[trigger] wobble_seeded(flipped, percent as int, d),
            r.flipped == flipped,
            r.wf(),
    {
        let duration_ms = gen_range_u64(WOBBLE_DUR_MIN, WOBBLE_DUR_MAX);
        BuddyWobble::new_seeded(flipped, percent, duration_ms)
    }

    /// Advance both sub-tweens and return this tick's transform. When the
    /// rotation tween completes, the wobble rebuilds itself with the
    /// direction flipped and a fresh cycle length, so the direction flag
    /// toggles exactly on the ticks whose rotation tween just finished.
    pub fn wobble(&mut self, delta_ms: u64) -> (t: WobbleTransform)
        requires
            old(self).wf(),
        ensures
            t.z_rotation == old(self).animate_rotation.stepped(delta_ms).sample(),
            t.x_offset == old(self).animate_translation.stepped(delta_ms).sample(),
            final(self).wf(),
            // the flip happens exactly when the rotation tween fires
            (final(self).flipped != old(self).flipped)
                == old(self).animate_rotation.stepped(delta_ms).just_finished,
            old(self).animate_rotation.stepped(delta_ms).just_finished ==> exists|d: u64|
                WOBBLE_DUR_MIN <= d < WOBBLE_DUR_MAX
                    && *final(self) == #[trigger] wobble_seeded(final(self).flipped, 0, d),
            !old(self).animate_rotation.stepped(delta_ms).just_finished ==> *final(self)
                == (BuddyWobble {
                animate_rotation: old(self).animate_rotation.stepped(delta_ms),
                animate_translation: old(self).animate_translation.stepped(delta_ms),
                flipped: old(self).flipped,
            }),
    {
        let z_rot = self.animate_rotation.tick(delta_ms);
        let x = self.animate_translation.tick(delta_ms);
        if self.animate_rotation.just_finished() {
            *self = BuddyWobble::new(!self.flipped, 0);
        }
        WobbleTransform { x_offset: x, z_rotation: z_rot }
    }

    /// How often a flag is raised over a trace of ticks.
    pub open spec fn count_true(s: Seq<bool>) -> int
        decreases s.len(),
    {
        if s.len() == 0 {
            0
        } else {
            Self::count_true(s.drop_last()) + if s.last() {
                1int
            } else {
                0int
            }
        }
    }

    /// How often the direction changes along a trace of direction flags
    /// (one flag per tick boundary, so one more flag than ticks).
    pub open spec fn count_flips(flags: Seq<bool>) -> int
        decreases flags.len(),
    {
        if flags.len() <= 1 {
            0
        } else {
            Self::count_flips(flags.drop_last()) + if flags.last() != flags[flags.len() - 2] {
                1int
            } else {
                0int
            }
        }
    }

    /// Build a wobble with a random direction and a random initial phase,
    /// so that instances created together do not visually synchronize.
    pub fn new_random() -> (r: BuddyWobble)
        ensures
            r.wf(),
    {
        let flipped = random_bool();
        let percent = gen_range_u64(0, 10_000);
        BuddyWobble::new(flipped, percent as i64)
    }
}

impl Default for BuddyWobble {
    fn default() -> (r: BuddyWobble)
        ensures
            r.wf(),
    {
        BuddyWobble::new_random()
    }
}

/// Over any simulated duration, the number of direction flips equals the
/// number of completions of the wobble's rotation tween, and the direction
/// alternates strictly: each completion toggles it, nothing else moves it.
/// `flags` holds the direction flag at every tick boundary and `fired` the
/// rotation tween's completion event of every tick, linked tick by tick as
/// `wobble`'s contract links them.
pub proof fn lemma_wobble_flip_count(flags: Seq<bool>, fired: Seq<bool>)
    requires
        flags.len() == fired.len() + 1,
        forall|k: int| 0 <= k < fired.len() ==> flags[k + 1] == (if fired[k] {
            !flags[k]
        } else {
            flags[k]
        }),
    ensures
        BuddyWobble::count_flips(flags) == BuddyWobble::count_true(fired),
    decreases fired.len(),
{
    if fired.len() > 0 {
        lemma_wobble_flip_count(flags.drop_last(), fired.drop_last());
        assert(flags[flags.len() - 1] == (if fired.last() {
            !flags[flags.len() - 2]
        } else {
            flags[flags.len() - 2]
        }));
    }
}

/// A fixed local offset appended after a buddy follows its pad.
#[derive(Clone, Copy, PartialEq, Eq, Structural, Debug, Default)]
pub struct Offset(pub Vec2Fx);

/// A pad's resolved placement for one tick, as the follower reads it.
#[derive(Clone, Copy, PartialEq, Eq, Structural, Debug)]
pub struct PadPlacement {
    pub position: Vec2Fx,
    pub side: Side,
    pub slot: Slot,
}

/// The pad serves the follower's side and current slot index.
pub open spec fn pad_matches(p: PadPlacement, side: Side, slot: Slot) -> bool {
    p.side == side && p.slot.current == slot.current
}

/// Some pad in the list serves this side and slot.
pub open spec fn has_pad_match(pads: Seq<PadPlacement>, side: Side, slot: Slot) -> bool {
    exists|j: int| 0 <= j < pads.len() && pad_matches(pads[j], side, slot)
}

/// Linear interpolation of one coordinate by a fixed-point amount.
pub open spec fn lerp_val(a: int, b: int, amt: int) -> int {
    a + scale_mul(b - a, amt)
}

/// Where a follower at `current` ends up after one tick of chasing
/// `target`: a clamped exponential chase during the shop phase, an exact
/// snap otherwise, with the local offset appended either way.
pub open spec fn follow_target(
    current: Vec2Fx,
    target: Vec2Fx,
    off: Vec2Fx,
    phase: AppState,
    delta_ms: u64,
) -> (int, int) {
    if phase == AppState::Shop {
        let amt = if delta_ms >= 200 { UNIT as int } else { delta_ms * 50 };
        (lerp_val(current.x as int, target.x as int, amt) + off.x,
            lerp_val(current.y as int, target.y as int, amt) + off.y)
    } else {
        (target.x + off.x, target.y + off.y)
    }
}

/// Interpolate between two positions; the amount is clamped at `UNIT`, so
/// a saturated amount lands exactly on `end`.
pub fn lerp(start: Vec2Fx, end: Vec2Fx, amount: i64) -> (r: Vec2Fx)
    requires
        pos_bounded(start.x as int, start.y as int),
        pos_bounded(end.x as int, end.y as int),
        0 <= amount,
    ensures
        r.x == lerp_val(start.x as int, end.x as int,
            if amount > UNIT { UNIT as int } else { amount as int }),
        r.y == lerp_val(start.y as int, end.y as int,
            if amount > UNIT { UNIT as int } else { amount as int }),
        pos_bounded(r.x as int, r.y as int),
        amount >= UNIT ==> r == end,
{
    let amt = if amount > UNIT {
        UNIT
    } else {
        amount
    };
    proof {
        lemma_scale_mul_within(end.x - start.x, amt as int);
        lemma_scale_mul_within(end.y - start.y, amt as int);
        if amt == UNIT {
            lemma_scale_mul_unit(end.x - start.x);
            lemma_scale_mul_unit(end.y - start.y);
        }
    }
    let x = start.x + mul_unit(end.x - start.x, amt);
    let y = start.y + mul_unit(end.y - start.y, amt);
    Vec2Fx { x, y }
}

/// Find the first pad serving this side and current slot index.
pub fn find_pad(pads: &Vec<PadPlacement>, side: &Side, slot: &Slot) -> (r: Option<usize>)
    ensures
        match r {
            Some(i) => i < pads.len() && pad_matches(pads@[i as int], *side, *slot)
                && forall|j: int| 0 <= j < i ==> !pad_matches(pads@[j], *side, *slot),
            None => !has_pad_match(pads@, *side, *slot),
        },
{
    let mut i: usize = 0;
    while i < pads.len()
        invariant
            i <= pads.len(),
            forall|j: int| 0 <= j < i ==> !pad_matches(pads@[j], *side, *slot),
        decreases pads.len() - i,
    {
        if pads[i].side == *side && pads[i].slot.current == slot.current {
            return Some(i);
        }
        i = i + 1;
    }
    None
}

/// One follower tick: find the pad serving this buddy's side and current
/// slot and follow it (chase in the shop phase, snap elsewhere), append the
/// local offset, then let an active drag override the position outright.
/// A buddy with no matching pad keeps its position this tick.
pub fn move_buddy(
    transform: &mut Vec2Fx,
    side: &Side,
    slot: &Slot,
    offset: &Offset,
    pads: &Vec<PadPlacement>,
    state: &AppState,
    delta_ms: u64,
    drag: Option<Vec2Fx>,
)
    requires
        pos_bounded(old(transform).x as int, old(transform).y as int),
        offset.0.wf(),
        forall|j: int| 0 <= j < pads@.len()
            ==> pos_bounded(#[trigger] pads@[j].position.x as int, pads@[j].position.y as int),
    ensures
        match drag {
            Some(d) => final(transform).x == d.x && final(transform).y == d.y,
            None => {
                if has_pad_match(pads@, *side, *slot) {
                    exists|i: int|
                        {
                            &&& 0 <= i < pads@.len()
                            &&& pad_matches(#[trigger] pads@[i], *side, *slot)
                            &&& forall|j: int| 0 <= j < i ==> !pad_matches(pads@[j], *side, *slot)
                            &&& final(transform).x == follow_target(*old(transform),
                                pads@[i].position, offset.0, *state, delta_ms).0
                            &&& final(transform).y == follow_target(*old(transform),
                                pads@[i].position, offset.0, *state, delta_ms).1
                        }
                } else {
                    *final(transform) == *old(transform)
                }
            },
        },
{
    match find_pad(pads, side, slot) {
        Some(i) => {
            let target = pads[i].position;
            if *state == AppState::Shop {
                let amt: i64 = if delta_ms >= 200 {
                    UNIT
                } else {
                    (delta_ms * 50) as i64
                };
                let l = lerp(*transform, target, amt);
                transform.x = l.x + offset.0.x;
                transform.y = l.y + offset.0.y;
            } else {
                transform.x = target.x + offset.0.x;
                transform.y = target.y + offset.0.y;
            }
        },
        None => {},
    }
    if let Some(d) = drag {
        transform.x = d.x;
        transform.y = d.y;
    }
}

/// Quarter-turn rotation steps available to the outline flicker.
pub const OUTLINE_STEPS: u32 = 5;

/// A quarter turn (0.5 pi radians) in fixed point.
pub const QUARTER_TURN: i64 = 15_708;

/// Draw a rotation step for the outline flicker that differs from the one
/// currently shown: a uniform draw over the remaining steps.
pub fn pick_outline_rotation(old_step: u32) -> (r: u32)
    ensures
        r < OUTLINE_STEPS,
        r != old_step,
{
    let i = gen_range_u64(0, 4) as u32;
    if i >= old_step {
        i + 1
    } else {
        i
    }
}

/// The rotation angle of an outline step, in fixed-point radians.
pub fn outline_rotation_angle(step: u32) -> (r: i64)
    requires
        step < OUTLINE_STEPS,
    ensures
        r == step * QUARTER_TURN,
{
    (step as i64) * QUARTER_TURN
}

/// Everything a freshly placed buddy carries.
#[derive(Clone, Copy, PartialEq, Eq, Structural, Debug)]
pub struct BuddyBundle {
    pub buddy: Buddy,
    pub health: Health,
    pub strength: Strength,
    pub face: BuddyFace,
    pub blink: BuddyBlink,
    pub position_offset: Offset,
    pub slot: Slot,
    pub color: BuddyColor,
    pub side: Side,
    pub transform: Vec2Fx,
}

/// The stats and look of a buddy before it is placed.
#[derive(Clone, Copy, PartialEq, Eq, Structural, Debug)]
pub struct BuddyTemplate {
    pub face: BuddyFace,
    pub health: usize,
    pub strength: usize,
    pub color: BuddyColor,
}

impl BuddyTemplate {
    /// Draw a template for the given round: stats grow with the round.
    pub fn random_for_round(round: usize) -> (r: BuddyTemplate)
        requires
            round <= 1_000_000 - 2,
        ensures
            1 <= r.health < 2 + round,
            1 <= r.strength < 2 + round,
            r.color.in_palette(),
    {
        let strength = gen_range_u64(1, (2 + round) as u64);
        let health = gen_range_u64(1, (2 + round) as u64);
        BuddyTemplate {
            face: BuddyFace::random(),
            health: health as usize,
            strength: strength as usize,
            color: BuddyColor::random(),
        }
    }

    /// Turn the template into a placed bundle at the given side and slot.
    pub fn spawn(self, slot: usize, side: Side, transform: Vec2Fx) -> (r: BuddyBundle)
        requires
            slot < MAX_PER_SIDE,
            self.health <= ATTR_MAX,
            self.strength <= ATTR_MAX,
        ensures
            r.buddy.alive,
            r.color == self.color,
            r.face == self.face,
            r.health.0.base == self.health && r.health.0.value == self.health,
            r.strength.0.base == self.strength && r.strength.0.value == self.strength,
            r.side == side,
            r.slot.current == slot && r.slot.base == slot,
            r.transform == transform,
            r.position_offset.0.x == 0 && r.position_offset.0.y == 0,
            !r.blink.is_blinking && r.blink.wf(),
    {
        BuddyBundle {
            buddy: Buddy { alive: true },
            health: Health(Attribute::new(self.health)),
            strength: Strength(Attribute::new(self.strength)),
            face: self.face,
            blink: BuddyBlink::new(false),
            position_offset: Offset(Vec2Fx { x: 0, y: 0 }),
            slot: Slot::new(slot),
            color: self.color,
            side,
            transform,
        }
    }
}

} // verus!
