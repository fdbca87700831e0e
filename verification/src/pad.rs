//! Pad anchors: each pad owns six independently resumable tweens, two per
//! side kind, and the current application state selects which one drives
//! the pad's phase offset each tick.

use vstd::prelude::*;
use crate::AppState;
use crate::animate::{AnimateRange, lemma_sample_at_end};
use crate::buddy::{Side, Slot, MAX_PER_SIDE};
use crate::ease::Ease;
use crate::fixed::{Vec2Fx, pos_bounded};

verus! {

/// Distance between neighbouring slots, fixed point (180 world units).
pub const PAD_SPACING: i64 = 1_800_000;

/// Resting distance of a side's first slot from the centre line (120 units).
pub const SIDE_SPACING: i64 = 1_200_000;

/// Off-screen parking position of the right side (1500 units).
pub const RIGHT_PAD_OUT: i64 = 15_000_000;

/// Centering offset of the left side's resting layout:
/// `(MAX_PER_SIDE - 1) * PAD_SPACING / 2` (180 units).
pub const PAD_CENTER_OFFSET: i64 = 1_800_000;

/// Resting vertical offset of the shop row (-200 units).
pub const SHOP_PAD_OFFSET: i64 = -2_000_000;

/// Off-screen vertical parking position of the shop row (-800 units).
pub const SHOP_PAD_OUT: i64 = -8_000_000;

/// A pad anchor: six owned tweens whose ranges are fixed per side and
/// phase; exactly one is live at any moment.
#[derive(Clone, Copy, PartialEq, Eq, Structural, Debug)]
pub struct Pad {
    pub right_animate_in: AnimateRange,
    pub right_animate_out: AnimateRange,
    pub left_animate_center: AnimateRange,
    pub left_animate_side: AnimateRange,
    pub shop_animate_in: AnimateRange,
    pub shop_animate_out: AnimateRange,
}

/// The tween's fixed configuration: range, duration, curve; progress free.
pub open spec fn range_config(t: AnimateRange, start: i64, end: i64, duration_ms: u64) -> bool {
    &&& t.start == start
    &&& t.end == end
    &&& t.duration_ms == duration_ms
    &&& t.ease == Ease::InOutCirc
    &&& !t.looping
}

impl Pad {
    pub open spec fn wf(self) -> bool {
        &&& self.right_animate_in.wf()
        &&& self.right_animate_out.wf()
        &&& self.left_animate_center.wf()
        &&& self.left_animate_side.wf()
        &&& self.shop_animate_in.wf()
        &&& self.shop_animate_out.wf()
    }

    /// All six tweens carry their canonical ranges.
    pub open spec fn has_default_ranges(self) -> bool {
        &&& range_config(self.right_animate_out, SIDE_SPACING, RIGHT_PAD_OUT, 1_500)
        &&& range_config(self.right_animate_in, RIGHT_PAD_OUT, SIDE_SPACING, 2_000)
        &&& range_config(self.left_animate_center, (-SIDE_SPACING) as i64, PAD_CENTER_OFFSET, 1_500)
        &&& range_config(self.left_animate_side, PAD_CENTER_OFFSET, (-SIDE_SPACING) as i64, 2_000)
        &&& range_config(self.shop_animate_out, SHOP_PAD_OFFSET, SHOP_PAD_OUT, 1_500)
        &&& range_config(self.shop_animate_in, SHOP_PAD_OUT, SHOP_PAD_OFFSET, 1_500)
    }
}

impl Default for Pad {
    /// A fresh pad rests where the shop phase leaves it: the two resting
    /// tweens (right out, left center) are seeded complete so that the pad
    /// does not replay its entry animation, and the other four sit at zero.
    fn default() -> (r: Pad)
        ensures
            r.wf(),
            r.has_default_ranges(),
            r.right_animate_out.complete(),
            r.left_animate_center.complete(),
            r.right_animate_in.elapsed_ms == 0,
            r.left_animate_side.elapsed_ms == 0,
            r.shop_animate_in.elapsed_ms == 0,
            r.shop_animate_out.elapsed_ms == 0,
            !r.right_animate_out.just_finished && !r.left_animate_center.just_finished,
    {
        let mut value = Pad {
            right_animate_out: AnimateRange::new(
                1_500,
                Ease::InOutCirc,
                SIDE_SPACING,
                RIGHT_PAD_OUT,
                false,
            ),
            right_animate_in: AnimateRange::new(
                2_000,
                Ease::InOutCirc,
                RIGHT_PAD_OUT,
                SIDE_SPACING,
                false,
            ),
            left_animate_center: AnimateRange::new(
                1_500,
                Ease::InOutCirc,
                -SIDE_SPACING,
                PAD_CENTER_OFFSET,
                false,
            ),
            left_animate_side: AnimateRange::new(
                2_000,
                Ease::InOutCirc,
                PAD_CENTER_OFFSET,
                -SIDE_SPACING,
                false,
            ),
            shop_animate_out: AnimateRange::new(
                1_500,
                Ease::InOutCirc,
                SHOP_PAD_OFFSET,
                SHOP_PAD_OUT,
                false,
            ),
            shop_animate_in: AnimateRange::new(
                1_500,
                Ease::InOutCirc,
                SHOP_PAD_OUT,
                SHOP_PAD_OFFSET,
                false,
            ),
        };
        proof {
            assert((10_000int * 1_500) / 10_000 == 1_500);
        }
        value.right_animate_out.set_percent(10_000);
        value.left_animate_center.set_percent(10_000);
        value
    }
}

/// A pad entity before it is placed: the anchor with its side and slot.
#[derive(Clone, Copy, PartialEq, Eq, Structural, Debug)]
pub struct PadBundle {
    pub pad: Pad,
    pub slot: Slot,
    pub side: Side,
    pub transform: Vec2Fx,
}

/// Build one pad entity for the given side and slot.
pub fn spawn_pad(side: Side, slot: Slot) -> (r: PadBundle)
    ensures
        r.side == side,
        r.slot == slot,
        r.pad.wf(),
        r.pad.has_default_ranges(),
        r.pad.right_animate_out.complete(),
        r.pad.left_animate_center.complete(),
        r.transform.x == 0 && r.transform.y == 0,
{
    PadBundle { pad: Pad::default(), slot, side, transform: Vec2Fx { x: 0, y: 0 } }
}

/// Build the battlefield's pads: one left and one right pad per slot,
/// interleaved left-first.
pub fn spawn_pads() -> (r: Vec<PadBundle>)
    ensures
        r@.len() == 2 * MAX_PER_SIDE,
        forall|i: int| 0 <= i < MAX_PER_SIDE ==> {
            &&& (#[trigger] r@[2 * i]).side == Side::Left
            &&& r@[2 * i].slot.current == i && r@[2 * i].slot.base == i
            &&& r@[2 * i + 1].side == Side::Right
            &&& r@[2 * i + 1].slot.current == i && r@[2 * i + 1].slot.base == i
        },
        forall|k: int| 0 <= k < r@.len() ==> {
            &&& (#[trigger] r@[k]).pad.wf()
            &&& r@[k].pad.has_default_ranges()
            &&& r@[k].pad.right_animate_out.complete()
            &&& r@[k].pad.left_animate_center.complete()
        },
{
    let mut r: Vec<PadBundle> = Vec::new();
    let mut i: usize = 0;
    while i < MAX_PER_SIDE
        invariant
            i <= MAX_PER_SIDE,
            r@.len() == 2 * i,
            forall|j: int| 0 <= j < i ==> {
                &&& (#[trigger] r@[2 * j]).side == Side::Left
                &&& r@[2 * j].slot.current == j && r@[2 * j].slot.base == j
                &&& r@[2 * j + 1].side == Side::Right
                &&& r@[2 * j + 1].slot.current == j && r@[2 * j + 1].slot.base == j
            },
            forall|k: int| 0 <= k < r@.len() ==> {
                &&& (#[trigger] r@[k]).pad.wf()
                &&& r@[k].pad.has_default_ranges()
                &&& r@[k].pad.right_animate_out.complete()
                &&& r@[k].pad.left_animate_center.complete()
            },
        decreases MAX_PER_SIDE - i,
    {
        r.push(spawn_pad(Side::Left, Slot::new(i)));
        r.push(spawn_pad(Side::Right, Slot::new(i)));
        i = i + 1;
    }
    r
}

/// The slot/side coordinate model: the base offset of a slot along its
/// side's position axis. The left side (and the shop row, which shares its
/// orientation) walks away from the centre line in the negative direction,
/// the right side in the positive one.
pub fn base_slot_offset(side: &Side, slot: &Slot) -> (r: i64)
    requires
        slot.wf(),
    ensures
        *side == Side::Left ==> r == -(slot.current * PAD_SPACING),
        *side == Side::Right ==> r == slot.current * PAD_SPACING,
        *side == Side::Shop ==> r == -(slot.current * PAD_SPACING),
{
    let base: i64 = (slot.current as i64) * PAD_SPACING;
    match side {
        Side::Left => -base,
        Side::Right => base,
        Side::Shop => -base,
    }
}

/// The pad with its state-selected tween advanced by `delta_ms`; the other
/// five tweens hold their progress untouched.
pub open spec fn pad_stepped(pad: Pad, side: Side, phase: AppState, delta_ms: u64) -> Pad {
    match side {
        Side::Left => if phase == AppState::Battle {
            Pad { left_animate_side: pad.left_animate_side.stepped(delta_ms), ..pad }
        } else {
            Pad { left_animate_center: pad.left_animate_center.stepped(delta_ms), ..pad }
        },
        Side::Right => if phase == AppState::Battle {
            Pad { right_animate_in: pad.right_animate_in.stepped(delta_ms), ..pad }
        } else {
            Pad { right_animate_out: pad.right_animate_out.stepped(delta_ms), ..pad }
        },
        Side::Shop => if phase == AppState::Battle {
            Pad { shop_animate_out: pad.shop_animate_out.stepped(delta_ms), ..pad }
        } else {
            Pad { shop_animate_in: pad.shop_animate_in.stepped(delta_ms), ..pad }
        },
    }
}

/// The output of the tween that the (side, phase) pair selects.
pub open spec fn active_sample(pad: Pad, side: Side, phase: AppState) -> int {
    match side {
        Side::Left => if phase == AppState::Battle {
            pad.left_animate_side.sample()
        } else {
            pad.left_animate_center.sample()
        },
        Side::Right => if phase == AppState::Battle {
            pad.right_animate_in.sample()
        } else {
            pad.right_animate_out.sample()
        },
        Side::Shop => if phase == AppState::Battle {
            pad.shop_animate_out.sample()
        } else {
            pad.shop_animate_in.sample()
        },
    }
}

/// A pad's resolved position: the base slot offset on the side's axis plus
/// the active tween's output, horizontal for the battlefield sides and
/// vertical for the shop row.
pub open spec fn pad_position(pad: Pad, side: Side, slot: Slot, phase: AppState) -> (int, int) {
    let s = active_sample(pad, side, phase);
    match side {
        Side::Left => (-(slot.current * PAD_SPACING) + s, 0),
        Side::Right => (slot.current * PAD_SPACING + s, 0),
        Side::Shop => (-(slot.current * PAD_SPACING) + PAD_CENTER_OFFSET, s),
    }
}

/// One placement tick: advance the tween that the current state selects
/// and return the pad's resolved position.
pub fn position_pad(pad: &mut Pad, state: &AppState, side: &Side, slot: &Slot, delta_ms: u64)
    -> (pos: Vec2Fx)
    requires
        old(pad).wf(),
        slot.wf(),
    ensures
        *final(pad) == pad_stepped(*old(pad), *side, *state, delta_ms),
        final(pad).wf(),
        pos.x == pad_position(*final(pad), *side, *slot, *state).0,
        pos.y == pad_position(*final(pad), *side, *slot, *state).1,
        pos_bounded(pos.x as int, pos.y as int),
{
    let base = base_slot_offset(side, slot);
    match side {
        Side::Left => {
            let s = if *state == AppState::Battle {
                pad.left_animate_side.tick(delta_ms)
            } else {
                pad.left_animate_center.tick(delta_ms)
            };
            Vec2Fx { x: base + s, y: 0 }
        },
        Side::Right => {
            let s = if *state == AppState::Battle {
                pad.right_animate_in.tick(delta_ms)
            } else {
                pad.right_animate_out.tick(delta_ms)
            };
            Vec2Fx { x: base + s, y: 0 }
        },
        Side::Shop => {
            let s = if *state == AppState::Battle {
                pad.shop_animate_out.tick(delta_ms)
            } else {
                pad.shop_animate_in.tick(delta_ms)
            };
            Vec2Fx { x: base + PAD_CENTER_OFFSET, y: s }
        },
    }
}

/// On leaving the battle phase, the side's resting tween restarts from
/// zero and becomes the live one.
pub fn pad_exit_battle(pad: &mut Pad, side: &Side)
    ensures
        *side == Side::Left ==> *final(pad) == (Pad {
            left_animate_center: (AnimateRange {
                elapsed_ms: 0,
                just_finished: false,
                ..old(pad).left_animate_center
            }),
            ..*old(pad)
        }),
        *side == Side::Right ==> *final(pad) == (Pad {
            right_animate_out: (AnimateRange {
                elapsed_ms: 0,
                just_finished: false,
                ..old(pad).right_animate_out
            }),
            ..*old(pad)
        }),
        *side == Side::Shop ==> *final(pad) == (Pad {
            shop_animate_in: (AnimateRange {
                elapsed_ms: 0,
                just_finished: false,
                ..old(pad).shop_animate_in
            }),
            ..*old(pad)
        }),
{
    match side {
        Side::Left => pad.left_animate_center.reset(),
        Side::Right => pad.right_animate_out.reset(),
        Side::Shop => pad.shop_animate_in.reset(),
    }
}

/// On entering the battle phase, the side's battle tween restarts from
/// zero and becomes the live one.
pub fn pad_enter_battle(pad: &mut Pad, side: &Side)
    ensures
        *side == Side::Left ==> *final(pad) == (Pad {
            left_animate_side: (AnimateRange {
                elapsed_ms: 0,
                just_finished: false,
                ..old(pad).left_animate_side
            }),
            ..*old(pad)
        }),
        *side == Side::Right ==> *final(pad) == (Pad {
            right_animate_in: (AnimateRange {
                elapsed_ms: 0,
                just_finished: false,
                ..old(pad).right_animate_in
            }),
            ..*old(pad)
        }),
        *side == Side::Shop ==> *final(pad) == (Pad {
            shop_animate_out: (AnimateRange {
                elapsed_ms: 0,
                just_finished: false,
                ..old(pad).shop_animate_out
            }),
            ..*old(pad)
        }),
{
    match side {
        Side::Left => pad.left_animate_side.reset(),
        Side::Right => pad.right_animate_in.reset(),
        Side::Shop => pad.shop_animate_out.reset(),
    }
}

/// A left pad whose resting (center) tween has completed sits at its fixed
/// shop-phase resting position, whatever its other five tweens hold.
pub proof fn lemma_left_pad_resting(pad: Pad, slot: Slot)
    requires
        pad.wf(),
        pad.left_animate_center.end == PAD_CENTER_OFFSET,
        pad.left_animate_center.complete(),
    ensures
        pad_position(pad, Side::Left, slot, AppState::Shop)
            == (-(slot.current * PAD_SPACING) + PAD_CENTER_OFFSET, 0int),
{
    lemma_sample_at_end(pad.left_animate_center);
}

/// After leaving the battle phase (which rewinds the resting tween to
/// zero), any single shop-phase tick spanning that tween's full duration
/// settles a left pad exactly at its resting position.
pub proof fn lemma_left_pad_settles_after_exit(pad: Pad, slot: Slot, delta_ms: u64)
    requires
        pad.wf(),
        pad.left_animate_center.end == PAD_CENTER_OFFSET,
        pad.left_animate_center.elapsed_ms == 0,
        !pad.left_animate_center.looping,
        delta_ms >= pad.left_animate_center.duration_ms,
    ensures
        pad_position(
            pad_stepped(pad, Side::Left, AppState::Shop, delta_ms),
            Side::Left,
            slot,
            AppState::Shop,
        ) == (-(slot.current * PAD_SPACING) + PAD_CENTER_OFFSET, 0int),
{
    lemma_sample_at_end(pad.left_animate_center.stepped(delta_ms));
}

/// Round-trip idempotence of a full phase cycle: a left pad whose resting
/// tween has completed again after a shop-battle-shop cycle sits exactly
/// where it rested before the cycle, whatever the battle did to its tweens.
pub proof fn lemma_phase_cycle_round_trip(before: Pad, after: Pad, slot: Slot)
    requires
        before.wf(),
        after.wf(),
        before.left_animate_center.end == PAD_CENTER_OFFSET,
        after.left_animate_center.end == PAD_CENTER_OFFSET,
        before.left_animate_center.complete(),
        after.left_animate_center.complete(),
    ensures
        pad_position(before, Side::Left, slot, AppState::Shop)
            == pad_position(after, Side::Left, slot, AppState::Shop),
{
    lemma_left_pad_resting(before, slot);
    lemma_left_pad_resting(after, slot);
}

} // verus!
