use buddy_core::AppState;
use buddy_core::buddy::{Side, Slot};
use buddy_core::pad::{
    base_slot_offset, pad_enter_battle, pad_exit_battle, position_pad, spawn_pad, spawn_pads,
    Pad, PAD_CENTER_OFFSET, PAD_SPACING, SIDE_SPACING, SHOP_PAD_OFFSET,
};

#[test]
fn left_offsets_step_negative_and_right_mirrors_them() {
    for i in 0..3usize {
        let slot = Slot::new(i);
        let left = base_slot_offset(&Side::Left, &slot);
        let right = base_slot_offset(&Side::Right, &slot);
        assert_eq!(left, -(i as i64) * PAD_SPACING);
        assert_eq!(right, -left);
    }
    assert_eq!(base_slot_offset(&Side::Left, &Slot::new(0)), 0);
    assert_eq!(base_slot_offset(&Side::Left, &Slot::new(1)), -PAD_SPACING);
    assert_eq!(base_slot_offset(&Side::Left, &Slot::new(2)), -2 * PAD_SPACING);
}

#[test]
fn fresh_pad_rests_in_its_shop_position() {
    let mut pad = Pad::default();
    let pos = position_pad(&mut pad, &AppState::Shop, &Side::Left, &Slot::new(0), 0);
    assert_eq!(pos.x, PAD_CENTER_OFFSET);
    assert_eq!(pos.y, 0);
    let mut pad1 = Pad::default();
    let pos1 = position_pad(&mut pad1, &AppState::Shop, &Side::Left, &Slot::new(1), 0);
    assert_eq!(pos1.x, -PAD_SPACING + PAD_CENTER_OFFSET);
}

#[test]
fn phase_cycle_returns_a_left_pad_to_its_resting_offset() {
    let mut pad = Pad::default();
    let slot = Slot::new(1);
    let before = position_pad(&mut pad, &AppState::Shop, &Side::Left, &slot, 0);

    // into battle: the side tween restarts and walks the pad out
    pad_enter_battle(&mut pad, &Side::Left);
    let mid = position_pad(&mut pad, &AppState::Battle, &Side::Left, &slot, 2_000);
    assert_eq!(mid.x, -PAD_SPACING + (-SIDE_SPACING));

    // back to the shop: the center tween restarts and completes
    pad_exit_battle(&mut pad, &Side::Left);
    let after = position_pad(&mut pad, &AppState::Shop, &Side::Left, &slot, 1_500);
    assert_eq!(after, before);
}

#[test]
fn entering_battle_walks_the_pad_smoothly() {
    let mut pad = Pad::default();
    pad_enter_battle(&mut pad, &Side::Left);
    // halfway through the 2000 ms side tween, eased by the circular curve
    let pos = position_pad(&mut pad, &AppState::Battle, &Side::Left, &Slot::new(0), 1_000);
    assert_eq!(pos.x, 300_000);
}

#[test]
fn re_entering_battle_restarts_the_transition_from_zero() {
    let mut pad = Pad::default();
    pad_enter_battle(&mut pad, &Side::Left);
    position_pad(&mut pad, &AppState::Battle, &Side::Left, &Slot::new(0), 500);
    // interrupted mid-flight and entered again: back to the range start
    pad_enter_battle(&mut pad, &Side::Left);
    let pos = position_pad(&mut pad, &AppState::Battle, &Side::Left, &Slot::new(0), 0);
    assert_eq!(pos.x, PAD_CENTER_OFFSET);
}

#[test]
fn shop_pads_move_on_the_vertical_axis() {
    let mut pad = Pad::default();
    pad_exit_battle(&mut pad, &Side::Shop);
    let pos = position_pad(&mut pad, &AppState::Shop, &Side::Shop, &Slot::new(0), 1_500);
    assert_eq!(pos.x, PAD_CENTER_OFFSET);
    assert_eq!(pos.y, SHOP_PAD_OFFSET);
}

#[test]
fn spawn_pads_builds_both_sides_per_slot() {
    let pads = spawn_pads();
    assert_eq!(pads.len(), 6);
    for i in 0..3usize {
        assert!(pads[2 * i].side == Side::Left);
        assert_eq!(pads[2 * i].slot.current, i);
        assert!(pads[2 * i + 1].side == Side::Right);
        assert_eq!(pads[2 * i + 1].slot.current, i);
    }
    let one = spawn_pad(Side::Right, Slot::new(2));
    assert!(one.side == Side::Right);
    assert_eq!(one.slot.base, 2);
}

#[test]
fn right_pads_rest_off_screen_and_enter_for_battle() {
    let mut pad = Pad::default();
    // resting: the out tween is complete, parking the pad far right
    let rest = position_pad(&mut pad, &AppState::Shop, &Side::Right, &Slot::new(0), 0);
    assert_eq!(rest.x, 15_000_000);
    pad_enter_battle(&mut pad, &Side::Right);
    let fought = position_pad(&mut pad, &AppState::Battle, &Side::Right, &Slot::new(0), 2_000);
    assert_eq!(fought.x, SIDE_SPACING);
}
