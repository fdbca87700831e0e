use buddy_core::AppState;
use buddy_core::buddy::{
    face_flip_x, lerp, move_buddy, outline_rotation_angle, pick_outline_rotation, Attribute,
    Buddy, BuddyBlink, BuddyColor, BuddyFace, BuddyTemplate, BuddyWobble, Health, Offset,
    PadPlacement, Side, Slot, Strength,
};
use buddy_core::fixed::Vec2Fx;

#[test]
fn wobble_flips_exactly_when_its_rotation_finishes() {
    let mut w = BuddyWobble::new_seeded(false, 0, 2_000);
    // halfway through: both tweens sit at the centre of their ranges
    let t = w.wobble(1_000);
    assert_eq!(t.z_rotation, 0);
    assert_eq!(t.x_offset, 0);
    assert!(!w.flipped);

    // the rotation tween finishes: one flip, and a fresh random cycle
    w.wobble(1_000);
    assert!(w.flipped);
    assert_eq!(w.animate_rotation.elapsed_ms, 0);
    let d = w.animate_rotation.duration_ms;
    assert!((2_000..5_000).contains(&d));
    assert_eq!(w.animate_translation.duration_ms, d);

    // every cycle-spanning tick flips exactly once: the flip count equals
    // the count of rotation completions, and the flag alternates strictly
    let mut flips = 0;
    let mut prev = w.flipped;
    for _ in 0..10 {
        w.wobble(5_000);
        assert!(w.flipped != prev);
        prev = w.flipped;
        flips += 1;
    }
    assert_eq!(flips, 10);
}

#[test]
fn wobble_shapes_follow_the_circular_curve() {
    let mut w = BuddyWobble::new_seeded(false, 0, 2_000);
    let t = w.wobble(500);
    assert_eq!(t.z_rotation, -1_361);
    assert_eq!(t.x_offset, 86_600);
}

#[test]
fn flipped_wobble_mirrors_its_ranges() {
    let mut w = BuddyWobble::new_seeded(true, 0, 2_000);
    let t = w.wobble(0);
    assert_eq!(t.z_rotation, 1_571);
    assert_eq!(t.x_offset, -100_000);
}

#[test]
fn random_wobble_draws_its_cycle_from_the_fixed_range() {
    let w = BuddyWobble::new_random();
    let d = w.animate_rotation.duration_ms;
    assert!((2_000..5_000).contains(&d));
    assert_eq!(w.animate_translation.duration_ms, d);
}

#[test]
fn saturated_shop_chase_lands_exactly_on_the_pad() {
    let pads = vec![PadPlacement {
        position: Vec2Fx::new(0, 0),
        side: Side::Left,
        slot: Slot::new(0),
    }];
    // 100 world units away; 200 ms at rate 5/s saturates the lerp amount
    let mut pos = Vec2Fx::new(1_000_000, 0);
    move_buddy(
        &mut pos,
        &Side::Left,
        &Slot::new(0),
        &Offset(Vec2Fx::new(0, 0)),
        &pads,
        &AppState::Shop,
        200,
        None,
    );
    assert_eq!(pos, Vec2Fx::new(0, 0));
}

#[test]
fn partial_shop_chase_closes_half_the_gap() {
    let pads = vec![PadPlacement {
        position: Vec2Fx::new(0, 0),
        side: Side::Left,
        slot: Slot::new(0),
    }];
    let mut pos = Vec2Fx::new(1_000_000, -500_000);
    move_buddy(
        &mut pos,
        &Side::Left,
        &Slot::new(0),
        &Offset(Vec2Fx::new(0, 0)),
        &pads,
        &AppState::Shop,
        100,
        None,
    );
    assert_eq!(pos, Vec2Fx::new(500_000, -250_000));
}

#[test]
fn outside_the_shop_the_buddy_snaps_to_its_pad() {
    let pads = vec![PadPlacement {
        position: Vec2Fx::new(300_000, 40_000),
        side: Side::Right,
        slot: Slot::new(1),
    }];
    let mut pos = Vec2Fx::new(-9_000_000, 123);
    move_buddy(
        &mut pos,
        &Side::Right,
        &Slot::new(1),
        &Offset(Vec2Fx::new(10_000, -20_000)),
        &pads,
        &AppState::Battle,
        16,
        None,
    );
    assert_eq!(pos, Vec2Fx::new(310_000, 20_000));
}

#[test]
fn a_drag_overrides_all_following() {
    let pads = vec![PadPlacement {
        position: Vec2Fx::new(0, 0),
        side: Side::Left,
        slot: Slot::new(0),
    }];
    let mut pos = Vec2Fx::new(1_000_000, 0);
    move_buddy(
        &mut pos,
        &Side::Left,
        &Slot::new(0),
        &Offset(Vec2Fx::new(0, 0)),
        &pads,
        &AppState::Shop,
        200,
        Some(Vec2Fx::new(777, -888)),
    );
    assert_eq!(pos, Vec2Fx::new(777, -888));
}

#[test]
fn a_buddy_without_a_pad_stays_put() {
    let pads = vec![PadPlacement {
        position: Vec2Fx::new(0, 0),
        side: Side::Left,
        slot: Slot::new(2),
    }];
    let mut pos = Vec2Fx::new(42, 43);
    move_buddy(
        &mut pos,
        &Side::Left,
        &Slot::new(0),
        &Offset(Vec2Fx::new(0, 0)),
        &pads,
        &AppState::Shop,
        200,
        None,
    );
    assert_eq!(pos, Vec2Fx::new(42, 43));
}

#[test]
fn lerp_clamps_its_amount_at_one() {
    let start = Vec2Fx::new(0, 0);
    let end = Vec2Fx::new(10_000, -4_000);
    assert_eq!(lerp(start, end, 20_000), end);
    assert_eq!(lerp(start, end, 10_000), end);
    assert_eq!(lerp(start, end, 5_000), Vec2Fx::new(5_000, -2_000));
    assert_eq!(lerp(start, end, 0), start);
}

#[test]
fn attributes_clamp_reads_at_zero_and_reset_to_base() {
    let mut a = Attribute::new(5);
    assert_eq!(a.value(), 5);
    a.remove(3);
    assert_eq!(a.value(), 2);
    a.remove(4);
    assert_eq!(a.value(), 0);
    a.reset();
    assert_eq!(a.value(), 5);
    assert_eq!(Health::default().0.value(), 1);
    assert_eq!(Strength::default().0.value(), 1);
}

#[test]
fn slots_reset_to_their_base() {
    let mut s = Slot::new(2);
    s.current = 0;
    s.reset();
    assert_eq!(s.current, 2);
    assert_eq!(s.base, 2);
    assert_eq!(Slot::default().base, 0);
}

#[test]
fn faces_map_to_their_sprites_and_flip_by_side() {
    assert_eq!(BuddyFace::Happy.get_path(), "buddy/face/happy.png");
    assert_eq!(BuddyFace::Neutral.get_path(), "buddy/face/neutral.png");
    assert!(matches!(BuddyFace::default(), BuddyFace::Happy));
    assert!(!face_flip_x(&Side::Left));
    assert!(face_flip_x(&Side::Right));
    assert!(face_flip_x(&Side::Shop));
    assert!(matches!(Side::default(), Side::Left));
    assert!(Buddy::default().alive);
}

#[test]
fn random_colors_come_from_the_palette() {
    for _ in 0..16 {
        let c = BuddyColor::random();
        let channels = (c.r, c.g, c.b);
        assert!(
            channels == (670, 530, 530)
                || channels == (530, 670, 530)
                || channels == (530, 530, 670)
        );
    }
}

#[test]
fn round_templates_stay_within_the_round_bounds() {
    // at round zero the only possible stat draw is one
    let t = BuddyTemplate::random_for_round(0);
    assert_eq!(t.health, 1);
    assert_eq!(t.strength, 1);
    let later = BuddyTemplate::random_for_round(3);
    assert!((1..5).contains(&later.health));
    assert!((1..5).contains(&later.strength));
}

#[test]
fn templates_spawn_into_full_bundles() {
    let t = BuddyTemplate::random_for_round(0);
    let b = t.spawn(2, Side::Shop, Vec2Fx::new(7, 8));
    assert!(b.buddy.alive);
    assert_eq!(b.slot.current, 2);
    assert_eq!(b.slot.base, 2);
    assert!(b.side == Side::Shop);
    assert_eq!(b.transform, Vec2Fx::new(7, 8));
    assert_eq!(b.health.0.value(), 1);
    assert_eq!(b.strength.0.value(), 1);
    assert!(!b.blink.is_blinking);
}

#[test]
fn blink_spans_alternate_and_redraw_their_length() {
    let mut b = BuddyBlink::new(false);
    assert!((10_000..20_000).contains(&b.timer_duration_ms));
    // far shorter than any open-eyed span: no blink yet
    assert!(!b.blink(5_000));
    // long enough to end any open-eyed span: the blink starts
    assert!(b.blink(20_000));
    assert!((50..200).contains(&b.timer_duration_ms));
    assert_eq!(b.timer_elapsed_ms, 0);
    // long enough to end any blink: eyes open again
    assert!(!b.blink(200));
}

#[test]
fn outline_steps_always_change() {
    for old in 0..5u32 {
        for _ in 0..8 {
            let r = pick_outline_rotation(old);
            assert!(r < 5);
            assert_ne!(r, old);
        }
    }
    assert_eq!(outline_rotation_angle(0), 0);
    assert_eq!(outline_rotation_angle(2), 31_416);
}
