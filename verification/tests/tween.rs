use buddy_core::animate::{AnimateRange, AnimateScale};
use buddy_core::ease::Ease;

#[test]
fn non_looping_tween_completes_exactly_once() {
    let mut t = AnimateRange::new(1000, Ease::Linear, 0, 100_000, false);
    assert_eq!(t.tick(400), 40_000);
    assert!(!t.just_finished());
    // the tick whose cumulative delta reaches the duration lands on the end
    assert_eq!(t.tick(600), 100_000);
    assert!(t.just_finished());
    // later ticks hold the end value and never fire again
    assert_eq!(t.tick(100), 100_000);
    assert!(!t.just_finished());
    assert_eq!(t.tick(1_000_000), 100_000);
    assert!(!t.just_finished());
}

#[test]
fn overshooting_crossing_still_lands_on_end() {
    let mut t = AnimateRange::new(1000, Ease::Linear, -50_000, 50_000, false);
    assert_eq!(t.tick(99_999), 50_000);
    assert!(t.just_finished());
}

#[test]
fn set_percent_half_matches_ticking_half_the_duration() {
    let mut seeded = AnimateRange::new(1000, Ease::Linear, 0, 100_000, false);
    seeded.set_percent(5_000);
    let mut ticked = AnimateRange::new(1000, Ease::Linear, 0, 100_000, false);
    let ticked_value = ticked.tick(500);
    assert_eq!(seeded.value(), ticked_value);
    assert_eq!(seeded.value(), 50_000);
}

#[test]
fn set_percent_matches_tick_on_a_shaped_curve() {
    let mut seeded = AnimateRange::new(600, Ease::OutBack, 0, 100_000, false);
    seeded.set_percent(5_000);
    let mut ticked = AnimateRange::new(600, Ease::OutBack, 0, 100_000, false);
    let ticked_value = ticked.tick(300);
    assert_eq!(seeded.value(), ticked_value);
    // the back curve overshoots its end mid-flight
    assert_eq!(seeded.value(), 108_770);
}

#[test]
fn looping_tween_wraps_and_fires_once_per_cycle() {
    let mut t = AnimateRange::new(1000, Ease::Linear, 0, 10_000, true);
    // one and a half cycles in one tick: wraps, fires once
    assert_eq!(t.tick(1500), 5_000);
    assert!(t.just_finished());
    assert_eq!(t.tick(400), 9_000);
    assert!(!t.just_finished());
    // the wrap edge fires again on the next crossing
    assert_eq!(t.tick(100), 0);
    assert!(t.just_finished());
}

#[test]
fn zero_duration_counts_as_complete() {
    let mut t = AnimateRange::new(0, Ease::Linear, -5_000, 7_000, false);
    assert_eq!(t.tick(0), 7_000);
    assert!(!t.just_finished());
    assert_eq!(t.tick(123), 7_000);
    assert!(!t.just_finished());
}

#[test]
fn reversed_range_runs_backwards() {
    let mut t = AnimateRange::new(1000, Ease::Linear, 100_000, 0, false);
    assert_eq!(t.tick(250), 75_000);
    assert_eq!(t.tick(750), 0);
    assert!(t.just_finished());
}

#[test]
fn reset_rewinds_to_the_start() {
    let mut t = AnimateRange::new(1000, Ease::Linear, 0, 10_000, false);
    t.tick(1000);
    assert!(t.just_finished());
    t.reset();
    assert!(!t.just_finished());
    assert_eq!(t.value(), 0);
    assert_eq!(t.tick(500), 5_000);
}

#[test]
fn scale_variant_shares_the_tween_mechanics() {
    let mut s = AnimateScale::new(600, Ease::OutBack, 0, 10_000, false);
    assert_eq!(s.tick(300), 10_877);
    assert!(!s.just_finished());
    assert_eq!(s.tick(300), 10_000);
    assert!(s.just_finished());
    s.reset();
    let mut seeded = AnimateScale::new(600, Ease::OutBack, 0, 10_000, false);
    seeded.set_percent(5_000);
    assert_eq!(seeded.anim.value(), 10_877);
}
