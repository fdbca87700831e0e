use buddy_core::ease::Ease;
use buddy_core::fixed::{isqrt, UNIT};

#[test]
fn linear_is_the_identity() {
    assert_eq!(Ease::Linear.apply(0), 0);
    assert_eq!(Ease::Linear.apply(1_234), 1_234);
    assert_eq!(Ease::Linear.apply(UNIT), UNIT);
}

#[test]
fn out_back_pins_its_ends_and_overshoots_the_middle() {
    assert_eq!(Ease::OutBack.apply(0), 0);
    assert_eq!(Ease::OutBack.apply(UNIT), UNIT);
    // 1 + c3*(x-1)^3 + c1*(x-1)^2 at x = 0.5, in fixed point
    assert_eq!(Ease::OutBack.apply(5_000), 10_877);
    // near the end the curve sits above one
    assert!(Ease::OutBack.apply(8_000) > UNIT);
}

#[test]
fn in_out_circ_is_symmetric_and_pins_its_ends() {
    assert_eq!(Ease::InOutCirc.apply(0), 0);
    assert_eq!(Ease::InOutCirc.apply(UNIT), UNIT);
    assert_eq!(Ease::InOutCirc.apply(5_000), 5_000);
    assert_eq!(Ease::InOutCirc.apply(2_500), 670);
    assert_eq!(Ease::InOutCirc.apply(7_500), 9_330);
    // symmetric acceleration and deceleration
    assert_eq!(
        Ease::InOutCirc.apply(2_500) + Ease::InOutCirc.apply(7_500),
        UNIT
    );
}

#[test]
fn isqrt_rounds_down() {
    assert_eq!(isqrt(0), 0);
    assert_eq!(isqrt(1), 1);
    assert_eq!(isqrt(2), 1);
    assert_eq!(isqrt(3), 1);
    assert_eq!(isqrt(4), 2);
    assert_eq!(isqrt(99), 9);
    assert_eq!(isqrt(100), 10);
    assert_eq!(isqrt(75_000_000), 8_660);
    assert_eq!(isqrt(100_000_000), 10_000);
    assert_eq!(isqrt(u64::MAX), 4_294_967_295);
}
