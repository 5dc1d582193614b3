use photowall::easing::{ease_apply, Easing};
use photowall::tween::Tween;

#[test]
fn easing_curves_start_at_zero() {
    assert_eq!(ease_apply(Easing::Linear, 0), 0);
    assert_eq!(ease_apply(Easing::CubicOut, 0), 0);
    assert_eq!(ease_apply(Easing::SineInOut, 0), 0);
    assert_eq!(ease_apply(Easing::BackIn, 0), 0);
}

#[test]
fn easing_curves_end_at_one() {
    assert_eq!(ease_apply(Easing::Linear, 1000), 1000);
    assert_eq!(ease_apply(Easing::CubicOut, 1000), 1000);
    assert_eq!(ease_apply(Easing::SineInOut, 1000), 1000);
    assert_eq!(ease_apply(Easing::BackIn, 1000), 1000);
}

#[test]
fn easing_exact_midpoints() {
    // 1 - (1 - 1/2)^3 = 0.875
    assert_eq!(ease_apply(Easing::CubicOut, 500), 875);
    // the S-curve is symmetric about the midpoint
    assert_eq!(ease_apply(Easing::SineInOut, 500), 500);
    // back-in pulls below zero in its first phase
    assert_eq!(ease_apply(Easing::BackIn, 500), -87);
}

#[test]
fn back_in_undershoots_then_recovers() {
    assert!(ease_apply(Easing::BackIn, 300) < 0);
    assert!(ease_apply(Easing::BackIn, 900) > 0);
    assert!(ease_apply(Easing::BackIn, 900) < 1000);
}

#[test]
fn tween_linear_midpoint_is_exact() {
    let mut t = Tween::new(Easing::Linear, 0, 1000, 10);
    assert_eq!(t.apply(5), 500);
}

#[test]
fn tween_returns_exactly_end_at_duration() {
    let mut t = Tween::new(Easing::CubicOut, 100, 900, 30);
    let v = t.apply(30);
    assert_eq!(v, 900);
}

#[test]
fn tween_clamps_past_duration_without_overshoot() {
    let mut t = Tween::new(Easing::BackIn, 0, 1000, 10);
    assert_eq!(t.apply(10), 1000);
    assert_eq!(t.apply(1), 1000);
    assert_eq!(t.apply(1000), 1000);
    assert_eq!(t.elapsed, 10);
}

#[test]
fn tween_elapsed_only_grows_and_saturates() {
    let mut t = Tween::new(Easing::Linear, -500, 500, 4);
    t.apply(1);
    assert_eq!(t.elapsed, 1);
    t.apply(2);
    assert_eq!(t.elapsed, 3);
    t.apply(5);
    assert_eq!(t.elapsed, 4);
}

#[test]
fn tween_descending_values_reach_end() {
    let mut t = Tween::new(Easing::Linear, 1000, 0, 10);
    assert_eq!(t.apply(5), 500);
    assert_eq!(t.apply(5), 0);
}
