use dandelions::state::CrossfadeAxes;

fn check_wf(a: &CrossfadeAxes) {
    assert!(0 <= a.brightness && a.brightness <= 10_000);
    assert!(0 <= a.dancing_brightness && a.dancing_brightness <= 10_000);
    assert!(0 <= a.drift_strength && a.drift_strength <= 10_000);
    assert!(a.brightness + a.dancing_brightness <= 10_000);
}

#[test]
fn brightness_rises_to_one_and_holds() {
    let mut a = CrossfadeAxes::new();
    for _ in 0..100 {
        a.advance(true, false, false);
        check_wf(&a);
    }
    assert_eq!(a.brightness, 10_000);
    a.advance(true, false, false);
    assert_eq!(a.brightness, 10_000);
}

#[test]
fn brightness_falls_back_to_zero_when_stopped() {
    let mut a = CrossfadeAxes::new();
    for _ in 0..40 {
        a.advance(true, false, false);
    }
    assert_eq!(a.brightness, 4_000);
    for _ in 0..200 {
        a.advance(false, false, false);
        check_wf(&a);
    }
    assert_eq!(a.brightness, 0);
}

#[test]
fn dance_crossfade_keeps_the_sum_bounded() {
    let mut a = CrossfadeAxes::new();
    for _ in 0..100 {
        a.advance(true, false, false);
    }
    assert_eq!(a.brightness, 10_000);
    for _ in 0..60 {
        a.advance(true, true, false);
        check_wf(&a);
    }
    assert_eq!(a.dancing_brightness, 6_000);
    assert_eq!(a.brightness, 4_000);
    for _ in 0..300 {
        a.advance(true, false, false);
        check_wf(&a);
    }
    assert_eq!(a.dancing_brightness, 0);
    assert_eq!(a.brightness, 10_000);
}

#[test]
fn axes_stay_bounded_under_a_long_mixed_run() {
    let mut a = CrossfadeAxes::new();
    for i in 0..5_000u32 {
        let started = i % 997 != 0;
        let scene_3 = (i / 150) % 2 == 1;
        let scene_5 = (i / 70) % 3 == 2;
        a.advance(started, scene_3, scene_5);
        check_wf(&a);
    }
}

#[test]
fn drift_strength_eases_both_ways() {
    let mut a = CrossfadeAxes::new();
    for _ in 0..250 {
        a.advance(true, false, true);
        check_wf(&a);
    }
    assert_eq!(a.drift_strength, 250);
    for _ in 0..100 {
        a.advance(true, false, false);
        check_wf(&a);
    }
    assert_eq!(a.drift_strength, 150);
}
