use dandelions::fixed::{fx_mul, fx_tdiv, emod, isqrt, FX_ONE};
use dandelions::trig::sin_cos;
use dandelions::dancer_mock::mock_step;
use dandelions::affine_matrix::Vec3;

#[test]
fn fixed_product_truncates_toward_zero() {
    assert_eq!(fx_mul(15_000, 10_000), 15_000);
    assert_eq!(fx_mul(3, 3), 0);
    assert_eq!(fx_mul(-3, 3), 0);
    assert_eq!(fx_mul(12_345, -20_000), -24_690);
    assert_eq!(fx_mul(9_999, 9_999), 9_998);
    assert_eq!(fx_mul(-9_999, 9_999), -9_998);
}

#[test]
fn fixed_division_truncates_toward_zero() {
    assert_eq!(fx_tdiv(7, 2), 3);
    assert_eq!(fx_tdiv(-7, 2), -3);
}

#[test]
fn euclidean_remainder_is_never_negative() {
    assert_eq!(emod(7, 5), 2);
    assert_eq!(emod(-7, 5), 3);
    assert_eq!(emod(-10, 5), 0);
}

#[test]
fn integer_square_root_is_the_floor() {
    assert_eq!(isqrt(0), 0);
    assert_eq!(isqrt(1), 1);
    assert_eq!(isqrt(99), 9);
    assert_eq!(isqrt(100), 10);
    assert_eq!(isqrt(u64::MAX), 4_294_967_295);
}

#[test]
fn sine_cosine_of_zero_is_exact() {
    assert_eq!(sin_cos(0), (0, 10_000));
}

#[test]
fn sine_cosine_quadrant_values() {
    // Quarter turn: sine one, cosine zero; both exact in the rational
    // approximation at the half-pi grid points.
    assert_eq!(sin_cos(15_708), (10_000, 0));
    assert_eq!(sin_cos(31_416), (0, -10_000));
    assert_eq!(sin_cos(-15_708), (-10_000, 0));
}

#[test]
fn sine_cosine_stays_near_the_unit_circle() {
    for k in -50i64..50 {
        let a = k * 1_777;
        let (s, c) = sin_cos(a);
        let norm = s * s + c * c;
        assert!(
            (norm - 100_000_000).abs() <= 1_000_000,
            "angle {}: norm {}",
            a,
            norm
        );
    }
}

#[test]
fn sine_tracks_the_real_sine_closely() {
    for k in -40i64..40 {
        let a = k * 2_345;
        let (s, _) = sin_cos(a);
        let real = ((a as f64) / 10_000.0).sin();
        assert!(
            ((s as f64) / 10_000.0 - real).abs() < 0.01,
            "angle {}: {} vs {}",
            a,
            s,
            real
        );
    }
}

#[test]
fn mock_walk_steps_stay_small_and_head_follows() {
    let mut rng = rand::rngs::OsRng::default();
    let mut cur = Vec3 { x: 0, y: 0, z: -20_000 };
    for _ in 0..200 {
        let (body, head) = mock_step(cur, &mut rng);
        assert!((body.x - cur.x).abs() <= 100);
        assert!((body.y - cur.y).abs() <= 100);
        assert!((body.z - cur.z).abs() <= 100);
        assert_eq!(head, Vec3 { x: body.x, y: body.y + 2_000, z: body.z });
        cur = body;
    }
}

#[test]
fn mock_walk_pulls_back_at_the_walls() {
    let mut rng = rand::rngs::OsRng::default();
    let far = Vec3 { x: 20_000, y: 0, z: 0 };
    for _ in 0..50 {
        let (body, _) = mock_step(far, &mut rng);
        assert!(body.x <= far.x);
        // Past the near wall on Z the walk only retreats.
        assert!(body.z <= far.z);
    }
    let deep = Vec3 { x: 0, y: 0, z: -40_000 };
    for _ in 0..50 {
        let (body, _) = mock_step(deep, &mut rng);
        assert!(body.z >= deep.z);
    }
}
