use dandelions::affine_matrix::{AffineMatrix, Vec3, Vec4};

/// Fixed-point product as the library computes it: widen, multiply, divide
/// by the scale with truncation toward zero.
fn fxm_t(a: i64, b: i64) -> i64 {
    ((a as i128 * b as i128) / 10_000) as i64
}

fn entries(m: &AffineMatrix) -> [i64; 16] {
    [
        m.m00, m.m01, m.m02, m.m03, m.m10, m.m11, m.m12, m.m13, m.m20, m.m21, m.m22, m.m23,
        m.m30, m.m31, m.m32, m.m33,
    ]
}

fn sample_matrix() -> AffineMatrix {
    let mut m = AffineMatrix::new();
    m.translate(12_345, -777, 30_000);
    m.set_scale(9_000, 11_000, 2_500);
    m.rotate_y(4_321);
    m
}

#[test]
fn identity_applied_to_vector_is_unchanged() {
    let id = AffineMatrix::ident();
    let p = Vec3 { x: 12_345, y: -9_876, z: 31_416 };
    let q = id.multiply_3d(p);
    assert_eq!(q, p);
    let h = Vec4 { x: -1, y: 7_000, z: 123, w: 10_000 };
    let g = id.multiply_4d(h);
    assert_eq!(g, h);
}

#[test]
fn multiplying_by_identity_is_a_no_op() {
    let m = sample_matrix();
    let id = AffineMatrix::ident();
    let right = m.times(&id);
    let left = id.times(&m);
    assert_eq!(entries(&right), entries(&m));
    assert_eq!(entries(&left), entries(&m));
}

#[test]
fn translate_then_inverse_translate_restores() {
    let m = sample_matrix();
    let mut t = m;
    t.translate(3_000, -400, 99_999);
    t.translate(-3_000, 400, -99_999);
    assert_eq!(entries(&t), entries(&m));
}

#[test]
fn combine_zero_keeps_and_one_replaces() {
    let a = sample_matrix();
    let mut b = AffineMatrix::new();
    b.set_rotate_z(11_111);
    b.translate(5, 6, 7);

    let mut r = a;
    r.combine(b, 0);
    assert_eq!(entries(&r), entries(&a));

    let mut s = a;
    s.combine(b, 10_000);
    assert_eq!(entries(&s), entries(&b));
}

#[test]
fn combine_half_is_elementwise_midpoint() {
    let a = sample_matrix();
    let mut b = AffineMatrix::new();
    b.set_rotate_x(-2_500);
    b.translate(1, -1, 3);
    let mut r = a;
    r.combine(b, 5_000);
    let ea = entries(&a);
    let eb = entries(&b);
    let er = entries(&r);
    for i in 0..16 {
        let twice = 2 * er[i];
        let exact = ea[i] + eb[i];
        assert!((twice - exact).abs() <= 2, "entry {}: {} vs {}", i, twice, exact);
    }
}

#[test]
fn combine_is_affine_in_alpha() {
    let a = sample_matrix();
    let mut b = AffineMatrix::new();
    b.translate(40_000, -20_000, 0);
    let alpha = 3_000;
    let mut r = a;
    r.combine(b, alpha);
    let ea = entries(&a);
    let eb = entries(&b);
    let er = entries(&r);
    for i in 0..16 {
        assert_eq!(er[i], fxm_t(alpha, eb[i]) + fxm_t(10_000 - alpha, ea[i]));
    }
}

fn assert_block_orthogonal(m: &AffineMatrix) {
    let rows = [
        [m.m00, m.m01, m.m02],
        [m.m10, m.m11, m.m12],
        [m.m20, m.m21, m.m22],
    ];
    for i in 0..3 {
        for j in 0..3 {
            let dot = fxm_t(rows[i][0], rows[j][0]) + fxm_t(rows[i][1], rows[j][1])
                + fxm_t(rows[i][2], rows[j][2]);
            let expect = if i == j { 10_000 } else { 0 };
            assert!(
                (dot - expect).abs() <= 102,
                "rows {} {}: dot {} expect {}",
                i,
                j,
                dot,
                expect
            );
        }
    }
}

#[test]
fn rotation_blocks_are_orthogonal_for_sample_angles() {
    for &angle in &[0i64, 7_854, -7_854, 12_345, 31_416, 47_124, 62_832, -100_000, 271_828] {
        let mut x = AffineMatrix::new();
        x.set_rotate_x(angle);
        assert_block_orthogonal(&x);
        let mut y = AffineMatrix::new();
        y.set_rotate_y(angle);
        assert_block_orthogonal(&y);
        let mut z = AffineMatrix::new();
        z.set_rotate_z(angle);
        assert_block_orthogonal(&z);
    }
}

#[test]
fn quarter_turn_about_y_is_exact() {
    let mut m = AffineMatrix::new();
    m.set_rotate_y(15_708);
    assert_eq!(m.m00, 0);
    assert_eq!(m.m02, 10_000);
    assert_eq!(m.m20, -10_000);
    assert_eq!(m.m22, 0);
}

#[test]
fn rotate_towards_points_row_y_along_the_direction() {
    // Row-vector convention: the local +Y axis is row 1 of the block, and
    // must land on the normalised direction.
    let mut m = AffineMatrix::new();
    m.rotate_towards(Vec3 { x: 0, y: 0, z: 0 }, Vec3 { x: 100_000, y: 0, z: 0 });
    assert!((m.m10 - 10_000).abs() <= 120, "m10 was {}", m.m10);
    assert!(m.m11.abs() <= 120, "m11 was {}", m.m11);
    assert!(m.m12.abs() <= 120, "m12 was {}", m.m12);
}

#[test]
fn rotate_towards_up_is_defined() {
    // Straight up: the XY shadow is zero, the azimuth falls back to zero
    // and +Y lands on +Z.
    let mut m = AffineMatrix::new();
    m.rotate_towards(Vec3 { x: 0, y: 0, z: 0 }, Vec3 { x: 0, y: 0, z: 50_000 });
    assert!(m.m10.abs() <= 120, "m10 was {}", m.m10);
    assert!(m.m11.abs() <= 120, "m11 was {}", m.m11);
    assert!((m.m12 - 10_000).abs() <= 120, "m12 was {}", m.m12);
}

#[test]
fn set_rotate_writes_the_closed_form_euler_block() {
    let (ax, ay, az) = (3_000i64, -5_000i64, 12_000i64);
    let mut e = AffineMatrix::new();
    e.set_rotate(ax, ay, az);
    let (sx, cx) = dandelions::trig::sin_cos(ax);
    let (sy, cy) = dandelions::trig::sin_cos(ay);
    let (sz, cz) = dandelions::trig::sin_cos(az);
    assert_eq!(e.m00, fxm_t(cy, cz));
    assert_eq!(e.m01, fxm_t(cy, sz));
    assert_eq!(e.m02, -sy);
    assert_eq!(e.m10, fxm_t(fxm_t(sx, sy), cz) - fxm_t(cx, sz));
    assert_eq!(e.m11, fxm_t(fxm_t(sx, sy), sz) + fxm_t(cx, cz));
    assert_eq!(e.m12, fxm_t(sx, cy));
    assert_eq!(e.m20, fxm_t(fxm_t(cx, sy), cz) + fxm_t(sx, sz));
    assert_eq!(e.m21, fxm_t(fxm_t(cx, sy), sz) - fxm_t(sx, cz));
    assert_eq!(e.m22, fxm_t(cx, cy));
}
