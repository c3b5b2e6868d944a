//! The scene animation core.
//!
//! Owns the four animated seeds, the four scrolling ground tiles, the
//! camera, the crossfade axes and the randomness handle. One `update` per
//! frame advances the axes, poses the choreographed pair while the dance
//! axis is up, scrolls the ground, resolves which seed follows which
//! tracked body, and smooths each ambient seed toward its body with the
//! idle wobble and gaze derived from the tracked head.

use vstd::prelude::*;
use crate::fixed::{FX_ONE, FX_HALF, iabs, fxm, fx_mul, pmod, lemma_fxm_bound,
    lemma_tdiv_bounds};
use crate::trig::{FX_TAU, lemma_sc_near_unit};
use crate::affine_matrix::{AffineMatrix, Vec3, ident_m, translate_only_m, yrot_of, xrot_of,
    times_m, combined_m, rotate_towards_m, apply3_v, lemma_small_product, lemma_combine_value,
    lemma_apply3_bound};
use crate::color::Color;
use crate::dandelion::{DandelionSeed, seed_wf, SEED_TR_MAX, SEED_ROT_MAX};
use crate::ground::Ground;
use crate::state::{DandelionState, CrossfadeAxes, axes_wf, spec_dance_axes, spec_brightness,
    spec_drift};
use crate::kinect_tracker::TrackingSnapshot;
use crate::rng::{new_os_rng, next_raw, unit_sample};

verus! {

/// Largest tracked coordinate magnitude the update accepts, two thousand
/// units.
pub const POS_IN_MAX: i64 = 20_000_000;

/// Largest elapsed time the update accepts, in fixed seconds.
pub const TIME_MAX: i64 = 1_000_000_000_000_000;

/// Largest camera coordinate magnitude.
pub const CAM_MAX: i64 = 1_000_000_000;

/// The scene state: two ambient seeds, two choreographed seeds, four
/// ground tiles in two mirrored pairs, the randomness handle, the camera
/// and the crossfade axes.
pub struct Scene {
    pub dandelion_seed1: DandelionSeed,
    pub dandelion_seed2: DandelionSeed,
    pub dancing_dandelion1: DandelionSeed,
    pub dancing_dandelion2: DandelionSeed,
    pub ground: Ground,
    pub ground_mirror: Ground,
    pub ground_2: Ground,
    pub ground_mirror_2: Ground,
    pub rng: rand::rngs::OsRng,
    pub camera_pos: Vec3,
    pub axes: CrossfadeAxes,
}

/// The scene's invariant: every seed is well formed, the axes hold theirs,
/// and the camera stays in range.
pub open spec fn scene_wf(s: Scene) -> bool {
    &&& seed_wf(s.dandelion_seed1)
    &&& seed_wf(s.dandelion_seed2)
    &&& seed_wf(s.dancing_dandelion1)
    &&& seed_wf(s.dancing_dandelion2)
    &&& axes_wf(s.axes)
    &&& iabs(s.camera_pos.x as int) <= CAM_MAX as int
    &&& iabs(s.camera_pos.y as int) <= CAM_MAX as int
    &&& iabs(s.camera_pos.z as int) <= CAM_MAX as int
}

/// A seed's world position, at spec level.
pub open spec fn seed_pos(s: DandelionSeed) -> Vec3 {
    Vec3 { x: s.translation.m30, y: s.translation.m31, z: s.translation.m32 }
}

/// The squared distance between two points, in squared fixed-point units.
pub open spec fn spec_dist_sq(a: Vec3, b: Vec3) -> int {
    (a.x - b.x) * (a.x - b.x) + (a.y - b.y) * (a.y - b.y) + (a.z - b.z) * (a.z - b.z)
}

/// Whether the two ambient seeds should exchange their whole state: each
/// is nearer the other's body, and at least one pairing is off by more
/// than one unit of distance.
pub open spec fn swap_wanted(s1: DandelionSeed, s2: DandelionSeed, b1: Vec3, b2: Vec3) -> bool {
    let p1 = seed_pos(s1);
    let p2 = seed_pos(s2);
    &&& spec_dist_sq(p2, b1) < spec_dist_sq(p1, b1)
    &&& spec_dist_sq(p1, b2) < spec_dist_sq(p2, b2)
    &&& (spec_dist_sq(p1, b1) > (FX_ONE as int) * (FX_ONE as int)
        || spec_dist_sq(p2, b2) > (FX_ONE as int) * (FX_ONE as int))
}

/// The fixed parking spot a drifting seed is pulled toward.
pub open spec fn drift_parking_m() -> AffineMatrix {
    translate_only_m(Vec3 { x: 100_000, y: (-10_000) as i64, z: (-20_000) as i64 })
}

/// The gaze target: the other body's position weighted by affection
/// against the seed's own head.
pub open spec fn blend_point_v(other: Vec3, head: Vec3, affection: int) -> Vec3 {
    Vec3 {
        x: (fxm(other.x as int, affection) + fxm(FX_ONE - affection, head.x as int)) as i64,
        y: (fxm(other.y as int, affection) + fxm(FX_ONE - affection, head.y as int)) as i64,
        z: (fxm(other.z as int, affection) + fxm(FX_ONE - affection, head.z as int)) as i64,
    }
}

/// An ambient seed's translation after one update: smoothed one tenth of
/// the way to its body, then pulled toward the parking spot by the drift
/// strength.
pub open spec fn updated_translation(old_tr: AffineMatrix, body: Vec3, drift: int) -> AffineMatrix {
    combined_m(combined_m(old_tr, translate_only_m(body), 1_000), drift_parking_m(), drift)
}

/// The X position of a ground tile at a phase offset: the halved elapsed
/// time, shifted a period up, reduced modulo the thirty-two unit period,
/// centred on zero.
pub open spec fn tile_x(elapsed: int, phase: int) -> int {
    (fxm(elapsed, FX_HALF as int) + 32 * (FX_ONE as int) - phase) % (32 * (FX_ONE as int))
        - 16 * (FX_ONE as int)
}

/// Every tile position lies in the half-open sixteen-unit band.
pub proof fn lemma_tile_range(elapsed: int, phase: int)
    ensures
        -16 * (FX_ONE as int) <= tile_x(elapsed, phase) < 16 * (FX_ONE as int),
{
    vstd::arithmetic::div_mod::lemma_mod_bound(
        fxm(elapsed, FX_HALF as int) + 32 * (FX_ONE as int) - phase,
        32 * (FX_ONE as int),
    );
}

/// Two tiles a distinct phase apart never coincide: their reduced offsets
/// differ by less than one period, so the remainders cannot match.
proof fn lemma_tile_pair_distinct(elapsed: int, p1: int, p2: int)
    requires
        0 <= p1 < p2,
        p2 - p1 < 32 * (FX_ONE as int),
    ensures
        tile_x(elapsed, p1) != tile_x(elapsed, p2),
{
    let m = 32 * (FX_ONE as int);
    let a1 = fxm(elapsed, FX_HALF as int) + m - p1;
    let a2 = fxm(elapsed, FX_HALF as int) + m - p2;
    vstd::arithmetic::div_mod::lemma_fundamental_div_mod(a1, m);
    vstd::arithmetic::div_mod::lemma_fundamental_div_mod(a2, m);
    if tile_x(elapsed, p1) == tile_x(elapsed, p2) {
        let q1 = a1 / m;
        let q2 = a2 / m;
        assert(a1 - a2 == m * (q1 - q2)) by (nonlinear_arith)
            requires a1 == m * q1 + a1 % m, a2 == m * q2 + a2 % m, a1 % m == a2 % m {};
        assert(false) by (nonlinear_arith)
            requires a1 - a2 == m * (q1 - q2), 0 < a1 - a2 < m, m == 320_000 {};
    }
}

/// Law: the four ground tiles, a quarter period of phase apart, sit at
/// pairwise distinct positions at every instant.
pub proof fn lemma_tiles_distinct(elapsed: int)
    ensures
        tile_x(elapsed, 0) != tile_x(elapsed, 80_000),
        tile_x(elapsed, 0) != tile_x(elapsed, 160_000),
        tile_x(elapsed, 0) != tile_x(elapsed, 240_000),
        tile_x(elapsed, 80_000) != tile_x(elapsed, 160_000),
        tile_x(elapsed, 80_000) != tile_x(elapsed, 240_000),
        tile_x(elapsed, 160_000) != tile_x(elapsed, 240_000),
{
    lemma_tile_pair_distinct(elapsed, 0, 80_000);
    lemma_tile_pair_distinct(elapsed, 0, 160_000);
    lemma_tile_pair_distinct(elapsed, 0, 240_000);
    lemma_tile_pair_distinct(elapsed, 80_000, 160_000);
    lemma_tile_pair_distinct(elapsed, 80_000, 240_000);
    lemma_tile_pair_distinct(elapsed, 160_000, 240_000);
}

/// One choreographed pose: the fixed tilt, the fixed offset, the
/// time-driven turn about Y, and the fixed final offset, composed in that
/// order. The second dancer mirrors the tilt and the first offset.
pub open spec fn dance_translation(elapsed: int, second: bool) -> AffineMatrix {
    let tilt = if second { xrot_of(-7_854) } else { xrot_of(7_854) };
    let offset = if second {
        translate_only_m(Vec3 { x: (-1_000) as i64, y: 0, z: (-2_000) as i64 })
    } else {
        translate_only_m(Vec3 { x: 1_000, y: 0, z: 2_000 })
    };
    times_m(
        times_m(times_m(tilt, offset), yrot_of(elapsed)),
        translate_only_m(Vec3 { x: 0, y: (-2_000) as i64, z: (-5_000) as i64 }),
    )
}

/// The dancers' colour at a brightness: warm white scaled on the colour
/// channels.
pub open spec fn dance_color(brightness: int) -> Color {
    Color {
        r: fxm(FX_ONE as int, brightness) as i64,
        g: fxm(8_500, brightness) as i64,
        b: fxm(4_500, brightness) as i64,
        a: FX_ONE,
    }
}

/// The squared distance between two points, executable.
pub fn dist_sq(left: Vec3, right: Vec3) -> (r: i64)
    requires
        iabs(left.x as int) <= 500_000_000,
        iabs(left.y as int) <= 500_000_000,
        iabs(left.z as int) <= 500_000_000,
        iabs(right.x as int) <= 500_000_000,
        iabs(right.y as int) <= 500_000_000,
        iabs(right.z as int) <= 500_000_000,
    ensures
        r as int == spec_dist_sq(left, right),
        r >= 0,
{
    let dx: i64 = left.x - right.x;
    let dy: i64 = left.y - right.y;
    let dz: i64 = left.z - right.z;
    proof {
        assert(0 <= dx * dx <= 1_000_000_000_000_000_000 && 0 <= dy * dy
            <= 1_000_000_000_000_000_000 && 0 <= dz * dz <= 1_000_000_000_000_000_000)
            by (nonlinear_arith)
            requires iabs(dx as int) <= 1_000_000_000, iabs(dy as int) <= 1_000_000_000,
                iabs(dz as int) <= 1_000_000_000 {};
    }
    dx * dx + dy * dy + dz * dz
}

/// The gaze target, executable.
fn blend_point(other: Vec3, head: Vec3, affection: i64) -> (r: Vec3)
    requires
        iabs(other.x as int) <= POS_IN_MAX as int,
        iabs(other.y as int) <= POS_IN_MAX as int,
        iabs(other.z as int) <= POS_IN_MAX as int,
        iabs(head.x as int) <= POS_IN_MAX as int,
        iabs(head.y as int) <= POS_IN_MAX as int,
        iabs(head.z as int) <= POS_IN_MAX as int,
        iabs(affection as int) <= 2 * FX_ONE as int,
    ensures
        r == blend_point_v(other, head, affection as int),
        iabs(r.x as int) <= SEED_TR_MAX as int,
        iabs(r.y as int) <= SEED_TR_MAX as int,
        iabs(r.z as int) <= SEED_TR_MAX as int,
{
    proof {
        lemma_fxm_bound(other.x as int, affection as int, POS_IN_MAX as int, 2 * FX_ONE as int);
        lemma_fxm_bound(other.y as int, affection as int, POS_IN_MAX as int, 2 * FX_ONE as int);
        lemma_fxm_bound(other.z as int, affection as int, POS_IN_MAX as int, 2 * FX_ONE as int);
        lemma_fxm_bound(FX_ONE - affection, head.x as int, 3 * FX_ONE as int, POS_IN_MAX as int);
        lemma_fxm_bound(FX_ONE - affection, head.y as int, 3 * FX_ONE as int, POS_IN_MAX as int);
        lemma_fxm_bound(FX_ONE - affection, head.z as int, 3 * FX_ONE as int, POS_IN_MAX as int);
    }
    Vec3 {
        x: fx_mul(other.x, affection) + fx_mul(FX_ONE - affection, head.x),
        y: fx_mul(other.y, affection) + fx_mul(FX_ONE - affection, head.y),
        z: fx_mul(other.z, affection) + fx_mul(FX_ONE - affection, head.z),
    }
}

impl Scene {
    /// A fresh scene: ambient seeds two units back at four-percent scale,
    /// dancers at four-percent scale, four dark ground tiles with the
    /// second of each pair mirrored on X, the camera at the origin, all
    /// axes at zero.
    pub fn new() -> (r: Self)
        ensures
            scene_wf(r),
            r.dandelion_seed1 == (DandelionSeed {
                translation: AffineMatrix {
                    m30: 0,
                    m31: 0,
                    m32: (-20_000) as i64,
                    ..ident_m()
                },
                rotation: ident_m(),
                scale: AffineMatrix { m00: 400, m11: 400, m22: 400, ..ident_m() },
                theta: 0,
                theta_delta: 0,
                color: Color { r: 0, g: 0, b: 0, a: FX_ONE },
                fancy: false,
            }),
            r.dandelion_seed2 == r.dandelion_seed1,
            r.dancing_dandelion1 == (DandelionSeed {
                translation: ident_m(),
                rotation: ident_m(),
                scale: AffineMatrix { m00: 400, m11: 400, m22: 400, ..ident_m() },
                theta: 0,
                theta_delta: 0,
                color: Color { r: 0, g: 0, b: 0, a: FX_ONE },
                fancy: false,
            }),
            r.dancing_dandelion2 == r.dancing_dandelion1,
            r.ground == (Ground {
                translation: AffineMatrix {
                    m30: 0,
                    m31: (-10_000) as i64,
                    m32: (-20_000) as i64,
                    ..ident_m()
                },
                rotation: ident_m(),
                scale: ident_m(),
                color: Color { r: 0, g: 0, b: 0, a: FX_ONE },
            }),
            r.ground_2 == r.ground,
            r.ground_mirror == (Ground {
                scale: AffineMatrix {
                    m00: (-10_000) as i64,
                    m11: FX_ONE,
                    m22: FX_ONE,
                    ..ident_m()
                },
                ..r.ground
            }),
            r.ground_mirror_2 == r.ground_mirror,
            r.camera_pos == (Vec3 { x: 0, y: 0, z: 0 }),
            r.axes == (CrossfadeAxes { brightness: 0, dancing_brightness: 0, drift_strength: 0 }),
    {
        let mut dandelion_seed1 = DandelionSeed::new();
        dandelion_seed1.translation.set_translate(0, 0, -20_000);
        dandelion_seed1.scale.set_scale(400, 400, 400);
        let mut dandelion_seed2 = DandelionSeed::new();
        dandelion_seed2.translation.set_translate(0, 0, -20_000);
        dandelion_seed2.scale.set_scale(400, 400, 400);

        let mut dancing_dandelion1 = DandelionSeed::new();
        dancing_dandelion1.scale.set_scale(400, 400, 400);
        let mut dancing_dandelion2 = DandelionSeed::new();
        dancing_dandelion2.scale.set_scale(400, 400, 400);

        let ground = Ground::new();
        let mut ground_mirror = Ground::new();
        ground_mirror.scale.set_scale(-10_000, FX_ONE, FX_ONE);
        let ground_2 = Ground::new();
        let mut ground_mirror_2 = Ground::new();
        ground_mirror_2.scale.set_scale(-10_000, FX_ONE, FX_ONE);

        Scene {
            dandelion_seed1,
            dandelion_seed2,
            dancing_dandelion1,
            dancing_dandelion2,
            ground,
            ground_mirror,
            ground_2,
            ground_mirror_2,
            rng: new_os_rng(),
            camera_pos: Vec3 { x: 0, y: 0, z: 0 },
            axes: CrossfadeAxes::new(),
        }
    }

    /// Scroll the four ground tiles a quarter period apart and set their
    /// brightness. Each tile's X position stays in the sixteen-unit band.
    pub fn update_ground(&mut self, brightness: i64, elapsed: i64)
        requires
            0 <= elapsed <= TIME_MAX,
        ensures
            final(self).ground.translation == (AffineMatrix {
                m30: tile_x(elapsed as int, 0) as i64,
                m31: (-10_000) as i64,
                m32: (-20_000) as i64,
                ..old(self).ground.translation
            }),
            final(self).ground_mirror.translation == (AffineMatrix {
                m30: tile_x(elapsed as int, 80_000) as i64,
                m31: (-10_000) as i64,
                m32: (-20_000) as i64,
                ..old(self).ground_mirror.translation
            }),
            final(self).ground_2.translation == (AffineMatrix {
                m30: tile_x(elapsed as int, 160_000) as i64,
                m31: (-10_000) as i64,
                m32: (-20_000) as i64,
                ..old(self).ground_2.translation
            }),
            final(self).ground_mirror_2.translation == (AffineMatrix {
                m30: tile_x(elapsed as int, 240_000) as i64,
                m31: (-10_000) as i64,
                m32: (-20_000) as i64,
                ..old(self).ground_mirror_2.translation
            }),
            final(self).ground.color == (Color {
                r: brightness,
                g: brightness,
                b: brightness,
                a: FX_ONE,
            }),
            final(self).ground_mirror.color == final(self).ground.color,
            final(self).ground_2.color == final(self).ground.color,
            final(self).ground_mirror_2.color == final(self).ground.color,
            final(self).ground.rotation == old(self).ground.rotation,
            final(self).ground.scale == old(self).ground.scale,
            final(self).ground_mirror.rotation == old(self).ground_mirror.rotation,
            final(self).ground_mirror.scale == old(self).ground_mirror.scale,
            final(self).ground_2.rotation == old(self).ground_2.rotation,
            final(self).ground_2.scale == old(self).ground_2.scale,
            final(self).ground_mirror_2.rotation == old(self).ground_mirror_2.rotation,
            final(self).ground_mirror_2.scale == old(self).ground_mirror_2.scale,
            final(self).dandelion_seed1 == old(self).dandelion_seed1,
            final(self).dandelion_seed2 == old(self).dandelion_seed2,
            final(self).dancing_dandelion1 == old(self).dancing_dandelion1,
            final(self).dancing_dandelion2 == old(self).dancing_dandelion2,
            final(self).camera_pos == old(self).camera_pos,
            final(self).axes == old(self).axes,
            final(self).rng == old(self).rng,
    {
        proof {
            lemma_tdiv_bounds(elapsed as int * (FX_HALF as int), FX_ONE as int);
            assert(iabs(elapsed as int * (FX_HALF as int)) == elapsed as int * (FX_HALF as int)
                && elapsed as int * (FX_HALF as int) <= TIME_MAX as int * (FX_HALF as int))
                by (nonlinear_arith)
                requires 0 <= elapsed <= TIME_MAX {};
        }
        let e2: i64 = fx_mul(elapsed, FX_HALF) + 32 * FX_ONE;
        let period: i64 = 32 * FX_ONE;
        let g0: i64 = pmod(e2, period) - 16 * FX_ONE;
        let g1: i64 = pmod(e2 - 80_000, period) - 16 * FX_ONE;
        let g2: i64 = pmod(e2 - 160_000, period) - 16 * FX_ONE;
        let g3: i64 = pmod(e2 - 240_000, period) - 16 * FX_ONE;

        self.ground.translation.set_translate(g0, -10_000, -20_000);
        self.ground_mirror.translation.set_translate(g1, -10_000, -20_000);
        self.ground_2.translation.set_translate(g2, -10_000, -20_000);
        self.ground_mirror_2.translation.set_translate(g3, -10_000, -20_000);

        let c = Color::from_gray(brightness, FX_ONE);
        self.ground.color = c;
        self.ground_mirror.color = c;
        self.ground_2.color = c;
        self.ground_mirror_2.color = c;
    }

    /// One follow-behaviour step for one seed: wobble the heading with a
    /// smoothed random step, smooth the translation a tenth of the way to
    /// the body and pull it toward the parking spot by the drift strength,
    /// aim the rotation at the gaze point in the wobbled frame, and take
    /// the supplied colour. The random draw is only in the heading: the
    /// translation is an exact function of the old state, and the new
    /// heading rate stays within one with the heading reduced to one turn.
    pub fn update_dandelion(
        dandelion: &mut DandelionSeed,
        rng: &mut rand::rngs::OsRng,
        body_pos: Vec3,
        head_pos: Vec3,
        color: Color,
        drift_strength: i64,
    )
        requires
            seed_wf(*old(dandelion)),
            0 <= drift_strength <= FX_ONE,
            iabs(body_pos.x as int) <= SEED_TR_MAX as int,
            iabs(body_pos.y as int) <= SEED_TR_MAX as int,
            iabs(body_pos.z as int) <= SEED_TR_MAX as int,
            iabs(head_pos.x as int) <= SEED_TR_MAX as int,
            iabs(head_pos.y as int) <= SEED_TR_MAX as int,
            iabs(head_pos.z as int) <= SEED_TR_MAX as int,
        ensures
            seed_wf(*final(dandelion)),
            final(dandelion).translation == updated_translation(
                old(dandelion).translation,
                body_pos,
                drift_strength as int,
            ),
            final(dandelion).theta as int == (old(dandelion).theta
                + final(dandelion).theta_delta) % (FX_TAU as int),
            exists|s: int|
                -(FX_ONE as int) <= s < FX_ONE as int && final(dandelion).theta_delta as int
                    == fxm(100, s) + fxm(9_900, old(dandelion).theta_delta as int),
            ({
                let ym = yrot_of(final(dandelion).theta as int);
                let o = apply3_v(ym, body_pos);
                let t = apply3_v(ym, head_pos);
                if o != t {
                    final(dandelion).rotation == combined_m(
                        old(dandelion).rotation,
                        times_m(rotate_towards_m(o, t), ym),
                        1_000,
                    )
                } else {
                    final(dandelion).rotation == old(dandelion).rotation
                }
            }),
            final(dandelion).color == color,
            final(dandelion).scale == old(dandelion).scale,
            final(dandelion).fancy == old(dandelion).fancy,
    {
        let raw = next_raw(rng);
        let u: i64 = unit_sample(raw);
        let sample: i64 = 2 * u - FX_ONE;
        proof {
            lemma_fxm_bound(100, sample as int, 100, FX_ONE as int);
            lemma_fxm_bound(9_900, dandelion.theta_delta as int, 9_900, FX_ONE as int);
        }
        let nd: i64 = fx_mul(100, sample) + fx_mul(9_900, dandelion.theta_delta);
        dandelion.theta_delta = nd;
        dandelion.theta = crate::fixed::emod(dandelion.theta + nd, FX_TAU);

        let mut theta_m = AffineMatrix::new();
        theta_m.set_rotate_y(dandelion.theta);
        proof {
            lemma_sc_near_unit(dandelion.theta as int);
            assert(theta_m == yrot_of(dandelion.theta as int));
        }

        let mut drift_position = AffineMatrix::new();
        drift_position.set_translate(100_000, -10_000, -20_000);
        proof {
            assert(drift_position == drift_parking_m());
        }

        let mut translate = AffineMatrix::new();
        translate.set_translate(body_pos.x, body_pos.y, body_pos.z);
        proof {
            assert(translate == translate_only_m(body_pos));
        }
        let ghost tr0 = dandelion.translation;
        dandelion.translation.combine(translate, 1_000);
        proof {
            lemma_combine_value(tr0, dandelion.translation, translate, 1_000,
                SEED_TR_MAX as int);
        }
        let ghost tr1 = dandelion.translation;
        dandelion.translation.combine(drift_position, drift_strength);
        proof {
            lemma_combine_value(tr1, dandelion.translation, drift_position,
                drift_strength as int, SEED_TR_MAX as int);
        }

        proof {
            lemma_apply3_bound(theta_m, body_pos, FX_ONE as int, SEED_TR_MAX as int);
            lemma_apply3_bound(theta_m, head_pos, FX_ONE as int, SEED_TR_MAX as int);
        }
        let o = theta_m.multiply_3d(body_pos);
        let t = theta_m.multiply_3d(head_pos);
        proof {
            assert(o == apply3_v(yrot_of(dandelion.theta as int), body_pos));
            assert(t == apply3_v(yrot_of(dandelion.theta as int), head_pos));
        }
        if o != t {
            let mut rotation = AffineMatrix::new();
            rotation.rotate_towards(o, t);
            let composed = rotation.times(&theta_m);
            proof {
                lemma_small_product(rotation, theta_m, composed, 16 * FX_ONE as int,
                    FX_ONE as int, 64 * FX_ONE as int);
            }
            let ghost rot0 = dandelion.rotation;
            dandelion.rotation.combine(composed, 1_000);
            proof {
                lemma_combine_value(rot0, dandelion.rotation, composed, 1_000,
                    SEED_ROT_MAX as int);
            }
        }
        dandelion.color = color;
    }

    /// Resolve which ambient seed follows which body: when each seed is
    /// nearer the other's body and the mismatch exceeds the one-unit
    /// slack, the two seeds exchange their entire state, keeping each
    /// motion history continuous.
    pub fn check_dandelions(&mut self, tracking: &TrackingSnapshot)
        requires
            seed_wf(old(self).dandelion_seed1),
            seed_wf(old(self).dandelion_seed2),
            iabs(tracking.body1_base.x as int) <= POS_IN_MAX as int,
            iabs(tracking.body1_base.y as int) <= POS_IN_MAX as int,
            iabs(tracking.body1_base.z as int) <= POS_IN_MAX as int,
            iabs(tracking.body2_base.x as int) <= POS_IN_MAX as int,
            iabs(tracking.body2_base.y as int) <= POS_IN_MAX as int,
            iabs(tracking.body2_base.z as int) <= POS_IN_MAX as int,
        ensures
            swap_wanted(old(self).dandelion_seed1, old(self).dandelion_seed2,
                tracking.body1_base, tracking.body2_base) ==> {
                &&& final(self).dandelion_seed1 == old(self).dandelion_seed2
                &&& final(self).dandelion_seed2 == old(self).dandelion_seed1
            },
            !swap_wanted(old(self).dandelion_seed1, old(self).dandelion_seed2,
                tracking.body1_base, tracking.body2_base) ==> {
                &&& final(self).dandelion_seed1 == old(self).dandelion_seed1
                &&& final(self).dandelion_seed2 == old(self).dandelion_seed2
            },
            final(self).dancing_dandelion1 == old(self).dancing_dandelion1,
            final(self).dancing_dandelion2 == old(self).dancing_dandelion2,
            final(self).ground == old(self).ground,
            final(self).ground_mirror == old(self).ground_mirror,
            final(self).ground_2 == old(self).ground_2,
            final(self).ground_mirror_2 == old(self).ground_mirror_2,
            final(self).camera_pos == old(self).camera_pos,
            final(self).axes == old(self).axes,
            final(self).rng == old(self).rng,
    {
        let d1_pos = self.dandelion_seed1.get_position();
        let d2_pos = self.dandelion_seed2.get_position();
        let body1_pos = tracking.body1_base;
        let body2_pos = tracking.body2_base;

        let d1_b1 = dist_sq(d1_pos, body1_pos);
        let d2_b1 = dist_sq(d2_pos, body1_pos);
        let d1_b2 = dist_sq(d1_pos, body2_pos);
        let d2_b2 = dist_sq(d2_pos, body2_pos);

        let threshold: i64 = FX_ONE * FX_ONE;
        if d2_b1 < d1_b1 && d1_b2 < d2_b2 && (d1_b1 > threshold || d2_b2 > threshold) {
            self.swap_dandelions();
        }
    }

    /// Exchange the entire state of the two ambient seeds.
    pub fn swap_dandelions(&mut self)
        ensures
            final(self).dandelion_seed1 == old(self).dandelion_seed2,
            final(self).dandelion_seed2 == old(self).dandelion_seed1,
            final(self).dancing_dandelion1 == old(self).dancing_dandelion1,
            final(self).dancing_dandelion2 == old(self).dancing_dandelion2,
            final(self).ground == old(self).ground,
            final(self).ground_mirror == old(self).ground_mirror,
            final(self).ground_2 == old(self).ground_2,
            final(self).ground_mirror_2 == old(self).ground_mirror_2,
            final(self).camera_pos == old(self).camera_pos,
            final(self).axes == old(self).axes,
            final(self).rng == old(self).rng,
    {
        let t = self.dandelion_seed1;
        self.dandelion_seed1 = self.dandelion_seed2;
        self.dandelion_seed2 = t;
    }

    /// Pose the two choreographed seeds for the dance: a deterministic
    /// closed-form transform of the elapsed time, restartable from any
    /// instant, rendered with the alternate variant in the warm dance
    /// colour at the given brightness.
    #[verifier::rlimit(100)]
    pub fn dandelion_dance(&mut self, brightness: i64, elapsed: i64)
        requires
            scene_wf(*old(self)),
            0 <= brightness <= FX_ONE,
            0 <= elapsed <= TIME_MAX,
        ensures
            scene_wf(*final(self)),
            final(self).dancing_dandelion1.translation == dance_translation(elapsed as int, false),
            final(self).dancing_dandelion2.translation == dance_translation(elapsed as int, true),
            final(self).dancing_dandelion1.rotation == ident_m(),
            final(self).dancing_dandelion2.rotation == ident_m(),
            final(self).dancing_dandelion1.color == dance_color(brightness as int),
            final(self).dancing_dandelion2.color == dance_color(brightness as int),
            final(self).dancing_dandelion1.fancy,
            final(self).dancing_dandelion2.fancy,
            final(self).dancing_dandelion1.scale == old(self).dancing_dandelion1.scale,
            final(self).dancing_dandelion2.scale == old(self).dancing_dandelion2.scale,
            final(self).dancing_dandelion1.theta == old(self).dancing_dandelion1.theta,
            final(self).dancing_dandelion2.theta == old(self).dancing_dandelion2.theta,
            final(self).dandelion_seed1 == old(self).dandelion_seed1,
            final(self).dandelion_seed2 == old(self).dandelion_seed2,
            final(self).ground == old(self).ground,
            final(self).ground_mirror == old(self).ground_mirror,
            final(self).ground_2 == old(self).ground_2,
            final(self).ground_mirror_2 == old(self).ground_mirror_2,
            final(self).camera_pos == old(self).camera_pos,
            final(self).axes == old(self).axes,
            final(self).rng == old(self).rng,
    {
        let mut color = Color::from_rgb_float(FX_ONE, 8_500, 4_500);
        color.scale(brightness);

        let mut initial_rotation = AffineMatrix::new();
        initial_rotation.set_rotate_x(7_854);
        proof {
            lemma_sc_near_unit(7_854);
            assert(initial_rotation == xrot_of(7_854));
        }
        let mut position = AffineMatrix::new();
        position.set_translate(1_000, 0, 2_000);
        let mut y_rotation = AffineMatrix::new();
        y_rotation.set_rotate_y(elapsed);
        proof {
            lemma_sc_near_unit(elapsed as int);
            assert(y_rotation == yrot_of(elapsed as int));
        }
        let mut translation = AffineMatrix::new();
        translation.set_translate(0, -2_000, -5_000);

        let p1 = initial_rotation.times(&position);
        proof {
            lemma_small_product(initial_rotation, position, p1, FX_ONE as int, FX_ONE as int,
                4 * FX_ONE as int);
        }
        let p2 = p1.times(&y_rotation);
        proof {
            lemma_small_product(p1, y_rotation, p2, 4 * FX_ONE as int, FX_ONE as int,
                16 * FX_ONE as int);
        }
        let p3 = p2.times(&translation);
        proof {
            lemma_small_product(p2, translation, p3, 16 * FX_ONE as int, FX_ONE as int,
                64 * FX_ONE as int);
        }
        self.dancing_dandelion1.rotation = AffineMatrix::new();
        self.dancing_dandelion1.translation = p3;
        self.dancing_dandelion1.color = color;

        let mut initial_rotation2 = AffineMatrix::new();
        initial_rotation2.set_rotate_x(-7_854);
        proof {
            lemma_sc_near_unit(-7_854);
            assert(initial_rotation2 == xrot_of(-7_854));
        }
        let mut position2 = AffineMatrix::new();
        position2.set_translate(-1_000, 0, -2_000);

        let q1 = initial_rotation2.times(&position2);
        proof {
            lemma_small_product(initial_rotation2, position2, q1, FX_ONE as int, FX_ONE as int,
                4 * FX_ONE as int);
        }
        let q2 = q1.times(&y_rotation);
        proof {
            lemma_small_product(q1, y_rotation, q2, 4 * FX_ONE as int, FX_ONE as int,
                16 * FX_ONE as int);
        }
        let q3 = q2.times(&translation);
        proof {
            lemma_small_product(q2, translation, q3, 16 * FX_ONE as int, FX_ONE as int,
                64 * FX_ONE as int);
        }
        self.dancing_dandelion2.rotation = AffineMatrix::new();
        self.dancing_dandelion2.translation = q3;
        self.dancing_dandelion2.color = color;

        self.dancing_dandelion1.fancy = true;
        self.dancing_dandelion2.fancy = true;
    }

    /// One frame of the scene: advance the crossfade axes from the wanted
    /// toggles, pose the dancers while the dance axis is up, scroll the
    /// ground at the brightness, resolve the seed-to-body assignment, and
    /// run the follow behaviour for both ambient seeds. The translations
    /// are an exact function of the old state; the heading wobble is the
    /// smoothed random step, and each seed's rotation aims at the
    /// affection-weighted blend of the other body and its own head in the
    /// wobbled frame, as `update_dandelion` states.
    #[verifier::rlimit(100)]
    pub fn update(&mut self, state: DandelionState, tracking: &TrackingSnapshot, elapsed: i64)
        requires
            scene_wf(*old(self)),
            iabs(state.affection as int) <= 2 * FX_ONE as int,
            0 <= elapsed <= TIME_MAX,
            iabs(tracking.body1_base.x as int) <= POS_IN_MAX as int,
            iabs(tracking.body1_base.y as int) <= POS_IN_MAX as int,
            iabs(tracking.body1_base.z as int) <= POS_IN_MAX as int,
            iabs(tracking.body2_base.x as int) <= POS_IN_MAX as int,
            iabs(tracking.body2_base.y as int) <= POS_IN_MAX as int,
            iabs(tracking.body2_base.z as int) <= POS_IN_MAX as int,
            iabs(tracking.body1_head.x as int) <= POS_IN_MAX as int,
            iabs(tracking.body1_head.y as int) <= POS_IN_MAX as int,
            iabs(tracking.body1_head.z as int) <= POS_IN_MAX as int,
            iabs(tracking.body2_head.x as int) <= POS_IN_MAX as int,
            iabs(tracking.body2_head.y as int) <= POS_IN_MAX as int,
            iabs(tracking.body2_head.z as int) <= POS_IN_MAX as int,
        ensures
            scene_wf(*final(self)),
            final(self).axes.dancing_brightness as int == spec_dance_axes(old(self).axes,
                state.started, state.scene_3).1,
            final(self).axes.brightness as int == spec_brightness(
                spec_dance_axes(old(self).axes, state.started, state.scene_3).0,
                spec_dance_axes(old(self).axes, state.started, state.scene_3).1,
                state.started,
            ),
            final(self).axes.drift_strength as int == spec_drift(
                old(self).axes.drift_strength as int,
                state.started,
                state.scene_5,
            ),
            final(self).axes.dancing_brightness > 0 ==> {
                &&& final(self).dancing_dandelion1.translation == dance_translation(
                    elapsed as int,
                    false,
                )
                &&& final(self).dancing_dandelion2.translation == dance_translation(
                    elapsed as int,
                    true,
                )
                &&& final(self).dancing_dandelion1.fancy
                &&& final(self).dancing_dandelion2.fancy
                &&& final(self).dancing_dandelion1.color == dance_color(
                    final(self).axes.dancing_brightness as int,
                )
            },
            final(self).axes.dancing_brightness == 0 ==> final(self).dancing_dandelion1
                == old(self).dancing_dandelion1 && final(self).dancing_dandelion2
                == old(self).dancing_dandelion2,
            final(self).ground.translation.m30 as int == tile_x(elapsed as int, 0),
            final(self).ground_mirror.translation.m30 as int == tile_x(elapsed as int, 80_000),
            final(self).ground_2.translation.m30 as int == tile_x(elapsed as int, 160_000),
            final(self).ground_mirror_2.translation.m30 as int == tile_x(elapsed as int, 240_000),
            final(self).ground.color.r == final(self).axes.brightness,
            ({
                let sw = swap_wanted(old(self).dandelion_seed1, old(self).dandelion_seed2,
                    tracking.body1_base, tracking.body2_base);
                let s1 = if sw { old(self).dandelion_seed2 } else { old(self).dandelion_seed1 };
                let s2 = if sw { old(self).dandelion_seed1 } else { old(self).dandelion_seed2 };
                &&& final(self).dandelion_seed1.translation == updated_translation(
                    s1.translation,
                    tracking.body1_base,
                    0,
                )
                &&& final(self).dandelion_seed2.translation == updated_translation(
                    s2.translation,
                    tracking.body2_base,
                    final(self).axes.drift_strength as int,
                )
                &&& final(self).dandelion_seed1.scale == s1.scale
                &&& final(self).dandelion_seed2.scale == s2.scale
                &&& final(self).dandelion_seed1.theta as int == (s1.theta
                    + final(self).dandelion_seed1.theta_delta) % (FX_TAU as int)
                &&& final(self).dandelion_seed2.theta as int == (s2.theta
                    + final(self).dandelion_seed2.theta_delta) % (FX_TAU as int)
                &&& exists|sample: int|
                    -(FX_ONE as int) <= sample < FX_ONE as int
                        && final(self).dandelion_seed1.theta_delta as int == fxm(100, sample)
                        + fxm(9_900, s1.theta_delta as int)
                &&& exists|sample: int|
                    -(FX_ONE as int) <= sample < FX_ONE as int
                        && final(self).dandelion_seed2.theta_delta as int == fxm(100, sample)
                        + fxm(9_900, s2.theta_delta as int)
                &&& ({
                    let ym = yrot_of(final(self).dandelion_seed1.theta as int);
                    let gaze = blend_point_v(tracking.body2_base, tracking.body1_head,
                        state.affection as int);
                    let o = apply3_v(ym, tracking.body1_base);
                    let t = apply3_v(ym, gaze);
                    if o != t {
                        final(self).dandelion_seed1.rotation == combined_m(
                            s1.rotation,
                            times_m(rotate_towards_m(o, t), ym),
                            1_000,
                        )
                    } else {
                        final(self).dandelion_seed1.rotation == s1.rotation
                    }
                })
                &&& ({
                    let ym = yrot_of(final(self).dandelion_seed2.theta as int);
                    let gaze = blend_point_v(tracking.body1_base, tracking.body2_head,
                        state.affection as int);
                    let o = apply3_v(ym, tracking.body2_base);
                    let t = apply3_v(ym, gaze);
                    if o != t {
                        final(self).dandelion_seed2.rotation == combined_m(
                            s2.rotation,
                            times_m(rotate_towards_m(o, t), ym),
                            1_000,
                        )
                    } else {
                        final(self).dandelion_seed2.rotation == s2.rotation
                    }
                })
            }),
            !final(self).dandelion_seed1.fancy,
            !final(self).dandelion_seed2.fancy,
            final(self).dandelion_seed1.color == (Color {
                r: final(self).axes.brightness,
                g: final(self).axes.brightness,
                b: final(self).axes.brightness,
                a: FX_ONE,
            }),
            final(self).dandelion_seed2.color == final(self).dandelion_seed1.color,
            final(self).camera_pos == old(self).camera_pos,
    {
        self.axes.advance(state.started, state.scene_3, state.scene_5);
        if self.axes.dancing_brightness > 0 {
            let db = self.axes.dancing_brightness;
            self.dandelion_dance(db, elapsed);
        }
        let b = self.axes.brightness;
        self.update_ground(b, elapsed);
        self.check_dandelions(tracking);
        self.dandelion_seed1.fancy = false;
        self.dandelion_seed2.fancy = false;
        let color = Color::from_gray(b, FX_ONE);
        let affection = state.affection;

        let pos1 = blend_point(tracking.body2_base, tracking.body1_head, affection);
        Self::update_dandelion(
            &mut self.dandelion_seed1,
            &mut self.rng,
            tracking.body1_base,
            pos1,
            color,
            0,
        );

        let pos2 = blend_point(tracking.body1_base, tracking.body2_head, affection);
        let drift = self.axes.drift_strength;
        Self::update_dandelion(
            &mut self.dandelion_seed2,
            &mut self.rng,
            tracking.body2_base,
            pos2,
            color,
            drift,
        );
    }

    /// Whether the first ambient seed is the farther one and must be
    /// painted first for back-to-front compositing.
    pub fn ambient_draw_first(&self) -> (r: bool)
        ensures
            r == (self.dandelion_seed1.translation.m32 < self.dandelion_seed2.translation.m32),
    {
        self.dandelion_seed1.translation.m32 < self.dandelion_seed2.translation.m32
    }

    /// Whether the first choreographed seed must be painted first.
    pub fn dancing_draw_first(&self) -> (r: bool)
        ensures
            r == (self.dancing_dandelion1.translation.m32
                < self.dancing_dandelion2.translation.m32),
    {
        self.dancing_dandelion1.translation.m32 < self.dancing_dandelion2.translation.m32
    }

    /// The view transform: the camera position negated into a translation.
    pub fn view_matrix(&self) -> (r: AffineMatrix)
        requires
            iabs(self.camera_pos.x as int) <= CAM_MAX as int,
            iabs(self.camera_pos.y as int) <= CAM_MAX as int,
            iabs(self.camera_pos.z as int) <= CAM_MAX as int,
        ensures
            r == (AffineMatrix {
                m30: (-self.camera_pos.x) as i64,
                m31: (-self.camera_pos.y) as i64,
                m32: (-self.camera_pos.z) as i64,
                ..ident_m()
            }),
    {
        let mut m = AffineMatrix::new();
        m.set_translate(-self.camera_pos.x, -self.camera_pos.y, -self.camera_pos.z);
        m
    }

    /// Move the camera by key steps: forward steps pull it along negative
    /// Z, side steps along positive X, a hundredth of a unit per step.
    pub fn nudge_camera(&mut self, forward: i64, side: i64)
        requires
            scene_wf(*old(self)),
            -10 <= forward <= 10,
            -10 <= side <= 10,
            iabs(old(self).camera_pos.x as int) <= CAM_MAX as int - 1_000,
            iabs(old(self).camera_pos.z as int) <= CAM_MAX as int - 1_000,
        ensures
            scene_wf(*final(self)),
            final(self).camera_pos.x as int == old(self).camera_pos.x + side * 100,
            final(self).camera_pos.y == old(self).camera_pos.y,
            final(self).camera_pos.z as int == old(self).camera_pos.z - forward * 100,
            final(self).dandelion_seed1 == old(self).dandelion_seed1,
            final(self).dandelion_seed2 == old(self).dandelion_seed2,
            final(self).axes == old(self).axes,
            final(self).rng == old(self).rng,
    {
        self.camera_pos = Vec3 {
            x: self.camera_pos.x + side * 100,
            y: self.camera_pos.y,
            z: self.camera_pos.z - forward * 100,
        };
    }
}

} // verus!
