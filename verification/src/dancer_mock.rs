//! The mock dancer: a bounded random walk standing in for live tracking.
//!
//! One step moves a body position by up to 0.01 units per axis, drawing
//! each axis direction from a range that pulls the walk back toward the
//! stage box, and places the head a fixed offset above the spine. The
//! draws are random, so the contract states what holds of every outcome:
//! the step size, the pull-back at the box walls, and the head offset.

use vstd::prelude::*;
use crate::fixed::{FX_ONE, iabs, fxm, fx_mul, lemma_fxm_bound};
use crate::affine_matrix::Vec3;
use crate::rng::{next_raw, range_sample};

verus! {

/// Half-width of the stage box on X, one unit.
pub const WALK_X_LIMIT: i64 = 10_000;

/// Half-height of the stage box on Y, 0.2 units.
pub const WALK_Y_LIMIT: i64 = 2_000;

/// Head height above the base spine, 0.2 units.
pub const HEAD_OFFSET: i64 = 2_000;

/// Largest coordinate magnitude the walk accepts; far beyond the box, and
/// small enough that one step cannot overflow.
pub const WALK_POS_MAX: i64 = 1_000_000_000_000;

/// One step of one axis: the drawn direction scaled by 0.01.
fn walk_step(cur: i64, dir: i64) -> (r: i64)
    requires
        iabs(cur as int) <= WALK_POS_MAX as int,
        -FX_ONE <= dir <= FX_ONE,
    ensures
        r as int == cur + fxm(dir as int, 100),
        iabs(r as int - cur as int) <= 100,
{
    proof {
        lemma_fxm_bound(dir as int, 100, FX_ONE as int, 100);
    }
    cur + fx_mul(dir, 100)
}

/// One tick of the mock dancer for one body: the new base-spine position
/// and the head position above it. Each axis moves by at most 0.01; at a
/// box wall the drawn range only points back inside, so an escaped walk
/// cannot move further out; the head sits exactly 0.2 above the new spine.
pub fn mock_step(cur: Vec3, rng: &mut rand::rngs::OsRng) -> (r: (Vec3, Vec3))
    requires
        iabs(cur.x as int) <= WALK_POS_MAX as int,
        iabs(cur.y as int) <= WALK_POS_MAX as int,
        iabs(cur.z as int) <= WALK_POS_MAX as int,
    ensures
        iabs(r.0.x as int - cur.x as int) <= 100,
        iabs(r.0.y as int - cur.y as int) <= 100,
        iabs(r.0.z as int - cur.z as int) <= 100,
        cur.x > WALK_X_LIMIT ==> r.0.x <= cur.x,
        cur.x < -WALK_X_LIMIT ==> r.0.x >= cur.x,
        cur.y < -WALK_Y_LIMIT ==> r.0.y >= cur.y,
        cur.z < -3 * FX_ONE ==> r.0.z >= cur.z,
        cur.z > -FX_ONE ==> r.0.z <= cur.z,
        r.1 == (Vec3 { x: r.0.x, y: (r.0.y + HEAD_OFFSET) as i64, z: r.0.z }),
{
    let dx: i64 = if cur.x > WALK_X_LIMIT {
        range_sample(next_raw(rng), -FX_ONE, 0)
    } else if cur.x < -WALK_X_LIMIT {
        range_sample(next_raw(rng), 0, FX_ONE)
    } else {
        range_sample(next_raw(rng), -FX_ONE, FX_ONE)
    };
    let dy: i64 = if cur.y > WALK_Y_LIMIT {
        range_sample(next_raw(rng), -WALK_Y_LIMIT, WALK_Y_LIMIT)
    } else if cur.y < -WALK_Y_LIMIT {
        range_sample(next_raw(rng), 0, WALK_Y_LIMIT)
    } else {
        range_sample(next_raw(rng), -WALK_Y_LIMIT, WALK_Y_LIMIT)
    };
    let dz: i64 = if cur.z < -3 * FX_ONE {
        range_sample(next_raw(rng), 0, FX_ONE)
    } else if cur.z > -FX_ONE {
        range_sample(next_raw(rng), -FX_ONE, 0)
    } else {
        range_sample(next_raw(rng), -FX_ONE, FX_ONE)
    };
    proof {
        lemma_step_sign(dx as int);
        lemma_step_sign(dy as int);
        lemma_step_sign(dz as int);
    }
    let nx: i64 = walk_step(cur.x, dx);
    let ny: i64 = walk_step(cur.y, dy);
    let nz: i64 = walk_step(cur.z, dz);
    let body = Vec3 { x: nx, y: ny, z: nz };
    let head = Vec3 { x: nx, y: ny + HEAD_OFFSET, z: nz };
    (body, head)
}

/// The scaled step keeps the sign of the drawn direction.
proof fn lemma_step_sign(dir: int)
    ensures
        dir <= 0 ==> fxm(dir, 100) <= 0,
        dir >= 0 ==> fxm(dir, 100) >= 0,
{
    crate::fixed::lemma_tdiv_bounds(dir * 100, FX_ONE as int);
    if dir <= 0 {
        assert(dir * 100 <= 0) by (nonlinear_arith) requires dir <= 0 {};
    }
    if dir >= 0 {
        assert(dir * 100 >= 0) by (nonlinear_arith) requires dir >= 0 {};
    }
}

} // verus!
