use dandelions::affine_matrix::Vec3;
use dandelions::kinect_tracker::{parse_position_args, route_position, OscArg, TrackedPoint,
    TrackingSnapshot};

#[test]
fn parse_rejects_wrong_length() {
    let args = vec![OscArg::Num(1), OscArg::Num(2)];
    assert_eq!(parse_position_args(&args), Err("args length must be 3"));
    let args = vec![OscArg::Num(1), OscArg::Num(2), OscArg::Num(3), OscArg::Num(4)];
    assert_eq!(parse_position_args(&args), Err("args length must be 3"));
}

#[test]
fn parse_rejects_non_scalar_arguments() {
    let args = vec![OscArg::Num(1), OscArg::Other, OscArg::Num(3)];
    assert_eq!(parse_position_args(&args), Err("args must be floats"));
}

#[test]
fn parse_reads_three_scalars() {
    let args = vec![OscArg::Num(1_000), OscArg::Num(-2_000), OscArg::Num(3_000)];
    assert_eq!(
        parse_position_args(&args),
        Ok(Vec3 { x: 1_000, y: -2_000, z: 3_000 })
    );
}

#[test]
fn route_mirrors_x_and_z() {
    let pos = Vec3 { x: 1_000, y: 2_000, z: 3_000 };
    let r = route_position(&String::from("/body1/head"), pos);
    assert_eq!(
        r,
        Some((TrackedPoint::Body1Head, Vec3 { x: -1_000, y: 2_000, z: -3_000 }))
    );
    let r = route_position(&String::from("/body2/head"), pos);
    assert_eq!(
        r,
        Some((TrackedPoint::Body2Head, Vec3 { x: -1_000, y: 2_000, z: -3_000 }))
    );
}

#[test]
fn route_drops_zero_spine_samples() {
    let zero = Vec3 { x: 0, y: 0, z: 0 };
    assert_eq!(route_position(&String::from("/body1/spine_mid"), zero), None);
    assert_eq!(route_position(&String::from("/body2/spine_mid"), zero), None);
    // A zero head sample is still stored.
    assert_eq!(
        route_position(&String::from("/body1/head"), zero),
        Some((TrackedPoint::Body1Head, zero))
    );
}

#[test]
fn route_accepts_nonzero_spine_samples() {
    let pos = Vec3 { x: 500, y: 0, z: 0 };
    assert_eq!(
        route_position(&String::from("/body1/spine_mid"), pos),
        Some((TrackedPoint::Body1Spine, Vec3 { x: -500, y: 0, z: 0 }))
    );
    assert_eq!(
        route_position(&String::from("/body2/spine_mid"), pos),
        Some((TrackedPoint::Body2Spine, Vec3 { x: -500, y: 0, z: 0 }))
    );
}

#[test]
fn route_ignores_unknown_addresses() {
    let pos = Vec3 { x: 1, y: 2, z: 3 };
    assert_eq!(route_position(&String::from("/body3/head"), pos), None);
    assert_eq!(route_position(&String::from(""), pos), None);
}

#[test]
fn snapshot_stores_into_the_named_record() {
    let mut snap = TrackingSnapshot::origin();
    let p = Vec3 { x: 7, y: 8, z: 9 };
    snap.store(TrackedPoint::Body2Head, p);
    assert_eq!(snap.body2_head, p);
    assert_eq!(snap.body1_base, Vec3 { x: 0, y: 0, z: 0 });
    snap.store(TrackedPoint::Body1Spine, p);
    assert_eq!(snap.body1_base, p);
}
