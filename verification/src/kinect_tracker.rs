//! Routing of tracked-body position samples.
//!
//! The network listener (outside this crate) decodes each message into an
//! address string and plain argument values; this module holds the rules:
//! which record an address names, the mirroring of the X and Z axes, and
//! the drop of all-zero spine samples so the last good value is kept.

use vstd::prelude::*;
use crate::affine_matrix::Vec3;

verus! {

/// The four tracked records: base spine and head of two bodies.
#[derive(Clone, Copy, Debug, PartialEq, Eq, Structural)]
pub enum TrackedPoint {
    Body1Spine,
    Body2Spine,
    Body1Head,
    Body2Head,
}

/// The last-known positions of the four tracked records, as one plain
/// value read at the start of a frame. All records start at the origin.
#[derive(Clone, Copy, Debug, PartialEq, Eq, Structural)]
pub struct TrackingSnapshot {
    pub body1_base: Vec3,
    pub body2_base: Vec3,
    pub body1_head: Vec3,
    pub body2_head: Vec3,
}

/// One decoded message argument: a scalar, or anything else.
#[derive(Clone, Copy, Debug, PartialEq, Eq, Structural)]
pub enum OscArg {
    Num(i64),
    Other,
}

/// The mirrored position: tracking space is flipped on X and Z.
pub open spec fn flipped(p: Vec3) -> Vec3 {
    Vec3 { x: (-p.x) as i64, y: p.y, z: (-p.z) as i64 }
}

impl TrackingSnapshot {
    /// All four records at the origin, the state at process start.
    pub fn origin() -> (r: Self)
        ensures
            r.body1_base == (Vec3 { x: 0, y: 0, z: 0 }),
            r.body2_base == (Vec3 { x: 0, y: 0, z: 0 }),
            r.body1_head == (Vec3 { x: 0, y: 0, z: 0 }),
            r.body2_head == (Vec3 { x: 0, y: 0, z: 0 }),
    {
        let o = Vec3 { x: 0, y: 0, z: 0 };
        TrackingSnapshot { body1_base: o, body2_base: o, body1_head: o, body2_head: o }
    }

    /// Store a routed sample into its record.
    pub fn store(&mut self, point: TrackedPoint, pos: Vec3)
        ensures
            point == TrackedPoint::Body1Spine ==> *final(self) == (TrackingSnapshot {
                body1_base: pos,
                ..*old(self)
            }),
            point == TrackedPoint::Body2Spine ==> *final(self) == (TrackingSnapshot {
                body2_base: pos,
                ..*old(self)
            }),
            point == TrackedPoint::Body1Head ==> *final(self) == (TrackingSnapshot {
                body1_head: pos,
                ..*old(self)
            }),
            point == TrackedPoint::Body2Head ==> *final(self) == (TrackingSnapshot {
                body2_head: pos,
                ..*old(self)
            }),
    {
        match point {
            TrackedPoint::Body1Spine => self.body1_base = pos,
            TrackedPoint::Body2Spine => self.body2_base = pos,
            TrackedPoint::Body1Head => self.body1_head = pos,
            TrackedPoint::Body2Head => self.body2_head = pos,
        }
    }
}

/// A position argument list is exactly three scalars.
pub open spec fn valid_args(args: Seq<OscArg>) -> bool {
    &&& args.len() == 3
    &&& args[0] is Num
    &&& args[1] is Num
    &&& args[2] is Num
}

/// Read a three-scalar position from a decoded argument list, rejecting
/// any other shape with the message the producer logs.
pub fn parse_position_args(args: &Vec<OscArg>) -> (r: Result<Vec3, &'static str>)
    ensures
        valid_args(args@) ==> r == Ok::<Vec3, &'static str>(Vec3 {
            x: args@[0]->Num_0,
            y: args@[1]->Num_0,
            z: args@[2]->Num_0,
        }),
        !valid_args(args@) ==> r is Err,
        args@.len() != 3 ==> r == Err::<Vec3, &'static str>("args length must be 3"),
        args@.len() == 3 && !valid_args(args@) ==> r == Err::<Vec3, &'static str>(
            "args must be floats",
        ),
{
    if args.len() != 3 {
        return Err("args length must be 3");
    }
    let x = match args[0] {
        OscArg::Num(v) => v,
        OscArg::Other => { return Err("args must be floats") },
    };
    let y = match args[1] {
        OscArg::Num(v) => v,
        OscArg::Other => { return Err("args must be floats") },
    };
    let z = match args[2] {
        OscArg::Num(v) => v,
        OscArg::Other => { return Err("args must be floats") },
    };
    Ok(Vec3 { x, y, z })
}

/// Which record a message address names, with the sample mirrored on X and
/// Z; an all-zero spine sample is dropped so the last good value stays,
/// and an unknown address routes nowhere.
pub fn route_position(addr: &String, pos: Vec3) -> (r: Option<(TrackedPoint, Vec3)>)
    requires
        pos.x > i64::MIN,
        pos.z > i64::MIN,
    ensures
        addr@ == "/body1/spine_mid"@ ==> r == (if pos != (Vec3 { x: 0, y: 0, z: 0 }) {
            Some((TrackedPoint::Body1Spine, flipped(pos)))
        } else {
            None::<(TrackedPoint, Vec3)>
        }),
        addr@ == "/body2/spine_mid"@ ==> r == (if pos != (Vec3 { x: 0, y: 0, z: 0 }) {
            Some((TrackedPoint::Body2Spine, flipped(pos)))
        } else {
            None::<(TrackedPoint, Vec3)>
        }),
        addr@ == "/body1/head"@ ==> r == Some((TrackedPoint::Body1Head, flipped(pos))),
        addr@ == "/body2/head"@ ==> r == Some((TrackedPoint::Body2Head, flipped(pos))),
        addr@ != "/body1/spine_mid"@ && addr@ != "/body2/spine_mid"@ && addr@ != "/body1/head"@
            && addr@ != "/body2/head"@ ==> r is None,
{
    proof {
        reveal_strlit("/body1/spine_mid");
        reveal_strlit("/body2/spine_mid");
        reveal_strlit("/body1/head");
        reveal_strlit("/body2/head");
        assert("/body1/spine_mid"@.len() == 16);
        assert("/body2/spine_mid"@.len() == 16);
        assert("/body1/head"@.len() == 11);
        assert("/body2/head"@.len() == 11);
        assert("/body1/spine_mid"@[5] == '1' && "/body2/spine_mid"@[5] == '2');
        assert("/body1/head"@[5] == '1' && "/body2/head"@[5] == '2');
    }
    let p = Vec3 { x: -pos.x, y: pos.y, z: -pos.z };
    let zero = pos.x == 0 && pos.y == 0 && pos.z == 0;
    if *addr == "/body1/spine_mid".to_owned() {
        if !zero {
            Some((TrackedPoint::Body1Spine, p))
        } else {
            None
        }
    } else if *addr == "/body2/spine_mid".to_owned() {
        if !zero {
            Some((TrackedPoint::Body2Spine, p))
        } else {
            None
        }
    } else if *addr == "/body1/head".to_owned() {
        Some((TrackedPoint::Body1Head, p))
    } else if *addr == "/body2/head".to_owned() {
        Some((TrackedPoint::Body2Head, p))
    } else {
        None
    }
}

} // verus!
