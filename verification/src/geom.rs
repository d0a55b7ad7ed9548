//! World-space geometry in fixed point: millimeter position vectors,
//! quaternion orientations in millionths, and the rotation of a scanning
//! ray's local direction into world space.
//!
//! A local ray direction at angle `a` lies in the sensor's horizontal plane:
//! `(cos a, 0, sin a)` scaled by `UNIT`, with the positive-`sin` z component
//! giving a counter-clockwise sweep (the ROS convention). Rotating by a unit
//! quaternion `q` uses the identity `v' = v + 2 w (q x v) + 2 q x (q x v)`,
//! evaluated exactly on the scaled integers and divided once at the end.

use crate::fixed::{tdiv, div_trunc, COORD_LIMIT, DIR_BOUND, TURN_URAD};
use crate::trig::{cos_scaled, sin_scaled, spec_cos, spec_sin};
use vstd::prelude::*;

verus! {

/// `UNIT * UNIT`: the scale carried by the rotation numerators.
pub const UNIT_SQ: i64 = 1_000_000_000_000;

/// Bound on one component of a rotated direction: a direction bounded by
/// `DIR_BOUND` rotated by a quaternion bounded by `DIR_BOUND` stays within
/// this magnitude.
pub const WORLD_DIR_BOUND: i64 = 13_900_000;

/// A world-space position or displacement in millimeters.
#[derive(Clone, Copy, Debug, PartialEq, Eq, Structural)]
pub struct Vec3Mm {
    pub x: i64,
    pub y: i64,
    pub z: i64,
}

impl Vec3Mm {
    /// Every coordinate lies within the supported world size.
    pub open spec fn bounded(self) -> bool {
        &&& -COORD_LIMIT <= self.x <= COORD_LIMIT
        &&& -COORD_LIMIT <= self.y <= COORD_LIMIT
        &&& -COORD_LIMIT <= self.z <= COORD_LIMIT
    }

    /// Builds a vector from millimeter coordinates.
    pub fn new(x: i64, y: i64, z: i64) -> (r: Vec3Mm)
        ensures
            r == (Vec3Mm { x, y, z }),
    {
        Vec3Mm { x, y, z }
    }
}

/// The squared distance between two positions, in square millimeters.
pub open spec fn spec_dist_sq(a: Vec3Mm, b: Vec3Mm) -> int {
    let dx = b.x - a.x;
    let dy = b.y - a.y;
    let dz = b.z - a.z;
    dx * dx + dy * dy + dz * dz
}

/// An orientation as a quaternion with components in millionths.
#[derive(Clone, Copy, Debug, PartialEq, Eq, Structural)]
pub struct Quat {
    pub x: i64,
    pub y: i64,
    pub z: i64,
    pub w: i64,
}

impl Quat {
    /// Every component has magnitude at most `DIR_BOUND`, as any fixed-point
    /// encoding of a unit quaternion does.
    pub open spec fn bounded(self) -> bool {
        &&& -DIR_BOUND <= self.x <= DIR_BOUND
        &&& -DIR_BOUND <= self.y <= DIR_BOUND
        &&& -DIR_BOUND <= self.z <= DIR_BOUND
        &&& -DIR_BOUND <= self.w <= DIR_BOUND
    }

    /// The identity rotation.
    pub fn identity() -> (r: Quat)
        ensures
            r == (Quat { x: 0i64, y: 0i64, z: 0i64, w: 1_000_000i64 }),
            r.bounded(),
    {
        Quat { x: 0, y: 0, z: 0, w: 1_000_000 }
    }

    /// A rotation about the vertical (+Y) axis by `angle` microradians.
    pub fn from_rotation_y(angle: u64) -> (r: Quat)
        requires
            angle < TURN_URAD,
        ensures
            r.x == 0 && r.z == 0,
            r.y == spec_sin((angle / 2) as int),
            r.w == spec_cos((angle / 2) as int),
            r.bounded(),
    {
        let half: u64 = angle / 2;
        let s: i64 = sin_scaled(half);
        let c: i64 = cos_scaled(half);
        Quat { x: 0, y: s, z: 0, w: c }
    }
}

/// The pose of the sensor at sweep time: world position and orientation.
#[derive(Clone, Copy, Debug, PartialEq, Eq, Structural)]
pub struct SensorPose {
    pub position: Vec3Mm,
    pub rotation: Quat,
}

impl SensorPose {
    /// The pose is representable: position in world bounds, quaternion
    /// components in fixed-point unit range.
    pub open spec fn bounded(self) -> bool {
        self.position.bounded() && self.rotation.bounded()
    }
}

/// Numerator of the x component of a rotated direction, scaled by `UNIT_SQ`.
pub open spec fn spec_rot_num_x(q: Quat, vx: int, vy: int, vz: int) -> int {
    let cx = q.y * vz - q.z * vy;
    let cy = q.z * vx - q.x * vz;
    let cz = q.x * vy - q.y * vx;
    vx * UNIT_SQ + 2 * (q.w * cx) + 2 * (q.y * cz - q.z * cy)
}

/// Numerator of the y component of a rotated direction, scaled by `UNIT_SQ`.
pub open spec fn spec_rot_num_y(q: Quat, vx: int, vy: int, vz: int) -> int {
    let cx = q.y * vz - q.z * vy;
    let cy = q.z * vx - q.x * vz;
    let cz = q.x * vy - q.y * vx;
    vy * UNIT_SQ + 2 * (q.w * cy) + 2 * (q.z * cx - q.x * cz)
}

/// Numerator of the z component of a rotated direction, scaled by `UNIT_SQ`.
pub open spec fn spec_rot_num_z(q: Quat, vx: int, vy: int, vz: int) -> int {
    let cx = q.y * vz - q.z * vy;
    let cy = q.z * vx - q.x * vz;
    let cz = q.x * vy - q.y * vx;
    vz * UNIT_SQ + 2 * (q.w * cz) + 2 * (q.x * cy - q.y * cx)
}

/// The x component of a direction rotated by `q`, truncated to millionths.
pub open spec fn spec_rotate_x(q: Quat, vx: int, vy: int, vz: int) -> int {
    tdiv(spec_rot_num_x(q, vx, vy, vz), UNIT_SQ as int)
}

/// The y component of a direction rotated by `q`, truncated to millionths.
pub open spec fn spec_rotate_y(q: Quat, vx: int, vy: int, vz: int) -> int {
    tdiv(spec_rot_num_y(q, vx, vy, vz), UNIT_SQ as int)
}

/// The z component of a direction rotated by `q`, truncated to millionths.
pub open spec fn spec_rotate_z(q: Quat, vx: int, vy: int, vz: int) -> int {
    tdiv(spec_rot_num_z(q, vx, vy, vz), UNIT_SQ as int)
}

/// Multiplication of two moderate 128-bit integers, with the overflow
/// obligation discharged once.
fn mul_wide(a: i128, b: i128) -> (r: i128)
    requires
        -4_000_000_000_000 <= a <= 4_000_000_000_000,
        -4_000_000_000_000 <= b <= 4_000_000_000_000,
    ensures
        r == a * b,
        -16_000_000_000_000_000_000_000_000 <= r <= 16_000_000_000_000_000_000_000_000,
{
    proof {
        assert(-16_000_000_000_000_000_000_000_000 <= a * b <= 16_000_000_000_000_000_000_000_000)
            by (nonlinear_arith)
            requires
                -4_000_000_000_000 <= a <= 4_000_000_000_000,
                -4_000_000_000_000 <= b <= 4_000_000_000_000,
        ;
    }
    a * b
}

/// Rotates a scaled direction by a quaternion.
pub fn rotate_dir(q: &Quat, vx: i64, vy: i64, vz: i64) -> (r: (i64, i64, i64))
    requires
        q.bounded(),
        -DIR_BOUND <= vx <= DIR_BOUND,
        -DIR_BOUND <= vy <= DIR_BOUND,
        -DIR_BOUND <= vz <= DIR_BOUND,
    ensures
        r.0 == spec_rotate_x(*q, vx as int, vy as int, vz as int),
        r.1 == spec_rotate_y(*q, vx as int, vy as int, vz as int),
        r.2 == spec_rotate_z(*q, vx as int, vy as int, vz as int),
        -WORLD_DIR_BOUND <= r.0 <= WORLD_DIR_BOUND,
        -WORLD_DIR_BOUND <= r.1 <= WORLD_DIR_BOUND,
        -WORLD_DIR_BOUND <= r.2 <= WORLD_DIR_BOUND,
{
    let qx: i128 = q.x as i128;
    let qy: i128 = q.y as i128;
    let qz: i128 = q.z as i128;
    let qw: i128 = q.w as i128;
    let wx: i128 = vx as i128;
    let wy: i128 = vy as i128;
    let wz: i128 = vz as i128;
    let cx: i128 = mul_wide(qy, wz) - mul_wide(qz, wy);
    let cy: i128 = mul_wide(qz, wx) - mul_wide(qx, wz);
    let cz: i128 = mul_wide(qx, wy) - mul_wide(qy, wx);
    proof {
        assert(-2_100_000_000_000 <= qy * wz - qz * wy <= 2_100_000_000_000) by (nonlinear_arith)
            requires
                -1_016_000 <= qy <= 1_016_000,
                -1_016_000 <= qz <= 1_016_000,
                -1_016_000 <= wy <= 1_016_000,
                -1_016_000 <= wz <= 1_016_000,
        ;
        assert(-2_100_000_000_000 <= qz * wx - qx * wz <= 2_100_000_000_000) by (nonlinear_arith)
            requires
                -1_016_000 <= qx <= 1_016_000,
                -1_016_000 <= qz <= 1_016_000,
                -1_016_000 <= wx <= 1_016_000,
                -1_016_000 <= wz <= 1_016_000,
        ;
        assert(-2_100_000_000_000 <= qx * wy - qy * wx <= 2_100_000_000_000) by (nonlinear_arith)
            requires
                -1_016_000 <= qx <= 1_016_000,
                -1_016_000 <= qy <= 1_016_000,
                -1_016_000 <= wx <= 1_016_000,
                -1_016_000 <= wy <= 1_016_000,
        ;
    }
    let num_x: i128 = mul_wide(wx, 1_000_000_000_000) + 2 * mul_wide(qw, cx) + 2 * (mul_wide(
        qy,
        cz,
    ) - mul_wide(qz, cy));
    let num_y: i128 = mul_wide(wy, 1_000_000_000_000) + 2 * mul_wide(qw, cy) + 2 * (mul_wide(
        qz,
        cx,
    ) - mul_wide(qx, cz));
    let num_z: i128 = mul_wide(wz, 1_000_000_000_000) + 2 * mul_wide(qw, cz) + 2 * (mul_wide(
        qx,
        cy,
    ) - mul_wide(qy, cx));
    proof {
        lemma_rot_num_bound(wx as int, qw as int, qy as int, qz as int, cx as int, cz as int, cy as int);
        lemma_rot_num_bound(wy as int, qw as int, qz as int, qx as int, cy as int, cx as int, cz as int);
        lemma_rot_num_bound(wz as int, qw as int, qx as int, qy as int, cz as int, cy as int, cx as int);
    }
    let rx: i128 = div_trunc(num_x, 1_000_000_000_000);
    let ry: i128 = div_trunc(num_y, 1_000_000_000_000);
    let rz: i128 = div_trunc(num_z, 1_000_000_000_000);
    proof {
        crate::fixed::lemma_tdiv_bound(num_x as int, 1_000_000_000_000, WORLD_DIR_BOUND as int);
        crate::fixed::lemma_tdiv_bound(num_y as int, 1_000_000_000_000, WORLD_DIR_BOUND as int);
        crate::fixed::lemma_tdiv_bound(num_z as int, 1_000_000_000_000, WORLD_DIR_BOUND as int);
    }
    (rx as i64, ry as i64, rz as i64)
}

/// One rotation numerator stays within `WORLD_DIR_BOUND * UNIT_SQ`.
proof fn lemma_rot_num_bound(v: int, qw: int, qa: int, qb: int, c1: int, c2: int, c3: int)
    by (nonlinear_arith)
    requires
        -1_016_000 <= v <= 1_016_000,
        -1_016_000 <= qw <= 1_016_000,
        -1_016_000 <= qa <= 1_016_000,
        -1_016_000 <= qb <= 1_016_000,
        -2_100_000_000_000 <= c1 <= 2_100_000_000_000,
        -2_100_000_000_000 <= c2 <= 2_100_000_000_000,
        -2_100_000_000_000 <= c3 <= 2_100_000_000_000,
    ensures
        -(13_900_000 * 1_000_000_000_000) <= v * 1_000_000_000_000 + 2 * (qw * c1) + 2 * (qa * c2
            - qb * c3) <= 13_900_000 * 1_000_000_000_000,
{
}

/// The world-space direction of the ray at `angle` microradians: the local
/// horizontal direction `(cos, 0, sin)` rotated by the sensor orientation.
pub open spec fn spec_ray_dir(q: Quat, angle: int) -> (int, int, int) {
    (
        spec_rotate_x(q, spec_cos(angle), 0, spec_sin(angle)),
        spec_rotate_y(q, spec_cos(angle), 0, spec_sin(angle)),
        spec_rotate_z(q, spec_cos(angle), 0, spec_sin(angle)),
    )
}

/// Computes the world-space ray direction for one scan angle.
pub fn ray_world_dir(q: &Quat, angle: u64) -> (r: (i64, i64, i64))
    requires
        q.bounded(),
        angle < TURN_URAD,
    ensures
        (r.0 as int, r.1 as int, r.2 as int) == spec_ray_dir(*q, angle as int),
        -WORLD_DIR_BOUND <= r.0 <= WORLD_DIR_BOUND,
        -WORLD_DIR_BOUND <= r.1 <= WORLD_DIR_BOUND,
        -WORLD_DIR_BOUND <= r.2 <= WORLD_DIR_BOUND,
{
    let c: i64 = cos_scaled(angle);
    let s: i64 = sin_scaled(angle);
    rotate_dir(q, c, 0, s)
}

} // verus!
