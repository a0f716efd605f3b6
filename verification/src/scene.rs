//! What stands in the scene: where the targets are, how fast they spin, and
//! how large the volumes are that collide.

use vstd::prelude::*;
use crate::units::{divide, lemma_quotient_shrinks, quotient, UNIT};

verus! {

/// By how much the models' measures are scaled down, in millionths.
pub const SCALE: i64 = 400_000;

/// How fast a target spins, in radians per second.
pub const DRONE_ROTATION_SPEED: u64 = 2;

/// A place, or the half extents of a box, in millionths along each axis.
#[derive(Clone, Copy, Debug, PartialEq, Eq, Structural)]
pub struct Measure {
    /// Across.
    pub x: i64,
    /// Up.
    pub y: i64,
    /// Into the depth.
    pub z: i64,
}

/// A model's `length`, in millionths, as it is in the scene.
pub open spec fn scaled(length: int) -> int {
    quotient(length * SCALE, UNIT as int)
}

/// Where the targets stand: one on the path and one to each side above it,
/// all ten units ahead.
pub open spec fn drone_stations() -> Seq<Measure> {
    seq![
        Measure { x: 0, y: 0, z: 10_000_000 },
        Measure { x: 1_000_000, y: 1_000_000, z: 10_000_000 },
        Measure { x: (-1_000_000) as i64, y: 1_000_000, z: 10_000_000 },
    ]
}

/// Where the targets stand.
pub fn drone_locations() -> (stations: Vec<Measure>)
    ensures
        stations@ == drone_stations(),
{
    let mut stations: Vec<Measure> = Vec::new();
    stations.push(Measure { x: 0, y: 0, z: 10_000_000 });
    stations.push(Measure { x: 1_000_000, y: 1_000_000, z: 10_000_000 });
    stations.push(Measure { x: -1_000_000, y: 1_000_000, z: 10_000_000 });
    proof {
        assert(stations@ =~= drone_stations());
    }
    stations
}

/// The half extents of the box around a target.
pub fn drone_collider() -> (size: Measure)
    ensures
        size.x == scaled(2_000_000),
        size.y == scaled(1_250_000),
        size.z == scaled(2_000_000),
        size == (Measure { x: 800_000, y: 500_000, z: 800_000 }),
{
    Measure { x: scale(2_000_000), y: scale(1_250_000), z: scale(2_000_000) }
}

/// The half extents of the box around a shot.
pub fn laser_collider() -> (size: Measure)
    ensures
        size.x == scaled(220_000),
        size.y == scaled(220_000),
        size.z == scaled(1_250_000),
        size == (Measure { x: 88_000, y: 88_000, z: 500_000 }),
{
    Measure { x: scale(220_000), y: scale(220_000), z: scale(1_250_000) }
}

/// The angle, in millionths of a radian, by which a target turns in `dt`
/// microseconds.
pub fn rotate_drone(dt: u64) -> (angle: u128)
    ensures
        angle == dt * DRONE_ROTATION_SPEED,
{
    assert(dt * DRONE_ROTATION_SPEED == 2 * dt);
    dt as u128 * DRONE_ROTATION_SPEED as u128
}

/// A model's `length` as it is in the scene.
fn scale(length: i32) -> (size: i64)
    ensures
        size == scaled(length as int),
{
    let size: i128 = divide(length as i128 * SCALE as i128, UNIT as i128);
    proof {
        lemma_quotient_shrinks(length * SCALE, UNIT as int);
    }
    size as i64
}

} // verus!
