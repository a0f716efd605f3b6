//! The shots the ship fires: where one starts, how it flies, and when it has
//! flown far enough to be taken away.

use vstd::prelude::*;
use crate::ship::{Ship, ShipState, MAX_ROT_X, MAX_ROT_Z};
use crate::units::{
    clamp, divide, lemma_quotient_monotone, lemma_quotient_shrinks, quotient, saturated, UNIT,
};

verus! {

/// How fast a shot flies, in units per second along its own axis.
pub const LASER_SPEED: i64 = 10;

/// The depth, in millionths, beyond which a shot is taken away.
pub const MAX_DISTANCE: i64 = 50_000_000;

/// How far a shot travels along one axis in `dt` microseconds, in millionths,
/// where `direction` is its direction along that axis in millionths of a
/// millionth.
pub open spec fn travel(direction: int, dt: nat) -> int {
    quotient(direction * dt * LASER_SPEED, UNIT * UNIT)
}

/// A shot as the rules see it: where it is, and the rotation it was fired
/// with.
pub struct LaserState {
    /// Position across, in millionths.
    pub x: int,
    /// Position up, in millionths.
    pub y: int,
    /// Depth along the path, in millionths.
    pub z: int,
    /// Rotation about the axis across, in millionths.
    pub pitch: int,
    /// Rotation about the axis of flight, in millionths.
    pub roll: int,
}

impl LaserState {
    /// The shot that a ship in state `ship` fires: at the ship's place, at
    /// depth zero, with the ship's rotation.
    pub open spec fn fired_from(ship: ShipState) -> LaserState {
        LaserState { x: ship.x, y: ship.y, z: 0, pitch: ship.pitch, roll: ship.roll }
    }

    /// Pitch and roll are inside the clamps of the ship that fired the shot.
    pub open spec fn rotation_clamped(self) -> bool {
        &&& -MAX_ROT_X <= self.pitch <= MAX_ROT_X
        &&& -MAX_ROT_Z <= self.roll <= MAX_ROT_Z
    }

    /// The rotation is inside the clamps and each coordinate is one that a
    /// shot can hold.
    pub open spec fn valid(self) -> bool {
        &&& self.rotation_clamped()
        &&& self.x == saturated(self.x)
        &&& self.y == saturated(self.y)
        &&& self.z == saturated(self.z)
    }

    /// How far across the shot's axis points, in millionths of a millionth.
    /// This and the two that follow are the path's direction turned by the
    /// quaternion whose vector part is pitch, nothing and roll and whose
    /// scalar part is one.
    pub open spec fn forward_x(self) -> int {
        2 * self.pitch * self.roll
    }

    /// How far up the shot's axis points, in millionths of a millionth.
    pub open spec fn forward_y(self) -> int {
        -2 * self.pitch * UNIT
    }

    /// How far into the depth the shot's axis points, in millionths of a
    /// millionth.
    pub open spec fn forward_z(self) -> int {
        UNIT * UNIT - self.pitch * self.pitch + self.roll * self.roll
    }

    /// The shot after `dt` microseconds of flight. A coordinate that would
    /// leave what a shot can hold stays at the last value it can hold.
    pub open spec fn moved(self, dt: nat) -> LaserState {
        LaserState {
            x: saturated(self.x + travel(self.forward_x(), dt)),
            y: saturated(self.y + travel(self.forward_y(), dt)),
            z: saturated(self.z + travel(self.forward_z(), dt)),
            pitch: self.pitch,
            roll: self.roll,
        }
    }

    /// The shot after flights of `dts` microseconds, one after the other.
    pub open spec fn flown(self, dts: Seq<nat>) -> LaserState
        decreases dts.len(),
    {
        if dts.len() == 0 {
            self
        } else {
            self.flown(dts.drop_last()).moved(dts.last())
        }
    }

    /// The shot has flown beyond the distance at which it is taken away.
    pub open spec fn expired(self) -> bool {
        self.z > MAX_DISTANCE
    }
}

/// A shot in flight.
#[derive(Clone, Copy, Debug, PartialEq, Eq, Structural)]
pub struct Laser {
    x: i64,
    y: i64,
    z: i64,
    pitch: i64,
    roll: i64,
}

impl View for Laser {
    type V = LaserState;

    closed spec fn view(&self) -> LaserState {
        LaserState {
            x: self.x as int,
            y: self.y as int,
            z: self.z as int,
            pitch: self.pitch as int,
            roll: self.roll as int,
        }
    }
}

impl Laser {
    #[verifier::type_invariant]
    spec fn aligned(self) -> bool {
        self@.rotation_clamped()
    }

    /// A shot at the given place with the given rotation, if the rotation is
    /// inside the clamps.
    pub fn at(x: i64, y: i64, z: i64, pitch: i64, roll: i64) -> (laser: Option<Laser>)
        ensures
            laser is Some <==> (LaserState {
                x: x as int,
                y: y as int,
                z: z as int,
                pitch: pitch as int,
                roll: roll as int,
            }).rotation_clamped(),
            laser is Some ==> laser->0@ == (LaserState {
                x: x as int,
                y: y as int,
                z: z as int,
                pitch: pitch as int,
                roll: roll as int,
            }),
    {
        if -MAX_ROT_X <= pitch && pitch <= MAX_ROT_X && -MAX_ROT_Z <= roll && roll <= MAX_ROT_Z {
            Some(Laser { x, y, z, pitch, roll })
        } else {
            None
        }
    }

    /// Position across, in millionths.
    pub fn x(&self) -> (x: i64)
        ensures
            x == self@.x,
            self@.valid(),
    {
        proof {
            use_type_invariant(self);
        }
        self.x
    }

    /// Position up, in millionths.
    pub fn y(&self) -> (y: i64)
        ensures
            y == self@.y,
            self@.valid(),
    {
        proof {
            use_type_invariant(self);
        }
        self.y
    }

    /// Depth along the path, in millionths.
    pub fn z(&self) -> (z: i64)
        ensures
            z == self@.z,
            self@.valid(),
    {
        proof {
            use_type_invariant(self);
        }
        self.z
    }

    /// Rotation about the axis across, in millionths.
    pub fn pitch(&self) -> (pitch: i64)
        ensures
            pitch == self@.pitch,
            self@.valid(),
    {
        proof {
            use_type_invariant(self);
        }
        self.pitch
    }

    /// Rotation about the axis of flight, in millionths.
    pub fn roll(&self) -> (roll: i64)
        ensures
            roll == self@.roll,
            self@.valid(),
    {
        proof {
            use_type_invariant(self);
        }
        self.roll
    }
}

impl Laser {
    /// Whether the shot is beyond the distance a shot may fly.
    pub fn expired(&self) -> (expired: bool)
        ensures
            expired == self@.expired(),
    {
        self.z > MAX_DISTANCE
    }
}

/// The shot that `ship` fires if the trigger was pulled, and none if it was
/// not.
pub fn fire_laser(ship: &Ship, trigger: bool) -> (shot: Option<Laser>)
    ensures
        shot is Some <==> trigger,
        shot is Some ==> shot->0@ == LaserState::fired_from(ship@),
        shot is Some ==> shot->0@.valid(),
{
    if trigger {
        Some(Laser { x: ship.x(), y: ship.y(), z: 0, pitch: ship.pitch(), roll: ship.roll() })
    } else {
        None
    }
}

/// Lets `laser` fly for `dt` microseconds and says whether it is then to be
/// taken away: whether it is beyond the distance a shot may fly.
pub fn move_laser(laser: &mut Laser, dt: u64) -> (expired: bool)
    ensures
        final(laser)@ == old(laser)@.moved(dt as nat),
        final(laser)@.valid(),
        final(laser)@.z >= old(laser)@.z,
        final(laser)@.z >= saturated(old(laser)@.z + 8 * dt),
        expired == final(laser)@.expired(),
{
    proof {
        use_type_invariant(&*laser);
        lemma_products(laser.pitch as int, laser.roll as int);
        lemma_travel_forward(laser@, dt as nat);
        lemma_travel_at_least(laser@, dt as nat);
    }
    let pitch: i128 = laser.pitch as i128;
    let roll: i128 = laser.roll as i128;
    let whole: i128 = UNIT as i128;
    let across: i128 = travel_by(2 * pitch * roll, dt);
    let up: i128 = travel_by(-2 * pitch * whole, dt);
    let ahead: i128 = travel_by(whole * whole - pitch * pitch + roll * roll, dt);
    laser.x = clamp(laser.x as i128 + across, i64::MIN, i64::MAX);
    laser.y = clamp(laser.y as i128 + up, i64::MIN, i64::MAX);
    laser.z = clamp(laser.z as i128 + ahead, i64::MIN, i64::MAX);
    laser.z > MAX_DISTANCE
}

/// How far a shot travels along one axis in `dt` microseconds.
fn travel_by(direction: i128, dt: u64) -> (distance: i128)
    requires
        -2 * UNIT * UNIT <= direction <= 2 * UNIT * UNIT,
    ensures
        distance == travel(direction as int, dt as nat),
        -0x1_0000_0000_0000_0000_0000_0000_0000 <= distance <= 0x1_0000_0000_0000_0000_0000_0000_0000,
{
    assert(-2_000_000_000_000 * 0xffff_ffff_ffff_ffff <= direction * dt
        <= 2_000_000_000_000 * 0xffff_ffff_ffff_ffff) by (nonlinear_arith)
        requires
            -2_000_000_000_000 <= direction <= 2_000_000_000_000,
            0 <= dt <= 0xffff_ffff_ffff_ffff,
    ;
    let product: i128 = direction * dt as i128;
    proof {
        lemma_quotient_shrinks(product * LASER_SPEED, UNIT * UNIT);
    }
    divide(product * LASER_SPEED as i128, UNIT as i128 * UNIT as i128)
}

/// The axis of a shot whose rotation is inside the clamps points into the
/// depth, and no component of it is longer than two units.
pub proof fn lemma_forward_bounds(laser: LaserState)
    requires
        laser.rotation_clamped(),
    ensures
        -2 * UNIT * UNIT <= laser.forward_x() <= 2 * UNIT * UNIT,
        -2 * UNIT * UNIT <= laser.forward_y() <= 2 * UNIT * UNIT,
        0 < laser.forward_z() <= 2 * UNIT * UNIT,
{
    lemma_products(laser.pitch, laser.roll);
}

/// How large the products of a clamped pitch and roll can be.
proof fn lemma_products(p: int, r: int)
    requires
        -MAX_ROT_X <= p <= MAX_ROT_X,
        -MAX_ROT_Z <= r <= MAX_ROT_Z,
    ensures
        0 <= p * p <= 160_000_000_000,
        0 <= r * r <= 490_000_000_000,
        -280_000_000_000 <= p * r <= 280_000_000_000,
        2 * p * r == 2 * (p * r),
{
    assert(0 <= p * p <= 160_000_000_000) by (nonlinear_arith)
        requires
            -400_000 <= p <= 400_000,
    ;
    assert(0 <= r * r <= 490_000_000_000) by (nonlinear_arith)
        requires
            -700_000 <= r <= 700_000,
    ;
    assert(-280_000_000_000 <= p * r <= 280_000_000_000) by (nonlinear_arith)
        requires
            -400_000 <= p <= 400_000,
            -700_000 <= r <= 700_000,
    ;
    assert(2 * p * r == 2 * (p * r)) by (nonlinear_arith);
}

/// A shot whose rotation is inside the clamps never travels backwards in
/// depth.
pub proof fn lemma_travel_forward(laser: LaserState, dt: nat)
    requires
        laser.rotation_clamped(),
    ensures
        travel(laser.forward_z(), dt) >= 0,
        laser.moved(dt).z >= saturated(laser.z),
{
    lemma_forward_bounds(laser);
    let f = laser.forward_z();
    assert(f * dt * LASER_SPEED >= 0) by (nonlinear_arith)
        requires
            f > 0,
            dt >= 0,
            LASER_SPEED == 10,
    ;
    lemma_quotient_shrinks(f * dt * LASER_SPEED, UNIT * UNIT);
}

/// A shot stays what a shot can be however long it flies.
pub proof fn lemma_flown_valid(start: LaserState, dts: Seq<nat>)
    requires
        start.valid(),
    ensures
        start.flown(dts).valid(),
    decreases dts.len(),
{
    if dts.len() > 0 {
        lemma_flown_valid(start, dts.drop_last());
    }
}

/// Along any flight a shot's depth never decreases: after the first `later`
/// of the flights `dts` it is at least what it was after the first `earlier`.
pub proof fn lemma_depth_never_decreases(start: LaserState, dts: Seq<nat>, earlier: int, later: int)
    requires
        start.valid(),
        0 <= earlier <= later <= dts.len(),
    ensures
        start.flown(dts.take(earlier)).z <= start.flown(dts.take(later)).z,
    decreases later - earlier,
{
    if earlier < later {
        lemma_depth_never_decreases(start, dts, earlier, later - 1);
        let before = start.flown(dts.take(later - 1));
        assert(dts.take(later).drop_last() =~= dts.take(later - 1));
        lemma_flown_valid(start, dts.take(later - 1));
        lemma_travel_forward(before, dts.take(later).last());
    }
}

/// A shot that has expired stays expired: if it is beyond the distance after
/// the first `earlier` of the flights `dts`, it is so after the first `later`.
pub proof fn lemma_expired_stays_expired(start: LaserState, dts: Seq<nat>, earlier: int, later: int)
    requires
        start.valid(),
        0 <= earlier <= later <= dts.len(),
        start.flown(dts.take(earlier)).expired(),
    ensures
        start.flown(dts.take(later)).expired(),
{
    lemma_depth_never_decreases(start, dts, earlier, later);
}

/// A shot whose rotation is inside the clamps gains at least eight millionths
/// of depth in each microsecond.
pub proof fn lemma_travel_at_least(laser: LaserState, dt: nat)
    requires
        laser.rotation_clamped(),
    ensures
        travel(laser.forward_z(), dt) >= 8 * dt,
{
    lemma_products(laser.pitch, laser.roll);
    let f = laser.forward_z();
    let least = 8 * dt * (UNIT * UNIT);
    assert(f * dt * LASER_SPEED >= least) by (nonlinear_arith)
        requires
            f >= 840_000_000_000,
            dt >= 0,
            LASER_SPEED == 10,
            least == 8 * dt * (1_000_000 * 1_000_000),
            UNIT == 1_000_000,
    ;
    lemma_quotient_monotone(least, f * dt * LASER_SPEED, UNIT * UNIT);
    assert(quotient(least, UNIT * UNIT) == 8 * dt) by (nonlinear_arith)
        requires
            least == 8 * dt * (1_000_000 * 1_000_000),
            UNIT == 1_000_000,
            dt >= 0,
    ;
}

/// The microseconds of the flights `dts` together.
pub open spec fn total(dts: Seq<nat>) -> nat
    decreases dts.len(),
{
    if dts.len() == 0 {
        0
    } else {
        total(dts.drop_last()) + dts.last()
    }
}

/// No shot flies for ever: one that has flown, in whatever steps, for so long
/// that eight millionths a microsecond take it beyond the distance a shot may
/// fly has expired.
pub proof fn lemma_flight_ends(start: LaserState, dts: Seq<nat>)
    requires
        start.valid(),
        start.z + 8 * total(dts) > MAX_DISTANCE,
    ensures
        start.flown(dts).expired(),
{
    lemma_flown_gains(start, dts);
}

/// A shot that has flown the flights `dts` has gained at least eight
/// millionths of depth for each microsecond, as far as a shot can hold it.
pub proof fn lemma_flown_gains(start: LaserState, dts: Seq<nat>)
    requires
        start.valid(),
    ensures
        start.flown(dts).z >= saturated(start.z + 8 * total(dts)),
    decreases dts.len(),
{
    if dts.len() > 0 {
        let before = start.flown(dts.drop_last());
        lemma_flown_gains(start, dts.drop_last());
        lemma_flown_valid(start, dts.drop_last());
        lemma_travel_at_least(before, dts.last());
    }
}

} // verus!
