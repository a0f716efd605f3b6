//! The player's ship: how steering turns it, how its turn moves it, and how
//! the turn dies away.

use vstd::prelude::*;
use crate::units::{
    clamp, clamped, divide, lemma_quotient_monotone, lemma_quotient_shrinks, quotient, UNIT,
};

verus! {

/// How fast a steering key turns the ship, in millionths per second.
pub const ROTATION_SPEED: i64 = 1_500_000;

/// The largest pitch, to either side, in millionths.
pub const MAX_ROT_X: i64 = 400_000;

/// The largest roll, to either side, in millionths.
pub const MAX_ROT_Z: i64 = 700_000;

/// How fast a fully turned ship would move sideways, in units per second.
pub const SPEED: i64 = 5;

/// The part of a rotation that remains after one second of decay, in
/// millionths.
pub const NORMALIZE_FACTOR: u32 = 200_000;

/// The upper edge of the corridor the ship flies in, in millionths.
pub const MAX_TOP: i64 = 700_000;

/// The lower edge of the corridor, in millionths.
pub const MAX_BOTTOM: i64 = -1_500_000;

/// The left edge of the corridor, in millionths.
pub const MAX_LEFT: i64 = -1_700_000;

/// The right edge of the corridor, in millionths.
pub const MAX_RIGHT: i64 = 1_700_000;

/// Which of the four steering directions are asked for at one moment.
#[derive(Clone, Copy, Debug, PartialEq, Eq, Structural)]
pub struct Steering {
    /// Raise the pitch.
    pub up: bool,
    /// Lower the pitch.
    pub down: bool,
    /// Raise the roll.
    pub right: bool,
    /// Lower the roll.
    pub left: bool,
}

/// How far a steering key turns the ship in `dt` microseconds.
pub open spec fn turn(dt: nat) -> int {
    quotient(ROTATION_SPEED * dt, UNIT as int)
}

/// How far a rotation component of `tilt` moves the ship in `dt` microseconds.
pub open spec fn slide(tilt: int, dt: nat) -> int {
    quotient(tilt * dt * SPEED, UNIT as int)
}

/// What remains of a rotation component of `tilt` after it has decayed by
/// `factor` millionths.
pub open spec fn damped(tilt: int, factor: nat) -> int {
    quotient(tilt * factor, UNIT as int)
}

/// The ship as the rules see it: where it is across the corridor, and the two
/// rotation components that steering changes.
pub struct ShipState {
    /// Position across, in millionths.
    pub x: int,
    /// Position up, in millionths.
    pub y: int,
    /// Rotation about the axis across, in millionths.
    pub pitch: int,
    /// Rotation about the axis of flight, in millionths.
    pub roll: int,
}

impl ShipState {
    /// Pitch and roll are inside their clamps.
    pub open spec fn rotation_clamped(self) -> bool {
        &&& -MAX_ROT_X <= self.pitch <= MAX_ROT_X
        &&& -MAX_ROT_Z <= self.roll <= MAX_ROT_Z
    }

    /// The ship is inside the corridor.
    pub open spec fn in_corridor(self) -> bool {
        &&& MAX_LEFT <= self.x <= MAX_RIGHT
        &&& MAX_BOTTOM <= self.y <= MAX_TOP
    }

    /// The ship is inside the corridor and its rotation inside the clamps.
    pub open spec fn valid(self) -> bool {
        self.in_corridor() && self.rotation_clamped()
    }

    /// The ship after `dt` microseconds of `steering`. Opposite directions
    /// are both applied, each with its clamp, raising before lowering.
    pub open spec fn steered(self, steering: Steering, dt: nat) -> ShipState {
        let raised = if steering.up {
            clamped(self.pitch + turn(dt), -MAX_ROT_X as int, MAX_ROT_X as int)
        } else {
            self.pitch
        };
        let pitch = if steering.down {
            clamped(raised - turn(dt), -MAX_ROT_X as int, MAX_ROT_X as int)
        } else {
            raised
        };
        let banked = if steering.right {
            clamped(self.roll + turn(dt), -MAX_ROT_Z as int, MAX_ROT_Z as int)
        } else {
            self.roll
        };
        let roll = if steering.left {
            clamped(banked - turn(dt), -MAX_ROT_Z as int, MAX_ROT_Z as int)
        } else {
            banked
        };
        ShipState { x: self.x, y: self.y, pitch, roll }
    }

    /// The ship after its rotation has moved it for `dt` microseconds: roll
    /// moves it across, pitch moves it up or down, and the corridor stops it.
    pub open spec fn moved(self, dt: nat) -> ShipState {
        ShipState {
            x: clamped(self.x - slide(self.roll, dt), MAX_LEFT as int, MAX_RIGHT as int),
            y: clamped(self.y - slide(self.pitch, dt), MAX_BOTTOM as int, MAX_TOP as int),
            pitch: self.pitch,
            roll: self.roll,
        }
    }

    /// The ship after its rotation has decayed by `factor` millionths.
    pub open spec fn normalized(self, factor: nat) -> ShipState {
        ShipState {
            x: self.x,
            y: self.y,
            pitch: damped(self.pitch, factor),
            roll: damped(self.roll, factor),
        }
    }

    /// The ship after one `step`.
    pub open spec fn after(self, step: Step) -> ShipState {
        match step {
            Step::Steer { steering, dt } => self.steered(steering, dt),
            Step::Move { dt } => self.moved(dt),
            Step::Normalize { factor } => self.normalized(factor),
        }
    }

    /// The ship after all of `steps`, the first of them first.
    pub open spec fn after_all(self, steps: Seq<Step>) -> ShipState
        decreases steps.len(),
    {
        if steps.len() == 0 {
            self
        } else {
            self.after_all(steps.drop_last()).after(steps.last())
        }
    }
}

/// One thing that happens to the ship: it is steered, it is moved by its
/// rotation, or its rotation decays.
pub enum Step {
    /// `dt` microseconds of `steering`.
    Steer { steering: Steering, dt: nat },
    /// `dt` microseconds of movement.
    Move { dt: nat },
    /// A decay that leaves `factor` millionths of the rotation.
    Normalize { factor: nat },
}

impl Step {
    /// A decay leaves no more than all of the rotation.
    pub open spec fn valid(self) -> bool {
        self matches Step::Normalize { factor } ==> factor <= UNIT
    }
}

/// By how much a rotation decays in one step: the part of it that remains,
/// in millionths, at most one whole.
#[derive(Clone, Copy, Debug, PartialEq, Eq, Structural)]
pub struct Decay {
    millionths: u32,
}

impl View for Decay {
    type V = nat;

    closed spec fn view(&self) -> nat {
        self.millionths as nat
    }
}

impl Decay {
    #[verifier::type_invariant]
    spec fn at_most_one(self) -> bool {
        self.millionths <= UNIT
    }

    /// The decay that leaves `millionths` of a rotation, if that is no more
    /// than all of it.
    pub fn new(millionths: u32) -> (decay: Option<Decay>)
        ensures
            millionths <= UNIT ==> decay.is_some() && decay.unwrap()@ == millionths,
            millionths > UNIT ==> decay.is_none(),
    {
        if millionths <= 1_000_000 {
            Some(Decay { millionths })
        } else {
            None
        }
    }

    /// The part of a rotation that remains, in millionths.
    pub fn millionths(&self) -> (millionths: u32)
        ensures
            millionths == self@,
            millionths <= UNIT,
    {
        proof {
            use_type_invariant(self);
        }
        self.millionths
    }
}

/// The player's ship. Its depth along the path is always zero, and of its
/// rotation only pitch and roll ever leave their rest values.
#[derive(Clone, Copy, Debug, PartialEq, Eq, Structural)]
pub struct Ship {
    x: i64,
    y: i64,
    pitch: i64,
    roll: i64,
}

impl View for Ship {
    type V = ShipState;

    closed spec fn view(&self) -> ShipState {
        ShipState { x: self.x as int, y: self.y as int, pitch: self.pitch as int, roll: self.roll as int }
    }
}

impl Ship {
    #[verifier::type_invariant]
    spec fn inside(self) -> bool {
        self@.valid()
    }

    /// A ship at rest in the middle of the corridor.
    pub fn new() -> (ship: Ship)
        ensures
            ship@ == (ShipState { x: 0, y: 0, pitch: 0, roll: 0 }),
    {
        Ship { x: 0, y: 0, pitch: 0, roll: 0 }
    }

    /// A ship at the given place with the given rotation, if that is inside
    /// the corridor and the clamps.
    pub fn at(x: i64, y: i64, pitch: i64, roll: i64) -> (ship: Option<Ship>)
        ensures
            ship is Some <==> (ShipState { x: x as int, y: y as int, pitch: pitch as int, roll: roll as int }).valid(),
            ship is Some ==> ship->0@ == (ShipState { x: x as int, y: y as int, pitch: pitch as int, roll: roll as int }),
    {
        if MAX_LEFT <= x && x <= MAX_RIGHT && MAX_BOTTOM <= y && y <= MAX_TOP && -MAX_ROT_X <= pitch
            && pitch <= MAX_ROT_X && -MAX_ROT_Z <= roll && roll <= MAX_ROT_Z {
            Some(Ship { x, y, pitch, roll })
        } else {
            None
        }
    }

    /// Position across, in millionths.
    pub fn x(&self) -> (x: i64)
        ensures
            x == self@.x,
            self@.valid(),
    {
        proof {
            use_type_invariant(self);
        }
        self.x
    }

    /// Position up, in millionths.
    pub fn y(&self) -> (y: i64)
        ensures
            y == self@.y,
            self@.valid(),
    {
        proof {
            use_type_invariant(self);
        }
        self.y
    }

    /// Rotation about the axis across, in millionths.
    pub fn pitch(&self) -> (pitch: i64)
        ensures
            pitch == self@.pitch,
            self@.valid(),
    {
        proof {
            use_type_invariant(self);
        }
        self.pitch
    }

    /// Rotation about the axis of flight, in millionths.
    pub fn roll(&self) -> (roll: i64)
        ensures
            roll == self@.roll,
            self@.valid(),
    {
        proof {
            use_type_invariant(self);
        }
        self.roll
    }
}

/// Turns the ship by `dt` microseconds of `steering`.
pub fn rotate_arwing(ship: &mut Ship, steering: Steering, dt: u64)
    ensures
        final(ship)@ == old(ship)@.steered(steering, dt as nat),
        final(ship)@.valid(),
{
    proof {
        use_type_invariant(&*ship);
    }
    let step: i128 = divide(ROTATION_SPEED as i128 * dt as i128, UNIT as i128);
    if steering.up {
        ship.pitch = clamp(ship.pitch as i128 + step, -MAX_ROT_X, MAX_ROT_X);
    }
    if steering.down {
        ship.pitch = clamp(ship.pitch as i128 - step, -MAX_ROT_X, MAX_ROT_X);
    }
    if steering.right {
        ship.roll = clamp(ship.roll as i128 + step, -MAX_ROT_Z, MAX_ROT_Z);
    }
    if steering.left {
        ship.roll = clamp(ship.roll as i128 - step, -MAX_ROT_Z, MAX_ROT_Z);
    }
}

/// Moves the ship as its rotation has it move in `dt` microseconds.
pub fn rotation_to_movement(ship: &mut Ship, dt: u64)
    ensures
        final(ship)@ == old(ship)@.moved(dt as nat),
        final(ship)@.valid(),
{
    proof {
        use_type_invariant(&*ship);
    }
    let across: i128 = slide_by(ship.roll, dt);
    let up: i128 = slide_by(ship.pitch, dt);
    ship.x = clamp(ship.x as i128 - across, MAX_LEFT, MAX_RIGHT);
    ship.y = clamp(ship.y as i128 - up, MAX_BOTTOM, MAX_TOP);
}

/// Lets the ship's rotation decay by `decay`.
pub fn normalize_rotation(ship: &mut Ship, decay: Decay)
    ensures
        final(ship)@ == old(ship)@.normalized(decay@),
        final(ship)@.valid(),
{
    proof {
        use_type_invariant(&*ship);
        use_type_invariant(&decay);
        lemma_damped_shrinks(ship.pitch as int, decay@);
        lemma_damped_shrinks(ship.roll as int, decay@);
    }
    let factor: i128 = decay.millionths as i128;
    let pitch: i128 = divide(ship.pitch as i128 * factor, UNIT as i128);
    let roll: i128 = divide(ship.roll as i128 * factor, UNIT as i128);
    ship.pitch = pitch as i64;
    ship.roll = roll as i64;
}

/// How far a rotation component of `tilt` moves the ship in `dt` microseconds.
fn slide_by(tilt: i64, dt: u64) -> (shift: i128)
    requires
        -UNIT <= tilt <= UNIT,
    ensures
        shift == slide(tilt as int, dt as nat),
        -0x1_0000_0000_0000_0000_0000_0000 <= shift <= 0x1_0000_0000_0000_0000_0000_0000,
{
    assert(-1_000_000 * 0xffff_ffff_ffff_ffff <= tilt * dt <= 1_000_000 * 0xffff_ffff_ffff_ffff)
        by (nonlinear_arith)
        requires
            -1_000_000 <= tilt <= 1_000_000,
            0 <= dt <= 0xffff_ffff_ffff_ffff,
    ;
    let product: i128 = tilt as i128 * dt as i128;
    proof {
        lemma_quotient_shrinks(product * SPEED, UNIT as int);
    }
    divide(product * SPEED as i128, UNIT as i128)
}

/// Whatever is done to a ship whose rotation is inside the clamps, and in
/// whatever order, its rotation is inside the clamps afterwards.
pub proof fn lemma_rotation_stays_clamped(start: ShipState, steps: Seq<Step>)
    requires
        start.rotation_clamped(),
        forall|i: int| 0 <= i < steps.len() ==> (#[trigger] steps[i]).valid(),
    ensures
        start.after_all(steps).rotation_clamped(),
    decreases steps.len(),
{
    if steps.len() > 0 {
        let before = start.after_all(steps.drop_last());
        lemma_rotation_stays_clamped(start, steps.drop_last());
        match steps.last() {
            Step::Normalize { factor } => {
                lemma_damped_shrinks(before.pitch, factor);
                lemma_damped_shrinks(before.roll, factor);
            },
            _ => {},
        }
    }
}

/// Whatever is done to a ship inside the corridor, it is inside the corridor
/// afterwards.
pub proof fn lemma_ship_stays_in_corridor(start: ShipState, steps: Seq<Step>)
    requires
        start.in_corridor(),
    ensures
        start.after_all(steps).in_corridor(),
    decreases steps.len(),
{
    if steps.len() > 0 {
        lemma_ship_stays_in_corridor(start, steps.drop_last());
    }
}

/// A decayed rotation component is no further from zero than it was.
pub proof fn lemma_damped_shrinks(tilt: int, factor: nat)
    requires
        factor <= UNIT,
    ensures
        tilt >= 0 ==> 0 <= damped(tilt, factor) <= tilt,
        tilt <= 0 ==> tilt <= damped(tilt, factor) <= 0,
{
    let product = tilt * factor;
    let whole = tilt * UNIT;
    assert(quotient(whole, UNIT as int) == tilt) by (nonlinear_arith)
        requires
            whole == tilt * 1_000_000,
            UNIT == 1_000_000,
    ;
    lemma_quotient_shrinks(product, UNIT as int);
    if tilt >= 0 {
        assert(0 <= product <= whole) by (nonlinear_arith)
            requires
                product == tilt * factor,
                whole == tilt * 1_000_000,
                0 <= factor <= 1_000_000,
                tilt >= 0,
        ;
        lemma_quotient_monotone(product, whole, UNIT as int);
    } else {
        assert(whole <= product <= 0) by (nonlinear_arith)
            requires
                product == tilt * factor,
                whole == tilt * 1_000_000,
                0 <= factor <= 1_000_000,
                tilt <= 0,
        ;
        lemma_quotient_monotone(whole, product, UNIT as int);
    }
}

} // verus!
