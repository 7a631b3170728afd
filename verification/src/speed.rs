//! How fast the body travels, and how the host's keys change that.

use crate::boundary::Contact;
use crate::direction::Direction;
use crate::direction::Sign;
use vstd::prelude::*;

verus! {

/// The speed at which the body sets out, in units per second.
pub const INITIAL_SPEED: i32 = 150;

/// By how much one tick with a key held changes the speed.
pub const SPEED_STEP: i32 = 10;

/// The speed of the body in whole units per second. Nothing keeps it above
/// zero: a negative speed makes the body travel against its direction.
#[derive(Clone, Copy, Debug, PartialEq, Eq, Structural)]
pub struct Speed(pub i32);

/// Which of the two speed keys the host found held down in this tick.
#[derive(Clone, Copy, Debug, PartialEq, Eq, Structural)]
pub struct HeldKeys {
    pub speed_up: bool,
    pub speed_down: bool,
}

/// The distance that the body covers per second along each axis, with its
/// sign: the speed, counted negative where the direction is.
#[derive(Clone, Copy, Debug, PartialEq, Eq, Structural)]
pub struct Velocity {
    pub x: i64,
    pub y: i64,
}

/// The speed after one tick with the given keys held: a step more for the one
/// key, a step less for the other, and the same if both are held or neither.
pub open spec fn speed_after(speed: int, keys: HeldKeys) -> int {
    speed + (if keys.speed_up { SPEED_STEP as int } else { 0 })
          - (if keys.speed_down { SPEED_STEP as int } else { 0 })
}

/// Whether the speed that the held keys ask for is one that [`Speed`] can
/// hold, so that [`change_speed`] may be called.
pub fn can_change_speed(speed: Speed, keys: HeldKeys) -> (fits: bool)
    ensures
        fits == (i32::MIN <= speed_after(speed.0 as int, keys) <= i32::MAX),
{
    if keys.speed_up && !keys.speed_down {
        speed.0 <= i32::MAX - SPEED_STEP
    } else if keys.speed_down && !keys.speed_up {
        speed.0 >= i32::MIN + SPEED_STEP
    } else {
        true
    }
}

/// Changes the speed by what the held keys ask for in one tick.
///
/// A key counts for as long as it is held: every tick in which it is down
/// adds, or takes away, another step. The speed is not kept within any range
/// but that of its type.
pub fn change_speed(speed: &mut Speed, keys: HeldKeys)
    requires
        i32::MIN <= speed_after(old(speed).0 as int, keys) <= i32::MAX,
    ensures
        final(speed).0 == speed_after(old(speed).0 as int, keys),
{
    if keys.speed_up && !keys.speed_down {
        speed.0 = speed.0 + SPEED_STEP;
    } else if keys.speed_down && !keys.speed_up {
        speed.0 = speed.0 - SPEED_STEP;
    }
}

/// The velocity along one axis: the speed, with the sign of the direction.
pub open spec fn velocity_along(sign: Sign, speed: Speed) -> int {
    sign.unit() * speed.0
}

/// One component of the velocity.
fn along(sign: Sign, speed: Speed) -> (v: i64)
    ensures
        v == velocity_along(sign, speed),
{
    let magnitude: i64 = speed.0 as i64;
    match sign {
        Sign::Positive => magnitude,
        Sign::Negative => -magnitude,
    }
}

/// The velocity of a body that travels in `direction` at `speed`. The host
/// moves the body by this much for every second that passes.
pub fn velocity(direction: Direction, speed: Speed) -> (v: Velocity)
    ensures
        v.x == velocity_along(direction.x, speed),
        v.y == velocity_along(direction.y, speed),
{
    Velocity { x: along(direction.x, speed), y: along(direction.y, speed) }
}

/// A reflection turns the velocity round on the axes that are out and leaves
/// it alone on the others. Its magnitude stays what the speed says.
pub proof fn lemma_reflection_negates_velocity(
    direction: Direction,
    contact: Contact,
    speed: Speed,
)
    ensures
        contact.out_x ==> velocity_along(direction.reflected(contact).x, speed)
            == -velocity_along(direction.x, speed),
        !contact.out_x ==> velocity_along(direction.reflected(contact).x, speed)
            == velocity_along(direction.x, speed),
        contact.out_y ==> velocity_along(direction.reflected(contact).y, speed)
            == -velocity_along(direction.y, speed),
        !contact.out_y ==> velocity_along(direction.reflected(contact).y, speed)
            == velocity_along(direction.y, speed),
{
}

} // verus!
