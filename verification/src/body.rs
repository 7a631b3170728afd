//! The body as a whole, and one tick of its rules.

use crate::boundary::Contact;
use crate::collision::bounce;
use crate::collision::pending;
use crate::collision::play_collision_sound;
use crate::collision::sent_total;
use crate::collision::CollisionEvent;
use crate::collision::CollisionQueue;
use crate::color::change_color;
use crate::color::draw_at;
use crate::color::Rgb;
use crate::direction::Direction;
use crate::direction::Sign;
use crate::speed::change_speed;
use crate::speed::speed_after;
use crate::speed::velocity;
use crate::speed::velocity_along;
use crate::speed::HeldKeys;
use crate::speed::Speed;
use crate::speed::Velocity;
use crate::speed::INITIAL_SPEED;
use bevy_turborand::RngComponent;
use vstd::prelude::*;

verus! {

/// The width of the body, in the units of the window.
pub const LOGO_WIDTH: u32 = 256;

/// The height of the body, in the units of the window.
pub const LOGO_HEIGHT: u32 = 159;

/// How many ticks the host runs per second.
pub const TICKS_PER_SECOND: u32 = 60;

/// What the rules keep of the moving body. Its position is with the host.
#[derive(Clone, Copy, Debug, PartialEq, Eq, Structural)]
pub struct MovingBody {
    pub direction: Direction,
    pub speed: Speed,
    pub color: Rgb,
}

/// What the host has to do after a tick.
#[derive(Clone, Copy, Debug, PartialEq, Eq, Structural)]
pub struct TickOutcome {
    /// The direction changed, and the body was given a new colour.
    pub recolored: bool,
    /// The collision sound is to be played, once.
    pub play_sound: bool,
}

impl MovingBody {
    /// The body as it sets out: towards larger coordinates on both axes,
    /// at the initial speed, in white.
    pub fn new() -> (body: MovingBody)
        ensures
            body.direction.x == Sign::Positive,
            body.direction.y == Sign::Positive,
            body.speed.0 == INITIAL_SPEED,
            body.color.red == u32::MAX,
            body.color.green == u32::MAX,
            body.color.blue == u32::MAX,
    {
        MovingBody {
            direction: Direction::new(),
            speed: Speed(INITIAL_SPEED),
            color: Rgb::white(),
        }
    }

    /// The velocity at which the host is to move the body.
    pub fn velocity(&self) -> (v: Velocity)
        ensures
            v.x == velocity_along(self.direction.x, self.speed),
            v.y == velocity_along(self.direction.y, self.speed),
    {
        velocity(self.direction, self.speed)
    }
}

/// One tick of the rules, for a body that the host has just moved.
///
/// In this order: the direction is reflected where `contact` says that an
/// edge was reached, and a corner hit is announced on the queue; the body is
/// given a new colour if the direction changed, made of the next three
/// numbers of `rng`, whether one sign changed or both; the queue is emptied,
/// and the sound asked for if anything was in it; the speed follows the held
/// keys.
pub fn tick(
    body: &mut MovingBody,
    contact: Contact,
    keys: HeldKeys,
    queue: &mut CollisionQueue,
    rng: &mut RngComponent,
) -> (outcome: TickOutcome)
    requires
        contact.corner() ==> sent_total(*old(queue)) < usize::MAX,
        i32::MIN <= speed_after(old(body).speed.0 as int, keys) <= i32::MAX,
    ensures
        final(body).direction == old(body).direction.reflected(contact),
        final(body).speed.0 == speed_after(old(body).speed.0 as int, keys),
        outcome.recolored == contact.any(),
        outcome.recolored == (final(body).direction != old(body).direction),
        !outcome.recolored ==> final(body).color == old(body).color,
        !outcome.recolored ==> *final(rng) == *old(rng),
        outcome.recolored ==> final(body).color.red == draw_at(*old(rng), 0),
        outcome.recolored ==> final(body).color.green == draw_at(*old(rng), 1),
        outcome.recolored ==> final(body).color.blue == draw_at(*old(rng), 2),
        outcome.recolored ==> forall|k: nat|
            #[trigger] draw_at(*final(rng), k) == draw_at(*old(rng), k + 3),
        outcome.play_sound == (contact.corner() || pending(*old(queue)).len() > 0),
        pending(*final(queue)) == Seq::<CollisionEvent>::empty(),
        contact.corner() ==> sent_total(*final(queue)) == sent_total(*old(queue)) + 1,
        !contact.corner() ==> sent_total(*final(queue)) == sent_total(*old(queue)),
{
    let changed: bool = bounce(&mut body.direction, contact, queue);
    change_color(&mut body.color, changed, rng);
    let play_sound: bool = play_collision_sound(queue);
    change_speed(&mut body.speed, keys);
    TickOutcome { recolored: changed, play_sound }
}

} // verus!
