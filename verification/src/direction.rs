//! The direction of travel and its reflection at the edges of the window.

use crate::boundary::Contact;
use vstd::prelude::*;

verus! {

/// One component of the direction of travel. Along an axis the body moves
/// towards larger coordinates or towards smaller ones, never at an angle in
/// between, so a component is a sign and nothing more.
#[derive(Clone, Copy, Debug, PartialEq, Eq, Structural)]
pub enum Sign {
    Positive,
    Negative,
}

impl Sign {
    /// The sign as a number: `1` or `-1`.
    pub open spec fn unit(self) -> int {
        match self {
            Sign::Positive => 1,
            Sign::Negative => -1,
        }
    }

    /// The other sign.
    pub open spec fn opposite(self) -> Sign {
        match self {
            Sign::Positive => Sign::Negative,
            Sign::Negative => Sign::Positive,
        }
    }

    /// The other sign.
    pub fn flipped(self) -> (r: Sign)
        ensures
            r == self.opposite(),
            r.unit() == -self.unit(),
    {
        match self {
            Sign::Positive => Sign::Negative,
            Sign::Negative => Sign::Positive,
        }
    }

    /// The sign as a machine integer, for a host that scales it.
    pub fn to_int(self) -> (r: i8)
        ensures
            r == self.unit(),
            r == 1 || r == -1,
    {
        match self {
            Sign::Positive => 1,
            Sign::Negative => -1,
        }
    }
}

/// The direction of travel: one sign for each axis.
#[derive(Clone, Copy, Debug, PartialEq, Eq, Structural)]
pub struct Direction {
    pub x: Sign,
    pub y: Sign,
}

/// What a reflection did.
#[derive(Clone, Copy, Debug, PartialEq, Eq, Structural)]
pub struct Reflection {
    /// The direction after the reflection.
    pub direction: Direction,
    /// At least one component changed its sign.
    pub changed: bool,
    /// Both components changed their sign.
    pub corner_hit: bool,
}

impl Direction {
    /// The direction in which the body sets out: towards larger coordinates
    /// on both axes.
    pub fn new() -> (d: Direction)
        ensures
            d.x == Sign::Positive,
            d.y == Sign::Positive,
    {
        Direction { x: Sign::Positive, y: Sign::Positive }
    }

    /// The direction after a reflection: on each axis on which an edge was
    /// reached the sign is the other one, on the other axes it is the same.
    pub open spec fn reflected(self, contact: Contact) -> Direction {
        Direction {
            x: if contact.out_x { self.x.opposite() } else { self.x },
            y: if contact.out_y { self.y.opposite() } else { self.y },
        }
    }

    /// Reflects the direction on the axes on which an edge was reached.
    ///
    /// Each axis is treated on its own. A component flips exactly once where
    /// its axis is out and not at all where it is not, so the direction
    /// changes if and only if some axis is out.
    pub fn reflect(self, contact: Contact) -> (r: Reflection)
        ensures
            r.direction == self.reflected(contact),
            contact.out_x ==> r.direction.x.unit() == -self.x.unit(),
            !contact.out_x ==> r.direction.x == self.x,
            contact.out_y ==> r.direction.y.unit() == -self.y.unit(),
            !contact.out_y ==> r.direction.y == self.y,
            r.changed == contact.any(),
            r.changed == (r.direction != self),
            r.corner_hit == contact.corner(),
    {
        let x: Sign = if contact.out_x { self.x.flipped() } else { self.x };
        let y: Sign = if contact.out_y { self.y.flipped() } else { self.y };
        Reflection {
            direction: Direction { x, y },
            changed: contact.out_x || contact.out_y,
            corner_hit: contact.out_x && contact.out_y,
        }
    }
}

/// Reflecting twice on the same axes gives the direction back: a body that is
/// still beyond an edge one tick after it was turned round is turned round
/// again.
pub proof fn lemma_reflected_twice(direction: Direction, contact: Contact)
    ensures
        direction.reflected(contact).reflected(contact) == direction,
{
}

} // verus!
