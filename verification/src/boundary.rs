//! Whether the body has reached the edges of the window.
//!
//! The host knows the position of the body and the edges of the window, and
//! compares the two. What it finds is handed over as relations, and the
//! functions here decide from them on which axes the body is out.

use vstd::prelude::*;

verus! {

/// How a coordinate of the body compares with an edge of the window.
#[derive(Clone, Copy, Debug, PartialEq, Eq, Structural)]
pub enum Relation {
    /// The coordinate is smaller than the edge.
    Less,
    /// The coordinate is exactly on the edge.
    Equal,
    /// The coordinate is larger than the edge.
    Greater,
}

/// How one coordinate of the body compares with the two edges of its axis.
#[derive(Clone, Copy, Debug, PartialEq, Eq, Structural)]
pub struct AxisReading {
    /// The coordinate against the edge at the smaller end: left or bottom.
    pub to_lower: Relation,
    /// The coordinate against the edge at the larger end: right or top.
    pub to_upper: Relation,
}

impl AxisReading {
    /// The coordinate lies strictly between the two edges.
    pub open spec fn strictly_inside(self) -> bool {
        self.to_lower == Relation::Greater && self.to_upper == Relation::Less
    }

    /// The coordinate is on or beyond the upper edge, or on or beyond the
    /// lower one. The edges themselves count as out.
    pub open spec fn out(self) -> bool {
        self.to_upper != Relation::Less || self.to_lower != Relation::Greater
    }

    /// Whether the body is out on this axis.
    pub fn is_out(self) -> (out: bool)
        ensures
            out == self.out(),
            out == !self.strictly_inside(),
    {
        let at_or_beyond_upper: bool = match self.to_upper {
            Relation::Less => false,
            Relation::Equal => true,
            Relation::Greater => true,
        };
        let at_or_beyond_lower: bool = match self.to_lower {
            Relation::Less => true,
            Relation::Equal => true,
            Relation::Greater => false,
        };
        at_or_beyond_upper || at_or_beyond_lower
    }
}

/// On which axes the body has reached an edge of the window or gone past it.
#[derive(Clone, Copy, Debug, PartialEq, Eq, Structural)]
pub struct Contact {
    /// The body is on or beyond the left or the right edge.
    pub out_x: bool,
    /// The body is on or beyond the bottom or the top edge.
    pub out_y: bool,
}

impl Contact {
    /// An edge was reached on at least one axis.
    pub open spec fn any(self) -> bool {
        self.out_x || self.out_y
    }

    /// An edge was reached on both axes at once: a corner hit.
    pub open spec fn corner(self) -> bool {
        self.out_x && self.out_y
    }

    /// Decides from the readings of both axes where the body is out. Nothing
    /// is changed by looking: the position stays where the host put it.
    pub fn detect(x: AxisReading, y: AxisReading) -> (contact: Contact)
        ensures
            contact.out_x == x.out(),
            contact.out_y == y.out(),
    {
        Contact { out_x: x.is_out(), out_y: y.is_out() }
    }
}

/// A coordinate beyond an edge, or exactly on one, is out; a coordinate
/// strictly between the two edges is not; and there is nothing in between.
pub proof fn lemma_out_unless_strictly_inside(reading: AxisReading)
    ensures
        reading.to_upper == Relation::Greater ==> reading.out(),
        reading.to_lower == Relation::Less ==> reading.out(),
        reading.to_upper == Relation::Equal ==> reading.out(),
        reading.to_lower == Relation::Equal ==> reading.out(),
        reading.strictly_inside() ==> !reading.out(),
        reading.out() <==> !reading.strictly_inside(),
{
}

} // verus!
