//! Corner hits: the queue that announces them and the notifier that empties it.

use crate::boundary::Contact;
use crate::direction::Direction;
use crate::direction::Reflection;
use bevy::ecs::event::Events;
use vstd::prelude::*;

verus! {

/// Announces that the body hit a corner: both axes were reflected in one tick.
#[derive(Debug, Default)]
pub struct CollisionEvent;

/// The queue of corner hits that nobody has reacted to yet.
///
/// It is one of bevy's event buffers, `Events<CollisionEvent>`. That type is
/// bounded by a trait of bevy's and cannot be declared on its own, so the
/// queue wraps it whole; the contracts speak of it through [`pending`] and
/// [`sent_total`], and its methods are reached through the functions below,
/// whose contracts are taken on trust from bevy's source.
#[verifier::external_body]
pub struct CollisionQueue {
    events: Events<CollisionEvent>,
}

/// The events that a queue holds, oldest first: what the buffer keeps in its
/// two halves, the older half before the newer.
pub uninterp spec fn pending(queue: CollisionQueue) -> Seq<CollisionEvent>;

/// The number of events that were ever sent to a queue, those that were
/// cleared since included: the buffer's running count, from which it numbers
/// its events.
pub uninterp spec fn sent_total(queue: CollisionQueue) -> nat;

/// `Events::default`. Taken on trust: the buffer holds no event and counts
/// none as sent.
#[verifier::external_body]
fn events_default() -> (queue: CollisionQueue)
    ensures
        pending(queue) == Seq::<CollisionEvent>::empty(),
        sent_total(queue) == 0,
{
    CollisionQueue { events: Events::default() }
}

/// `Events::send_default`. Taken on trust: one event is put behind those
/// already held, and the count of events sent goes up by one. The buffer keeps
/// that count in a `usize` and adds to it unchecked, hence the bound.
#[verifier::external_body]
fn events_send_default(queue: &mut CollisionQueue)
    requires
        sent_total(*old(queue)) < usize::MAX,
    ensures
        pending(*final(queue)) == pending(*old(queue)).push(CollisionEvent),
        sent_total(*final(queue)) == sent_total(*old(queue)) + 1,
{
    queue.events.send_default();
}

/// `Events::len`. Taken on trust: the number of events held.
#[verifier::external_body]
fn events_len(queue: &CollisionQueue) -> (n: usize)
    ensures
        n == pending(*queue).len(),
{
    queue.events.len()
}

/// `Events::is_empty`. Taken on trust: whether no event is held.
#[verifier::external_body]
fn events_is_empty(queue: &CollisionQueue) -> (empty: bool)
    ensures
        empty == (pending(*queue).len() == 0),
{
    queue.events.is_empty()
}

/// `Events::clear`. Taken on trust: every event held is dropped; the count of
/// events sent is not reset.
#[verifier::external_body]
fn events_clear(queue: &mut CollisionQueue)
    ensures
        pending(*final(queue)) == Seq::<CollisionEvent>::empty(),
        sent_total(*final(queue)) == sent_total(*old(queue)),
{
    queue.events.clear();
}

impl CollisionQueue {
    /// A queue that holds nothing.
    pub fn new() -> (queue: CollisionQueue)
        ensures
            pending(queue) == Seq::<CollisionEvent>::empty(),
            sent_total(queue) == 0,
    {
        events_default()
    }

    /// The number of corner hits that wait in the queue.
    pub fn len(&self) -> (n: usize)
        ensures
            n == pending(*self).len(),
    {
        events_len(self)
    }

    /// Whether no corner hit waits in the queue.
    pub fn is_empty(&self) -> (empty: bool)
        ensures
            empty == (pending(*self).len() == 0),
    {
        events_is_empty(self)
    }
}

/// Turns the body round where it reached an edge, and announces a corner hit.
///
/// The direction is reflected on each axis that is out. If both are, exactly
/// one event joins the queue; otherwise the queue is left as it was. The
/// result says whether the direction changed.
pub fn bounce(
    direction: &mut Direction,
    contact: Contact,
    queue: &mut CollisionQueue,
) -> (changed: bool)
    requires
        contact.corner() ==> sent_total(*old(queue)) < usize::MAX,
    ensures
        *final(direction) == old(direction).reflected(contact),
        changed == contact.any(),
        changed == (*final(direction) != *old(direction)),
        contact.corner() ==> pending(*final(queue)) == pending(*old(queue)).push(CollisionEvent),
        contact.corner() ==> sent_total(*final(queue)) == sent_total(*old(queue)) + 1,
        !contact.corner() ==> *final(queue) == *old(queue),
{
    let reflection: Reflection = direction.reflect(contact);
    *direction = reflection.direction;
    if reflection.corner_hit {
        events_send_default(queue);
    }
    reflection.changed
}

/// Reacts to the corner hits that wait in the queue, all of them at once.
///
/// The result says whether the host is to play the collision sound: once if
/// anything waited, however many events there were, and not at all if
/// nothing did. Afterwards the queue is empty in either case, so no event is
/// reacted to twice.
pub fn play_collision_sound(queue: &mut CollisionQueue) -> (play: bool)
    ensures
        play == (pending(*old(queue)).len() > 0),
        pending(*final(queue)) == Seq::<CollisionEvent>::empty(),
        sent_total(*final(queue)) == sent_total(*old(queue)),
        !play ==> *final(queue) == *old(queue),
{
    if !events_is_empty(queue) {
        events_clear(queue);
        true
    } else {
        false
    }
}

} // verus!
