use dvd_logo::collision::{bounce, play_collision_sound, CollisionQueue};
use dvd_logo::boundary::Contact;
use dvd_logo::direction::{Direction, Sign};

const CORNER: Contact = Contact { out_x: true, out_y: true };
const INSIDE: Contact = Contact { out_x: false, out_y: false };
const ONLY_X: Contact = Contact { out_x: true, out_y: false };
const ONLY_Y: Contact = Contact { out_x: false, out_y: true };

#[test]
fn a_new_queue_holds_nothing() {
    let queue = CollisionQueue::new();
    assert_eq!(queue.len(), 0);
    assert!(queue.is_empty());
}

#[test]
fn corner_hit_sends_exactly_one_event_and_flips_both_signs() {
    let mut direction = Direction::new();
    let mut queue = CollisionQueue::new();
    let changed = bounce(&mut direction, CORNER, &mut queue);
    assert!(changed);
    assert_eq!(direction, Direction { x: Sign::Negative, y: Sign::Negative });
    assert_eq!(queue.len(), 1);
    assert!(!queue.is_empty());
}

#[test]
fn one_wall_flips_one_sign_and_sends_nothing() {
    let mut direction = Direction::new();
    let mut queue = CollisionQueue::new();

    assert!(bounce(&mut direction, ONLY_X, &mut queue));
    assert_eq!(direction, Direction { x: Sign::Negative, y: Sign::Positive });
    assert!(queue.is_empty());

    assert!(bounce(&mut direction, ONLY_Y, &mut queue));
    assert_eq!(direction, Direction { x: Sign::Negative, y: Sign::Negative });
    assert!(queue.is_empty());
}

#[test]
fn no_wall_changes_nothing() {
    let mut direction = Direction { x: Sign::Negative, y: Sign::Positive };
    let mut queue = CollisionQueue::new();
    assert!(!bounce(&mut direction, INSIDE, &mut queue));
    assert_eq!(direction, Direction { x: Sign::Negative, y: Sign::Positive });
    assert_eq!(queue.len(), 0);
}

#[test]
fn every_corner_hit_adds_one_event() {
    let mut direction = Direction::new();
    let mut queue = CollisionQueue::new();
    for sent in 1..=5usize {
        bounce(&mut direction, CORNER, &mut queue);
        assert_eq!(queue.len(), sent);
    }
    bounce(&mut direction, ONLY_X, &mut queue);
    assert_eq!(queue.len(), 5);
}

#[test]
fn the_sound_plays_once_however_many_events_wait() {
    let mut direction = Direction::new();
    let mut queue = CollisionQueue::new();
    for _ in 0..3 {
        bounce(&mut direction, CORNER, &mut queue);
    }
    assert_eq!(queue.len(), 3);
    assert!(play_collision_sound(&mut queue));
    assert!(queue.is_empty());
    assert_eq!(queue.len(), 0);
    assert!(!play_collision_sound(&mut queue));
    assert!(queue.is_empty());
}

#[test]
fn no_sound_without_a_corner_hit() {
    let mut direction = Direction::new();
    let mut queue = CollisionQueue::new();
    assert!(!play_collision_sound(&mut queue));
    bounce(&mut direction, ONLY_X, &mut queue);
    assert!(!play_collision_sound(&mut queue));
    assert!(queue.is_empty());
}

#[test]
fn the_queue_serves_again_after_it_was_emptied() {
    let mut direction = Direction::new();
    let mut queue = CollisionQueue::new();
    bounce(&mut direction, CORNER, &mut queue);
    assert!(play_collision_sound(&mut queue));
    bounce(&mut direction, CORNER, &mut queue);
    assert_eq!(queue.len(), 1);
    assert!(play_collision_sound(&mut queue));
    assert!(queue.is_empty());
}
