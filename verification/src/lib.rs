//! The rules of a logo that bounces inside a window: which way it travels,
//! how fast, when it changes colour and when a corner hit is announced.
//!
//! # Who does what
//!
//! Where the logo is on screen is the host's business. Once per tick the host
//!
//! 1. moves the logo by its [`velocity`](speed::velocity) times the length of
//!    the tick,
//! 2. compares the new position with the edges of the window and hands the
//!    outcome to [`Contact::detect`](boundary::Contact::detect),
//! 3. asks which of the two speed keys are held, and
//! 4. calls [`tick`](body::tick), which decides everything else: it reflects
//!    the direction, announces a corner hit, draws a new colour, says whether
//!    the collision sound is due, and changes the speed.
//!
//! The steps of a tick are also there one by one, for a host that schedules
//! them itself: [`bounce`](collision::bounce),
//! [`change_color`](color::change_color),
//! [`play_collision_sound`](collision::play_collision_sound) and
//! [`change_speed`](speed::change_speed).
//!
//! # What the crate leans on
//!
//! Corner hits wait in one of bevy's event buffers, and colours are drawn
//! from a generator of bevy_turborand. What the contracts assume of the two
//! is written down with the functions that call them, in
//! [`collision`] and in [`color`].

pub mod body;
pub mod boundary;
pub mod collision;
pub mod color;
pub mod direction;
pub mod speed;
