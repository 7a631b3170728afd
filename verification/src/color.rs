//! The colour of the body, drawn anew whenever the direction changes.

use bevy_turborand::DelegatedRng;
use bevy_turborand::RngComponent;
use vstd::prelude::*;

verus! {

/// bevy_turborand's `RngComponent`, the generator that belongs to one entity.
/// Nothing here looks inside it; the contracts speak of it through
/// [`draw_at`].
#[verifier::external_type_specification]
#[verifier::external_body]
pub struct ExRngComponent(RngComponent);

/// A colour by its three channels. A channel is a share of full intensity,
/// held as the numerator of a fraction over `u32::MAX`: `0` is none of it,
/// `u32::MAX` all of it. This is the form in which the generator hands out
/// its numbers; a host that wants fractions divides.
#[derive(Clone, Copy, Debug, PartialEq, Eq, Structural)]
pub struct Rgb {
    pub red: u32,
    pub green: u32,
    pub blue: u32,
}

impl Rgb {
    /// The colour that the body starts with: every channel at full intensity.
    pub fn white() -> (color: Rgb)
        ensures
            color.red == u32::MAX,
            color.green == u32::MAX,
            color.blue == u32::MAX,
    {
        Rgb { red: u32::MAX, green: u32::MAX, blue: u32::MAX }
    }

    /// The colour made of three draws, in the order in which they were made:
    /// the first is red, the second green, the third blue.
    pub fn from_draws(first: u32, second: u32, third: u32) -> (color: Rgb)
        ensures
            color.red == first,
            color.green == second,
            color.blue == third,
    {
        Rgb { red: first, green: second, blue: third }
    }
}

/// The numbers that a generator is going to hand out, by their place in the
/// row: `draw_at(rng, 0)` is the number that the next draw gives,
/// `draw_at(rng, 1)` the one after it, and so on.
///
/// A generator computes each number from its own state and from nothing
/// else, so two generators in the same state hand out the same row.
pub uninterp spec fn draw_at(rng: RngComponent, k: nat) -> u32;

/// `DelegatedRng::u32` on the full range `..`, which hands on the next 32 bits
/// of the generator. The range is not empty, so the call does not panic.
///
/// Taken on trust: the number drawn is the first of the generator's row, and
/// the generator then stands one place further in the same row. The source
/// shows as much: a draw moves the state on by a constant and computes the
/// number from the new state alone. Which number that is, is not claimed.
#[verifier::external_body]
fn rng_u32(rng: &mut RngComponent) -> (drawn: u32)
    ensures
        drawn == draw_at(*old(rng), 0),
        forall|k: nat| #[trigger] draw_at(*final(rng), k) == draw_at(*old(rng), k + 1),
{
    rng.u32(..)
}

/// Gives the body a new colour if its direction changed in this tick.
///
/// If it did, exactly three numbers are drawn from `rng` and become red,
/// green and blue in that order; the generator is left at its fourth. If it
/// did not, the colour stays and nothing is drawn.
pub fn change_color(color: &mut Rgb, changed: bool, rng: &mut RngComponent)
    ensures
        !changed ==> *final(color) == *old(color),
        !changed ==> *final(rng) == *old(rng),
        changed ==> final(color).red == draw_at(*old(rng), 0),
        changed ==> final(color).green == draw_at(*old(rng), 1),
        changed ==> final(color).blue == draw_at(*old(rng), 2),
        changed ==> forall|k: nat|
            #[trigger] draw_at(*final(rng), k) == draw_at(*old(rng), k + 3),
{
    if changed {
        let first: u32 = rng_u32(rng);
        let second: u32 = rng_u32(rng);
        let third: u32 = rng_u32(rng);
        *color = Rgb::from_draws(first, second, third);
    }
}

} // verus!
