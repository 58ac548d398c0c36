//! The colour that a client draws names in.

use vstd::prelude::*;
use crossterm::style::Color;
use rand::seq::IndexedRandom;

verus! {

/// Makes `crossterm::style::Color` known to the verifier, with the
/// variants that crossterm gives it.
#[verifier::external_type_specification]
pub struct ExColor(Color);

/// The colours that a name may be drawn in.
pub open spec fn palette() -> Seq<Color> {
    seq![
        Color::Blue,
        Color::Cyan,
        Color::Green,
        Color::Magenta,
        Color::Red,
        Color::Yellow,
        Color::White,
    ]
}

/// Picks one of `colors` at random by `IndexedRandom::choose` of `rand`,
/// on the generator that `rand::rng` hands out for the current thread.
/// Trusted: from no colours the pick is `None`, else it is one of
/// `colors`. Which one is not said. The generator seeds and reseeds itself
/// from the system, and `rand` panics where the system has no entropy to
/// give.
#[verifier::external_body]
fn pick(colors: &[Color]) -> (picked: Option<Color>)
    ensures
        colors@.len() == 0 ==> picked is None,
        colors@.len() > 0 ==> picked is Some && colors@.contains(picked->0),
{
    colors.choose(&mut rand::rng()).copied()
}

/// A colour of the palette, picked at random. The generator behind the
/// pick panics where the system has no entropy for it, at its first use
/// in a thread or at a later reseeding.
pub fn get_random_color() -> (color: Color)
    ensures
        palette().contains(color),
{
    let colors = [
        Color::Blue,
        Color::Cyan,
        Color::Green,
        Color::Magenta,
        Color::Red,
        Color::Yellow,
        Color::White,
    ];
    pick(colors.as_slice()).unwrap()
}

} // verus!
