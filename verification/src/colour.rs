//! Paint colours and the mixing rule, the payload of the escrow example.

use vstd::prelude::*;

verus! {

/// A primary paint colour.
#[derive(Clone, Copy, Debug, PartialEq, Eq, Structural)]
pub enum PrimaryColour {
    /// Red.
    Red,
    /// Yellow.
    Yellow,
    /// Blue.
    Blue,
}

/// A secondary paint colour: the mix of two distinct primary colours.
#[derive(Clone, Copy, Debug, PartialEq, Eq, Structural)]
pub enum SecondaryColour {
    /// Red and yellow.
    Orange,
    /// Yellow and blue.
    Green,
    /// Red and blue.
    Purple,
}

/// The colour obtained by mixing two distinct primary colours.
pub open spec fn spec_mix(a: PrimaryColour, b: PrimaryColour) -> SecondaryColour {
    match (a, b) {
        (PrimaryColour::Red, PrimaryColour::Yellow) => SecondaryColour::Orange,
        (PrimaryColour::Yellow, PrimaryColour::Red) => SecondaryColour::Orange,
        (PrimaryColour::Blue, PrimaryColour::Yellow) => SecondaryColour::Green,
        (PrimaryColour::Yellow, PrimaryColour::Blue) => SecondaryColour::Green,
        _ => SecondaryColour::Purple,
    }
}

impl SecondaryColour {
    /// Mixes a pair of primary colours. Mixing a colour with itself gives no
    /// secondary colour, so the pair must be distinct.
    pub fn from(f: (PrimaryColour, PrimaryColour)) -> (r: Self)
        requires
            f.0 != f.1,
        ensures
            r == spec_mix(f.0, f.1),
    {
        match f {
            (PrimaryColour::Red, PrimaryColour::Yellow)
            | (PrimaryColour::Yellow, PrimaryColour::Red) => Self::Orange,
            (PrimaryColour::Blue, PrimaryColour::Yellow)
            | (PrimaryColour::Yellow, PrimaryColour::Blue) => Self::Green,
            _ => Self::Purple,
        }
    }
}

/// Mixing is symmetric: the order of the two primaries does not matter.
pub proof fn lemma_mix_symmetric(a: PrimaryColour, b: PrimaryColour)
    ensures
        spec_mix(a, b) == spec_mix(b, a),
{
}

} // verus!
