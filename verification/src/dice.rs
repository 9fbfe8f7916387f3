use vstd::prelude::*;

verus! {

/// Roll a d6.
///
/// The die's outcome space is the seven values `0..7`: the reference draw is
/// one wider than the six faces its name suggests, and that width is kept
/// deliberately because the difficulty balancing depends on it.
///
/// Relies on `rand::random_range`: a draw from the non-empty range `0..7`
/// lies in that range. Nothing more is assumed of the value: every caller
/// must cope with every outcome.
#[verifier::external_body]
pub fn roll() -> (r: usize)
    ensures
        r < 7,
{
    rand::random_range(0..7)
}

} // verus!
