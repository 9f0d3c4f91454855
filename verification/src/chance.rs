//! The game's one source of chance: a seedable generator handed in by the
//! caller, so that a match can be replayed.

use vstd::prelude::*;
use rand::rngs::StdRng;
use rand::Rng;

verus! {

/// The generator of the `rand` crate; nothing of its inner state is known
/// here.
#[verifier::external_type_specification]
#[verifier::external_body]
pub struct ExStdRng(StdRng);

/// Calls `Rng::gen_range` of the `rand` crate on the inclusive range
/// `lo ..= hi`. Believed, not proved: the value drawn lies in that range.
/// The crate panics on an empty range, which the precondition rules out.
#[verifier::external_body]
pub(crate) fn draw(rng: &mut StdRng, lo: i64, hi: i64) -> (r: i64)
    requires
        lo <= hi,
    ensures
        lo <= r <= hi,
{
    rng.gen_range(lo..=hi)
}

} // verus!
