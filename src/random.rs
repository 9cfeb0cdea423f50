use vstd::prelude::*;

use rand::rngs::StdRng;
use rand::Rng;

use crate::arena::{
    valid_pair, valid_placement, MirrorPair, MirrorPlacement, FULL_TURN, MIRROR_SPAN_X,
    MIRROR_SPAN_Y,
};

verus! {

#[verifier::external_type_specification]
#[verifier::external_body]
pub struct ExStdRng(rand::rngs::StdRng);

/// Relies on rand::Rng::gen_range over a half-open `i64` range: it panics when the
/// range is empty and otherwise returns a value inside it.
#[verifier::external_body]
fn random_in(rng: &mut StdRng, lo: i64, hi: i64) -> (r: i64)
    requires
        lo < hi,
    ensures
        lo <= r < hi,
{
    rng.gen_range(lo..hi)
}

/// Draws a position inside the mirror region and a rotation within a full turn.
pub fn random_placement(rng: &mut StdRng) -> (p: MirrorPlacement)
    ensures
        valid_placement(p),
{
    let x = random_in(rng, -MIRROR_SPAN_X, MIRROR_SPAN_X);
    let y = random_in(rng, -MIRROR_SPAN_Y, MIRROR_SPAN_Y);
    let rotation = random_in(rng, 0, FULL_TURN);
    MirrorPlacement { x, y, rotation }
}

/// Draws the two placements of a new mirror pair, each on its own.
pub fn generate_mirror_pair(rng: &mut StdRng) -> (pair: MirrorPair)
    ensures
        valid_pair(pair),
{
    let first = random_placement(rng);
    let second = random_placement(rng);
    MirrorPair { first, second }
}

} // verus!
