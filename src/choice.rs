use vstd::prelude::*;

use crate::colormap::{Colormap, COLORMAP_COUNT};

verus! {

#[verifier::external_type_specification]
#[verifier::external_body]
pub struct ExRng(fastrand::Rng);

/// Relies on fastrand::Rng::usize: a draw from the range `0..n` lies in it.
/// The range is empty, and the call panics, only for `n == 0`.
#[verifier::external_body]
fn draw_below(rng: &mut fastrand::Rng, n: usize) -> (r: usize)
    requires
        n > 0,
    ensures
        r < n,
{
    rng.usize(0..n)
}

/// Picks one of the named palettes uniformly at random from `rng`.
pub fn random_colormap(rng: &mut fastrand::Rng) -> (r: Colormap)
    ensures
        exists|k: nat| k < COLORMAP_COUNT && r == Colormap::spec_at(k),
{
    let k = draw_below(rng, COLORMAP_COUNT);
    match Colormap::from_index(k) {
        Some(c) => c,
        None => {
            proof {
                assert(false);
            }
            Colormap::Acton
        },
    }
}

} // verus!
