//! Choosing the particles to watch.
//!
//! A run that is not displayed follows a handful of particles instead: the
//! first two anchors, and a few particles drawn at random from each half of
//! the population, so that with two galaxies of equal size both are sampled.
//! The draw is made from a generator seeded by the caller: the same seed and
//! population give the same particles again.

use vstd::prelude::*;
use crate::random::{draw, seeded};

verus! {

/// How many particles are drawn from each half.
pub const PAIRS: usize = 4;

/// The watched indices for given draws: the two anchors, then the draws in
/// turn, every second of them moved into the upper half.
pub open spec fn watched(half: usize, draws: Seq<usize>) -> Seq<usize> {
    seq![0usize, 1usize] + Seq::new(
        draws.len(),
        |i: int|
            if i % 2 == 0 {
                draws[i]
            } else {
                (draws[i] + half) as usize
            },
    )
}

/// The draws are as many as asked for and each is at least 2 and below
/// `half`: past the anchors, within the lower half.
pub open spec fn drawn_from(half: usize, draws: Seq<usize>) -> bool {
    &&& draws.len() == 2 * PAIRS
    &&& forall|i: int| 0 <= i < draws.len() ==> 2 <= #[trigger] draws[i] < half
}

/// Lays the watched indices out from the draws.
pub fn arrange(half: usize, draws: &Vec<usize>) -> (indexes: Vec<usize>)
    requires
        forall|i: int| 0 <= i < draws@.len() ==> #[trigger] draws@[i] + half <= usize::MAX,
    ensures
        indexes@ == watched(half, draws@),
{
    let mut indexes: Vec<usize> = Vec::new();
    indexes.push(0);
    indexes.push(1);
    let mut i: usize = 0;
    while i < draws.len()
        invariant
            i <= draws@.len(),
            indexes@.len() == i + 2,
            forall|j: int| 0 <= j < draws@.len() ==> #[trigger] draws@[j] + half <= usize::MAX,
            forall|j: int| 0 <= j < i + 2 ==> indexes@[j] == #[trigger] watched(half, draws@)[j],
        decreases draws@.len() - i,
    {
        if i % 2 == 0 {
            indexes.push(draws[i]);
        } else {
            indexes.push(draws[i] + half);
        }
        i += 1;
    }
    indexes
}

/// The indices to watch in a population of `population` particles, drawn from
/// a generator seeded with `seed`; `None` if a half of the population holds
/// nothing past the anchors to draw from.
///
/// Whatever is drawn, the first two indices are the anchors 0 and 1, and the
/// others alternate between the lower and the upper half of the population,
/// never an anchor in the lower half.
pub fn indexes(population: usize, seed: u64) -> (r: Option<Vec<usize>>)
    ensures
        r is Some <==> population / 2 > 2,
        r matches Some(v) ==> exists|draws: Seq<usize>|
            #[trigger] drawn_from((population / 2) as usize, draws) && v@ == watched(
                (population / 2) as usize,
                draws,
            ),
{
    let half: usize = population / 2;
    if half <= 2 {
        return None;
    }
    let mut rng = seeded(seed);
    let mut draws: Vec<usize> = Vec::new();
    let mut i: usize = 0;
    while i < 2 * PAIRS
        invariant
            i <= 2 * PAIRS,
            half > 2,
            half == population / 2,
            draws@.len() == i,
            forall|j: int| 0 <= j < i ==> 2 <= #[trigger] draws@[j] < half,
        decreases 2 * PAIRS - i,
    {
        let d = draw(&mut rng, 2, half);
        draws.push(d);
        i += 1;
    }
    let v = arrange(half, &draws);
    proof {
        assert(drawn_from(half, draws@));
    }
    Some(v)
}

/// Whatever the draws, the watched indices start with the two anchors, stay
/// inside the population, and alternate between its halves.
pub proof fn lemma_watched_in_range(population: usize, draws: Seq<usize>, k: int)
    requires
        drawn_from((population / 2) as usize, draws),
        0 <= k < 2 * PAIRS,
    ensures
        watched((population / 2) as usize, draws).len() == 2 + 2 * PAIRS,
        watched((population / 2) as usize, draws)[0] == 0,
        watched((population / 2) as usize, draws)[1] == 1,
        watched((population / 2) as usize, draws)[k + 2] < population,
        k % 2 == 0 ==> 2 <= watched((population / 2) as usize, draws)[k + 2] < population / 2,
        k % 2 == 1 ==> population / 2 + 2 <= watched((population / 2) as usize, draws)[k + 2] < 2
            * (population / 2),
{
    assert(2 <= draws[k] < population / 2);
}

} // verus!
