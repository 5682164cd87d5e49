//! Extraction by clustering: the choice among the runs of a clustering
//! that was started several times.
//!
//! The runs themselves are made outside this library, in floating point. A
//! run comes here with its score, the distance that its centres still
//! moved in the last round, as a whole number that orders the runs as
//! their scores do.

use vstd::prelude::*;
use crate::color::extraction::{is_first_least, lemma_least_grows};
use crate::color::Rgba;

verus! {

/// One run of a clustering.
#[derive(Debug, Clone)]
pub struct Run {
    /// What orders this run among the others: less is better.
    pub score: u32,
    /// The centres that the run ended on.
    pub centroids: Vec<Rgba>,
}

/// The scores of `runs`.
pub open spec fn scores_of(runs: Seq<Run>) -> Seq<int> {
    Seq::new(runs.len(), |index: int| runs[index].score as int)
}

/// The seed of a run: the seed of the first run plus the number of the
/// run, wrapping round at the top of the range.
pub fn run_seed(seed: u64, run: u64) -> (seeded: u64)
    ensures
        seeded == (seed + run) % 0x1_0000_0000_0000_0000,
{
    seed.wrapping_add(run)
}

/// Position of the first run of the least score; `None` exactly where
/// there is no run.
pub fn best_run(runs: &Vec<Run>) -> (found: Option<usize>)
    ensures
        found is None <==> runs.len() == 0,
        found matches Some(index) ==> is_first_least(scores_of(runs@), index as int),
{
    if runs.len() == 0 {
        return None;
    }
    let ghost scores = scores_of(runs@);
    let mut best: usize = 0;
    let mut index: usize = 1;
    while index < runs.len()
        invariant
            scores == scores_of(runs@),
            1 <= index <= runs.len(),
            best < index,
            is_first_least(scores.subrange(0, index as int), best as int),
        decreases runs.len() - index,
    {
        proof {
            lemma_least_grows(scores, index as int, best as int);
        }
        if runs[index].score < runs[best].score {
            best = index;
        }
        index = index + 1;
    }
    assert(scores.subrange(0, runs.len() as int) =~= scores);
    Some(best)
}

} // verus!
