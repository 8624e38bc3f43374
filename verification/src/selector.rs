use vstd::prelude::*;

verus! {

/// What it means for `mu` to be the index the selector returns, given the
/// cumulative propensity codes `cum` (`cum[j]` stands for `a[0] + .. + a[j]`)
/// and the threshold code (standing for `r2` times the total propensity).
///
/// The selected index is the first one whose cumulative weight reaches the
/// threshold. When no index reaches it — possible only when the threshold
/// code exceeds the final cumulative code — the selector falls back to
/// index 0, the reference behaviour.
pub open spec fn is_selected(cum: Seq<u64>, threshold: u64, mu: int) -> bool {
    if exists|j: int| 0 <= j < cum.len() && cum[j] >= threshold {
        &&& 0 <= mu < cum.len()
        &&& cum[mu] >= threshold
        &&& forall|k: int| 0 <= k < mu ==> cum[k] < threshold
    } else {
        mu == 0
    }
}

/// Weighted discrete sampling, the defining step of the direct method: scan
/// the cumulative propensity codes and return the first index at which the
/// running total reaches the threshold (index 0 if none does).
pub fn select_reaction(cum: &Vec<u64>, threshold: u64) -> (mu: usize)
    ensures
        is_selected(cum@, threshold, mu as int),
{
    let m: usize = cum.len();
    let mut j: usize = 0;
    while j < m
        invariant
            j <= m,
            m == cum@.len(),
            forall|k: int| 0 <= k < j ==> cum@[k] < threshold,
        decreases m - j,
    {
        if cum[j] >= threshold {
            return j;
        }
        j += 1;
    }
    0
}

/// Law: the selection predicate admits exactly one index, so selection is a
/// function of the propensity codes and the threshold alone — two runs that
/// reach a step with the same weights and the same draw select the same
/// reaction.
pub proof fn lemma_selection_unique(cum: Seq<u64>, threshold: u64, m1: int, m2: int)
    requires
        is_selected(cum, threshold, m1),
        is_selected(cum, threshold, m2),
    ensures
        m1 == m2,
{
    if exists|j: int| 0 <= j < cum.len() && cum[j] >= threshold {
        if m1 < m2 {
            assert(cum[m1] < threshold);
        }
        if m2 < m1 {
            assert(cum[m2] < threshold);
        }
    }
}

/// Law: with two reactions whose cumulative weights are `cum[0]` and `cum[1]`
/// and a threshold no greater than the total, the first reaction is selected
/// exactly when the threshold falls within the first reaction's share, and the
/// second exactly otherwise. With equal weights the two shares are equal, so a
/// uniformly drawn threshold selects each reaction with equal probability.
pub proof fn lemma_selection_split(cum: Seq<u64>, threshold: u64)
    requires
        cum.len() == 2,
        threshold <= cum[1],
    ensures
        is_selected(cum, threshold, 0) <==> cum[0] >= threshold,
        is_selected(cum, threshold, 1) <==> cum[0] < threshold,
{
    assert(cum[1] >= threshold);
}

} // verus!
