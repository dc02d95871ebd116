//! Pixel-format negotiation policy.
//!
//! When the display offers several configurations, the scaffold keeps the one
//! with the highest multisample sample count; on a tie the earliest offered
//! configuration wins, because the left-to-right reduction keeps its
//! accumulator when the challenger is not strictly better.

use vstd::prelude::*;

verus! {

/// Index of the configuration that the negotiation policy selects among the
/// offered sample counts: the first configuration whose sample count is
/// maximal, or `None` when nothing was offered.
pub fn select_config(samples: &Vec<u8>) -> (r: Option<usize>)
    ensures
        (r is Some) <==> samples@.len() > 0,
        r matches Some(i) ==> {
            &&& i < samples@.len()
            &&& forall|j: int| 0 <= j < samples@.len() ==> samples@[j] <= samples@[i as int]
            &&& forall|j: int| 0 <= j < i ==> samples@[j] < samples@[i as int]
        },
{
    if samples.len() == 0 {
        return None;
    }
    let mut best: usize = 0;
    let mut k: usize = 1;
    while k < samples.len()
        invariant
            0 < k <= samples@.len(),
            best < k,
            forall|j: int| 0 <= j < k ==> samples@[j] <= samples@[best as int],
            forall|j: int| 0 <= j < best ==> samples@[j] < samples@[best as int],
        decreases samples@.len() - k,
    {
        if samples[k] > samples[best] {
            best = k;
        }
        k += 1;
    }
    Some(best)
}

} // verus!
