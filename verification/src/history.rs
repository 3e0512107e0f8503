//! Helpers over the list of visited pages.

use vstd::prelude::*;

use crate::app_model::HistoryEntry;

verus! {

/// Removes all history entries.
pub fn clear(history: &mut Vec<HistoryEntry>)
    ensures
        final(history)@.len() == 0,
{
    history.clear();
}

/// The last `limit` entries, most recent first.
pub fn recent(history: &[HistoryEntry], limit: usize) -> (res: Vec<&HistoryEntry>)
    ensures
        res@.len() == if limit <= history@.len() { limit as int } else { history@.len() as int },
        forall|k: int| 0 <= k < res@.len() ==> *(#[trigger] res@[k]) == history@[history@.len() - 1 - k],
{
    let n = history.len();
    let mut res: Vec<&HistoryEntry> = Vec::new();
    let mut k: usize = 0;
    while k < limit && k < n
        invariant
            n == history@.len(),
            k <= n,
            k <= limit,
            res@.len() == k,
            forall|j: int| 0 <= j < k ==> *(#[trigger] res@[j]) == history@[n - 1 - j],
        decreases n - k,
    {
        res.push(&history[n - 1 - k]);
        k = k + 1;
    }
    res
}

} // verus!
