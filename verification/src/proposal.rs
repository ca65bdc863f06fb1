//! The proposal builder: byte-budget-bounded transaction selection.
//!
//! The consensus engine hands over an ordered list of candidate transactions
//! and a maximum total byte size; the builder keeps the longest prefix that
//! fits, trimming from the tail, so the relative order - and whatever
//! priority it encodes - of the retained transactions is preserved.

use vstd::prelude::*;

verus! {

/// Total byte size of a sequence of transactions.
pub open spec fn total_len(txs: Seq<Seq<u8>>) -> int
    decreases txs.len(),
{
    if txs.len() == 0 {
        0
    } else {
        total_len(txs.drop_last()) + txs.last().len()
    }
}

pub proof fn lemma_total_len_nonneg(txs: Seq<Seq<u8>>)
    ensures
        total_len(txs) >= 0,
    decreases txs.len(),
{
    if txs.len() > 0 {
        lemma_total_len_nonneg(txs.drop_last());
    }
}

/// Extending a prefix by one transaction adds exactly its size.
pub proof fn lemma_total_len_take_step(txs: Seq<Seq<u8>>, k: int)
    requires
        0 <= k < txs.len(),
    ensures
        total_len(txs.take(k + 1)) == total_len(txs.take(k)) + txs[k].len(),
{
    let prefix = txs.take(k + 1);
    assert(prefix.drop_last() =~= txs.take(k));
    assert(prefix.last() == txs[k]);
}

/// A prefix never outweighs the whole sequence.
pub proof fn lemma_total_len_take_le(txs: Seq<Seq<u8>>, k: int)
    requires
        0 <= k <= txs.len(),
    ensures
        total_len(txs.take(k)) <= total_len(txs),
    decreases txs.len() - k,
{
    if k == txs.len() {
        assert(txs.take(k) =~= txs);
    } else {
        lemma_total_len_take_step(txs, k);
        lemma_total_len_take_le(txs, k + 1);
    }
}

/// Trim the candidate list to the byte budget: keep the longest prefix whose
/// total size fits, removing transactions from the tail.
///
/// The kept transactions are a prefix of the input. When the total size
/// already fits the budget, the input comes back unchanged. As long as the
/// total size is representable at all, the result is exactly the longest
/// fitting prefix: it fits, and keeping one transaction more would not.
pub fn trim_to_budget(txs: Vec<Vec<u8>>, budget: usize) -> (kept: Vec<Vec<u8>>)
    ensures
        kept@.len() <= txs@.len(),
        kept.deep_view() == txs.deep_view().take(kept@.len() as int),
        total_len(txs.deep_view()) <= budget ==> kept@.len() == txs@.len(),
        total_len(txs.deep_view()) <= usize::MAX ==> total_len(kept.deep_view()) <= budget && (
        kept@.len() < txs@.len() ==> total_len(txs.deep_view().take(kept@.len() as int + 1)) > budget),
{
    let ghost all = txs.deep_view();
    let mut total: usize = 0;
    let mut i: usize = 0;
    while i < txs.len()
        invariant
            i <= txs@.len(),
            all == txs.deep_view(),
            total_len(all) <= usize::MAX ==> total == total_len(all.take(i as int)),
        decreases txs@.len() - i,
    {
        let l = txs[i].len();
        proof {
            lemma_total_len_take_step(all, i as int);
            lemma_total_len_take_le(all, i as int + 1);
            assert(all[i as int].len() == l);
        }
        total = if total > usize::MAX - l {
            usize::MAX
        } else {
            total + l
        };
        i += 1;
    }
    proof {
        assert(all.take(all.len() as int) =~= all);
    }
    let mut kept = txs;
    while total > budget && kept.len() > 0
        invariant
            kept@.len() <= all.len(),
            kept.deep_view() == all.take(kept@.len() as int),
            total_len(all) <= usize::MAX ==> total == total_len(kept.deep_view()),
            total_len(all) <= usize::MAX && kept@.len() < all.len() ==> total_len(
                all.take(kept@.len() as int + 1),
            ) > budget,
            total_len(all) <= budget ==> kept@.len() == all.len(),
        decreases kept@.len(),
    {
        proof {
            if total_len(all) <= budget {
                lemma_total_len_take_le(all, kept@.len() as int);
            }
        }
        let ghost before = kept.deep_view();
        let tx = kept.pop().unwrap();
        proof {
            assert(kept.deep_view() =~= before.drop_last());
            assert(before.drop_last() =~= all.take(kept@.len() as int));
            lemma_total_len_take_step(all, kept@.len() as int);
            lemma_total_len_nonneg(all.take(kept@.len() as int));
        }
        total = if total >= tx.len() {
            total - tx.len()
        } else {
            0
        };
    }
    proof {
        if total_len(all) <= usize::MAX && kept@.len() == 0 {
            assert(kept.deep_view() =~= Seq::<Seq<u8>>::empty());
        }
    }
    kept
}

/// Clamp the budget the consensus engine hands over as a signed quantity to
/// the unsigned range the builder works with: a negative or unrepresentable
/// budget collapses to zero.
pub fn clamp_budget(max_tx_bytes: i64) -> (budget: usize)
    ensures
        budget == spec_budget(max_tx_bytes),
{
    if max_tx_bytes < 0 {
        0
    } else if max_tx_bytes as u64 > usize::MAX as u64 {
        0
    } else {
        max_tx_bytes as usize
    }
}

/// The byte budget a raw `max_tx_bytes` field denotes: its value when it
/// fits in `usize`, and zero otherwise.
pub open spec fn spec_budget(max_tx_bytes: i64) -> usize {
    if 0 <= max_tx_bytes <= usize::MAX {
        max_tx_bytes as usize
    } else {
        0
    }
}

/// Build the proposal for a raw request: clamp the budget, then trim.
pub fn prepare_proposal_txs(txs: Vec<Vec<u8>>, max_tx_bytes: i64) -> (kept: Vec<Vec<u8>>)
    ensures
        kept@.len() <= txs@.len(),
        kept.deep_view() == txs.deep_view().take(kept@.len() as int),
        total_len(txs.deep_view()) <= spec_budget(max_tx_bytes) ==> kept@.len() == txs@.len(),
        total_len(txs.deep_view()) <= usize::MAX ==> total_len(kept.deep_view()) <= spec_budget(
            max_tx_bytes,
        ) && (kept@.len() < txs@.len() ==> total_len(txs.deep_view().take(kept@.len() as int + 1))
            > spec_budget(max_tx_bytes)),
{
    let budget = clamp_budget(max_tx_bytes);
    trim_to_budget(txs, budget)
}

} // verus!
