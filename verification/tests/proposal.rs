use sequencer::proposal::{clamp_budget, prepare_proposal_txs, trim_to_budget};

fn candidates(sizes: &[usize]) -> Vec<Vec<u8>> {
    sizes.iter().map(|&n| vec![0u8; n]).collect()
}

fn sizes_of(txs: &[Vec<u8>]) -> Vec<usize> {
    txs.iter().map(|tx| tx.len()).collect()
}

#[test]
fn budget_trims_from_the_tail() {
    // 100 alone fits the budget of 120 while 100 + 50 does not, so trimming
    // from the tail keeps exactly the first candidate.
    let kept = trim_to_budget(candidates(&[100, 50, 30, 20]), 120);
    assert_eq!(sizes_of(&kept), vec![100]);
}

#[test]
fn sufficient_budget_keeps_everything() {
    let kept = trim_to_budget(candidates(&[100, 50, 30, 20]), 200);
    assert_eq!(sizes_of(&kept), vec![100, 50, 30, 20]);
    let kept = trim_to_budget(candidates(&[100, 50, 30, 20]), usize::MAX);
    assert_eq!(sizes_of(&kept), vec![100, 50, 30, 20]);
}

#[test]
fn zero_budget_empties_the_proposal() {
    let kept = trim_to_budget(candidates(&[100, 50, 30, 20]), 0);
    assert!(kept.is_empty());
}

#[test]
fn exact_budget_boundary_is_kept() {
    let kept = trim_to_budget(candidates(&[100, 50, 30, 20]), 180);
    assert_eq!(sizes_of(&kept), vec![100, 50, 30]);
}

#[test]
fn order_of_kept_transactions_is_preserved() {
    let txs: Vec<Vec<u8>> = vec![vec![1, 1], vec![2], vec![3, 3, 3]];
    let kept = trim_to_budget(txs.clone(), 3);
    assert_eq!(kept, vec![vec![1, 1], vec![2]]);
}

#[test]
fn negative_and_oversized_budgets_collapse_to_zero() {
    assert_eq!(clamp_budget(-1), 0);
    assert_eq!(clamp_budget(0), 0);
    assert_eq!(clamp_budget(120), 120);
    let kept = prepare_proposal_txs(candidates(&[10, 20]), -5);
    assert!(kept.is_empty());
}

#[test]
fn empty_candidate_list_stays_empty() {
    assert!(trim_to_budget(Vec::new(), 0).is_empty());
    assert!(trim_to_budget(Vec::new(), 100).is_empty());
}

#[test]
fn zero_sized_transactions_always_fit() {
    let kept = trim_to_budget(candidates(&[0, 0]), 0);
    assert_eq!(sizes_of(&kept), vec![0, 0]);
}
