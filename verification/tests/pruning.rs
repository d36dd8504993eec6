use loom::pruning::prune_positions;

#[test]
fn nothing_goes_within_the_budget() {
    assert!(prune_positions(&vec![false, false, true], 3, 0).is_empty());
    assert!(prune_positions(&vec![false, false], 3, 1).is_empty());
}

#[test]
fn least_relevant_short_term_items_go_first() {
    // Four items, least relevant first; the second is long-term.
    let long_term = vec![false, true, false, false];
    assert_eq!(prune_positions(&long_term, 2, 0), vec![0, 2]);
    // Room for one more item: one more goes.
    assert_eq!(prune_positions(&long_term, 3, 1), vec![0, 2]);
    assert_eq!(prune_positions(&long_term, 3, 0), vec![0]);
}

#[test]
fn long_term_items_are_never_dropped() {
    let long_term = vec![true, true, false];
    assert_eq!(prune_positions(&long_term, 1, 0), vec![2]);
    assert_eq!(prune_positions(&vec![true, true], 0, 0), Vec::<usize>::new());
}

#[test]
fn a_reserve_larger_than_the_budget_empties_short_term_items() {
    assert_eq!(prune_positions(&vec![false, false], 1, 5), vec![0, 1]);
}
