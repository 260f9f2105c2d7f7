use backend::reconcile::{difference, reconcile, same_members};

#[test]
fn difference_keeps_first_occurrences_in_order() {
    assert_eq!(difference(&vec![5, 3, 5, 9, 3, 1], &vec![9, 2]), vec![5, 3, 1]);
    assert_eq!(difference(&vec![], &vec![1, 2]), Vec::<u128>::new());
    assert_eq!(difference(&vec![1, 2], &vec![]), vec![1, 2]);
    assert_eq!(difference(&vec![4, 4, 4], &vec![]), vec![4]);
    assert_eq!(difference(&vec![1, 2, 3], &vec![3, 2, 1]), Vec::<u128>::new());
}

#[test]
fn reconcile_gives_both_deltas() {
    let delta = reconcile(&vec![1, 2, 3, 7], &vec![3, 4, 5, 1]);
    assert_eq!(delta.to_add, vec![2, 7]);
    assert_eq!(delta.to_remove, vec![4, 5]);
}

#[test]
fn reconcile_of_nothing_against_something_removes_all() {
    let delta = reconcile(&vec![], &vec![8, 9]);
    assert!(delta.to_add.is_empty());
    assert_eq!(delta.to_remove, vec![8, 9]);
}

#[test]
fn reconcile_of_the_same_members_is_empty() {
    let delta = reconcile(&vec![2, 1, 2], &vec![1, 2]);
    assert!(delta.to_add.is_empty());
    assert!(delta.to_remove.is_empty());
}

#[test]
fn reconcile_handles_the_largest_ids() {
    let delta = reconcile(&vec![u128::MAX, 0], &vec![u128::MAX - 1]);
    assert_eq!(delta.to_add, vec![u128::MAX, 0]);
    assert_eq!(delta.to_remove, vec![u128::MAX - 1]);
}

#[test]
fn same_members_ignores_order_and_repetition() {
    assert!(same_members(&vec![1, 2, 3], &vec![3, 1, 2, 2]));
    assert!(same_members(&vec![], &vec![]));
    assert!(!same_members(&vec![1, 2], &vec![1]));
    assert!(!same_members(&vec![1], &vec![1, 2]));
    assert!(!same_members(&vec![1], &vec![2]));
}
