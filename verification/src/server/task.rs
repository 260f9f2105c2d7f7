//! Requests on tasks. They need no token.

use crate::outside::choose_id;
use crate::reconcile::{difference, lemma_missing_is_difference};
use vstd::prelude::*;

verus! {

/// Picks one of the tasks at random. There is none to pick exactly if `ids`
/// is empty.
pub fn get_random(ids: &Vec<u128>) -> (picked: Option<u128>)
    ensures
        picked is None <==> ids@.len() == 0,
        picked matches Some(id) ==> ids@.contains(id),
{
    choose_id(ids)
}

/// Picks at random one of the tasks that is not among `seen`. There is none
/// to pick exactly if every task is among `seen`.
pub fn get_other_than(ids: &Vec<u128>, seen: &Vec<u128>) -> (picked: Option<u128>)
    ensures
        picked is None <==> forall|id: u128| ids@.contains(id) ==> seen@.contains(id),
        picked matches Some(id) ==> ids@.contains(id) && !seen@.contains(id),
{
    let left = difference(ids, seen);
    let picked = choose_id(&left);
    proof {
        lemma_missing_is_difference(ids@, seen@);
        if left@.len() > 0 {
            assert(left@.contains(picked->0));
            assert(ids@.contains(picked->0) && !seen@.contains(picked->0));
        } else {
            assert forall|id: u128| ids@.contains(id) implies seen@.contains(id) by {
                if !seen@.contains(id) {
                    assert(left@.contains(id));
                }
            }
        }
    }
    picked
}

} // verus!
