//! Reconciliation of many-to-many relations.
//!
//! A relation (the friends of a user, the tags of a task) is kept in memory as
//! a list of identifiers and in the store as join rows. Bringing the store in
//! line with the list takes two sets of identifiers: those to add and those to
//! remove. Order and repetition in either list carry no meaning.

use std::collections::HashSet;
use vstd::prelude::*;

verus! {

broadcast use vstd::std_specs::hash::group_hash_axioms;

/// The members of `wanted` that `present` lacks: each of them once, in the
/// order in which `wanted` first names them.
pub open spec fn missing<A>(wanted: Seq<A>, present: Seq<A>) -> Seq<A>
    decreases wanted.len(),
{
    if wanted.len() == 0 {
        Seq::empty()
    } else {
        let earlier = missing(wanted.drop_last(), present);
        let last = wanted.last();
        if present.contains(last) || earlier.contains(last) {
            earlier
        } else {
            earlier.push(last)
        }
    }
}

/// `missing` is set difference: it names exactly the members of `wanted` that
/// are not in `present`, and names none of them twice.
pub proof fn lemma_missing_is_difference<A>(wanted: Seq<A>, present: Seq<A>)
    ensures
        missing(wanted, present).no_duplicates(),
        forall|member: A| #[trigger]
            missing(wanted, present).contains(member) <==> wanted.contains(member)
                && !present.contains(member),
        missing(wanted, present).to_set() == wanted.to_set().difference(present.to_set()),
    decreases wanted.len(),
{
    let found = missing(wanted, present);
    if wanted.len() > 0 {
        let earlier = missing(wanted.drop_last(), present);
        let last = wanted.last();
        lemma_missing_is_difference(wanted.drop_last(), present);
        assert forall|member: A| #[trigger]
            found.contains(member) <==> wanted.contains(member) && !present.contains(member) by {
            if wanted.contains(member) {
                let i = choose|i: int| 0 <= i < wanted.len() && wanted[i] == member;
                if i < wanted.len() - 1 {
                    assert(wanted.drop_last()[i] == member);
                }
            }
            if wanted.drop_last().contains(member) {
                let i = choose|i: int|
                    0 <= i < wanted.drop_last().len() && wanted.drop_last()[i] == member;
                assert(wanted[i] == member);
            }
            if found.contains(member) && !earlier.contains(member) {
                let i = choose|i: int| 0 <= i < found.len() && found[i] == member;
                assert(member == last);
            }
            if earlier.contains(member) && found != earlier {
                let i = choose|i: int| 0 <= i < earlier.len() && earlier[i] == member;
                assert(found[i] == member);
            }
            if member == last && found != earlier {
                assert(found[found.len() - 1] == member);
            }
        }
    }
    assert(found.to_set() =~= wanted.to_set().difference(present.to_set()));
}

/// Two lists name the same members exactly when neither lacks a member of the
/// other.
pub proof fn lemma_same_members<A>(left: Seq<A>, right: Seq<A>)
    ensures
        (missing(left, right).len() == 0 && missing(right, left).len() == 0) <==> left.to_set()
            == right.to_set(),
{
    let only_left = missing(left, right);
    let only_right = missing(right, left);
    lemma_missing_is_difference(left, right);
    lemma_missing_is_difference(right, left);
    if only_left.len() == 0 && only_right.len() == 0 {
        assert forall|member: A| left.to_set().contains(member) == right.to_set().contains(
            member,
        ) by {
            if left.contains(member) && !right.contains(member) {
                assert(only_left.contains(member));
            }
            if right.contains(member) && !left.contains(member) {
                assert(only_right.contains(member));
            }
        }
        assert(left.to_set() =~= right.to_set());
    } else if only_left.len() > 0 {
        assert(only_left.contains(only_left[0]));
        assert(left.to_set().contains(only_left[0]));
        assert(!right.to_set().contains(only_left[0]));
    } else {
        assert(only_right.contains(only_right[0]));
        assert(right.to_set().contains(only_right[0]));
        assert(!left.to_set().contains(only_right[0]));
    }
}

/// What it takes to bring a persisted relation in line with a desired one.
pub struct Delta {
    /// Members to add: desired, not persisted.
    pub to_add: Vec<u128>,
    /// Members to remove: persisted, not desired.
    pub to_remove: Vec<u128>,
}

fn id_set(ids: &Vec<u128>) -> (set: HashSet<u128>)
    ensures
        set@ == ids@.to_set(),
{
    let mut set: HashSet<u128> = HashSet::new();
    let mut i: usize = 0;
    while i < ids.len()
        invariant
            i <= ids.len(),
            set@ == ids@.take(i as int).to_set(),
        decreases ids.len() - i,
    {
        set.insert(ids[i]);
        proof {
            assert(ids@.take(i + 1) == ids@.take(i as int).push(ids@[i as int]));
            ids@.take(i as int).lemma_push_to_set_commute(ids@[i as int]);
        }
        i += 1;
    }
    assert(ids@.take(ids@.len() as int) == ids@);
    set
}

/// The members of `wanted` that `present` lacks.
pub fn difference(wanted: &Vec<u128>, present: &Vec<u128>) -> (found: Vec<u128>)
    ensures
        found@ == missing(wanted@, present@),
{
    let there = id_set(present);
    let mut seen: HashSet<u128> = HashSet::new();
    let mut found: Vec<u128> = Vec::new();
    let mut i: usize = 0;
    while i < wanted.len()
        invariant
            i <= wanted.len(),
            there@ == present@.to_set(),
            found@ == missing(wanted@.take(i as int), present@),
            seen@ == found@.to_set(),
        decreases wanted.len() - i,
    {
        let id = wanted[i];
        proof {
            assert(wanted@.take(i + 1).drop_last() == wanted@.take(i as int));
            assert(wanted@.take(i + 1).last() == id);
        }
        if !there.contains(&id) && !seen.contains(&id) {
            seen.insert(id);
            proof {
                found@.lemma_push_to_set_commute(id);
            }
            found.push(id);
        }
        i += 1;
    }
    assert(wanted@.take(wanted@.len() as int) == wanted@);
    found
}

/// Whether two lists name the same members, whatever their order.
pub fn same_members(left: &Vec<u128>, right: &Vec<u128>) -> (same: bool)
    ensures
        same == (left@.to_set() == right@.to_set()),
{
    let only_left = difference(left, right);
    let only_right = difference(right, left);
    proof {
        lemma_same_members(left@, right@);
    }
    only_left.len() == 0 && only_right.len() == 0
}

/// Computes what to add to and what to remove from the persisted members of a
/// relation so that it holds exactly the desired ones.
pub fn reconcile(desired: &Vec<u128>, persisted: &Vec<u128>) -> (delta: Delta)
    ensures
        delta.to_add@ == missing(desired@, persisted@),
        delta.to_remove@ == missing(persisted@, desired@),
{
    Delta { to_add: difference(desired, persisted), to_remove: difference(persisted, desired) }
}

} // verus!
