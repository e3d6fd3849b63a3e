use crate::identity::{names, Identity};
use vstd::prelude::*;

verus! {

/// The test that tells every identity but `employee` apart from it.
pub open spec fn other_than(employee: Seq<char>) -> spec_fn(Seq<char>) -> bool {
    |who: Seq<char>| who != employee
}

/// `list` with every occurrence of `employee` taken out, the rest in order.
pub open spec fn without(list: Seq<Seq<char>>, employee: Seq<char>) -> Seq<Seq<char>> {
    list.filter(other_than(employee))
}

/// `who` stands at exactly one place of `list`.
pub open spec fn listed_once(list: Seq<Seq<char>>, who: Seq<char>) -> bool {
    exists|i: int|
        0 <= i < list.len() && #[trigger] list[i] == who && forall|j: int|
            0 <= j < list.len() && #[trigger] list[j] == who ==> j == i
}

/// The identities of `list` other than `employee`, in order.
pub(crate) fn all_but(list: &Vec<Identity>, employee: &Identity) -> (kept: Vec<Identity>)
    ensures
        names(kept@) == without(names(list@), employee@),
{
    let mut kept: Vec<Identity> = Vec::new();
    let mut i: usize = 0;
    while i < list.len()
        invariant
            i <= list@.len(),
            names(kept@) == without(names(list@).take(i as int), employee@),
        decreases list@.len() - i,
    {
        proof {
            let seen = names(list@).take(i as int);
            assert(seen.push(list@[i as int]@) =~= names(list@).take(i + 1));
            seen.lemma_filter_push(list@[i as int]@, other_than(employee@));
        }
        if !list[i].same_as(employee) {
            kept.push(list[i].clone());
        }
        i += 1;
    }
    assert(names(list@).take(list@.len() as int) =~= names(list@));
    kept
}

/// A list of the same identities in the same order.
pub(crate) fn copy_of(list: &Vec<Identity>) -> (copy: Vec<Identity>)
    ensures
        copy@ == list@,
{
    let mut copy: Vec<Identity> = Vec::new();
    let mut i: usize = 0;
    while i < list.len()
        invariant
            i <= list@.len(),
            copy@ == list@.take(i as int),
        decreases list@.len() - i,
    {
        copy.push(list[i].clone());
        i += 1;
    }
    copy
}

/// What taking an employee out of a list does: the others stay, a list
/// without repetition stays so, a list that does not hold the employee is
/// unchanged, and one that holds them once gets shorter by one.
pub proof fn lemma_without(list: Seq<Seq<char>>, employee: Seq<char>)
    ensures
        forall|who: Seq<char>|
            without(list, employee).contains(who) <==> list.contains(who) && who != employee,
        list.no_duplicates() ==> without(list, employee).no_duplicates(),
        !list.contains(employee) ==> without(list, employee) == list,
        list.no_duplicates() && list.contains(employee) ==> without(list, employee).len()
            == list.len() - 1,
    decreases list.len(),
{
    let kept = without(list, employee);
    if list.len() == 0 {
        reveal(Seq::filter);
    } else {
        let front = list.drop_last();
        let last = list.last();
        let front_kept = without(front, employee);
        lemma_without(front, employee);
        assert(front.push(last) =~= list);
        front.lemma_filter_push(last, other_than(employee));
        assert forall|who: Seq<char>| list.contains(who) <==> front.contains(who) || who
            == last by {}
        if last != employee {
            assert forall|who: Seq<char>| kept.contains(who) <==> front_kept.contains(who) || who
                == last by {
                if front_kept.contains(who) {
                    let i = choose|i: int| 0 <= i < front_kept.len() && front_kept[i] == who;
                    assert(kept[i] == who);
                }
            }
        }
        if list.no_duplicates() {
            assert(front.no_duplicates());
            assert(!front.contains(last));
        }
    }
}

/// Appending an identity that a list does not hold keeps the list free of
/// repetition, and the identity then stands in it exactly once.
pub proof fn lemma_push_fresh(list: Seq<Seq<char>>, who: Seq<char>)
    requires
        list.no_duplicates(),
        !list.contains(who),
    ensures
        list.push(who).no_duplicates(),
        listed_once(list.push(who), who),
        forall|other: Seq<char>|
            list.push(who).contains(other) <==> list.contains(other) || other == who,
{
    let longer = list.push(who);
    assert(longer[list.len() as int] == who);
    assert forall|other: Seq<char>| longer.contains(other) <==> list.contains(other) || other
        == who by {
        if list.contains(other) {
            let i = choose|i: int| 0 <= i < list.len() && list[i] == other;
            assert(longer[i] == other);
        }
    }
}

} // verus!
