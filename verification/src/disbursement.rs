use crate::identity::Identity;
use vstd::prelude::*;

verus! {

/// One movement of funds that the value-transfer mechanism is asked to make.
#[derive(Debug, PartialEq, Eq)]
pub struct Transfer {
    pub from: Identity,
    pub to: Identity,
    pub amount: i128,
}

/// What a [`Transfer`] stands for.
pub struct TransferView {
    pub from: Seq<char>,
    pub to: Seq<char>,
    pub amount: i128,
}

impl View for Transfer {
    type V = TransferView;

    open spec fn view(&self) -> TransferView {
        TransferView { from: self.from@, to: self.to@, amount: self.amount }
    }
}

/// One full pass over the registry: the mechanism to use, the transfers to
/// make in order, and what they add up to.
///
/// The ledger decides what is paid; making the transfers is left to whoever
/// holds the mechanism. A disbursement is meant to be carried out as a whole
/// or not at all.
#[derive(Debug, PartialEq, Eq)]
pub struct Disbursement {
    pub token: Identity,
    pub transfers: Vec<Transfer>,
    pub total: i128,
}

/// What a [`Disbursement`] stands for.
pub struct DisbursementView {
    pub token: Seq<char>,
    pub transfers: Seq<TransferView>,
    pub total: i128,
}

impl View for Disbursement {
    type V = DisbursementView;

    open spec fn view(&self) -> DisbursementView {
        DisbursementView {
            token: self.token@,
            transfers: Seq::new(self.transfers@.len(), |i: int| self.transfers@[i]@),
            total: self.total,
        }
    }
}

/// The sum of the salaries kept for the employees of `list`, one term for
/// each place in the list.
pub open spec fn salary_sum(salaries: Map<Seq<char>, i128>, list: Seq<Seq<char>>) -> int
    decreases list.len(),
{
    if list.len() == 0 {
        0
    } else {
        salary_sum(salaries, list.drop_last()) + salaries[list.last()]
    }
}

/// One more employee at the end of the list adds that employee's salary.
pub proof fn lemma_sum_push(salaries: Map<Seq<char>, i128>, list: Seq<Seq<char>>, who: Seq<char>)
    ensures
        salary_sum(salaries, list.push(who)) == salary_sum(salaries, list) + salaries[who],
{
    assert(list.push(who).drop_last() =~= list);
}

/// Where no listed salary is negative, the sum over a front part of the list
/// is at most the sum over the whole list, and neither is negative.
pub proof fn lemma_sum_grows(salaries: Map<Seq<char>, i128>, list: Seq<Seq<char>>, k: int)
    requires
        0 <= k <= list.len(),
        forall|i: int| 0 <= i < list.len() ==> salaries[#[trigger] list[i]] >= 0,
    ensures
        0 <= salary_sum(salaries, list.take(k)) <= salary_sum(salaries, list),
    decreases list.len(),
{
    if list.len() > 0 {
        let front = list.drop_last();
        if k == list.len() {
            lemma_sum_grows(salaries, front, k - 1);
            assert(list.take(k) =~= list);
        } else {
            lemma_sum_grows(salaries, front, k);
            assert(front.take(k) =~= list.take(k));
        }
    }
}

} // verus!
