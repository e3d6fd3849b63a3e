use crate::employee::EmployeeData;
use crate::identity::Identity;
use vstd::prelude::*;

verus! {

/// Whether `records` holds a record for `who`.
pub open spec fn has_record(records: Seq<EmployeeData>, who: Seq<char>) -> bool {
    exists|i: int| 0 <= i < records.len() && (#[trigger] records[i]).address@ == who
}

/// A place in `records` at which the record for `who` stands, if it has one.
pub open spec fn record_place(records: Seq<EmployeeData>, who: Seq<char>) -> int {
    choose|i: int| 0 <= i < records.len() && (#[trigger] records[i]).address@ == who
}

/// No two records are for the same employee.
pub open spec fn distinct_addresses(records: Seq<EmployeeData>) -> bool {
    forall|i: int, j: int|
        0 <= i < j < records.len() ==> (#[trigger] records[i]).address@ != (
        #[trigger] records[j]).address@
}

/// Every record holds a positive salary.
pub open spec fn positive_salaries(records: Seq<EmployeeData>) -> bool {
    forall|i: int| 0 <= i < records.len() ==> (#[trigger] records[i]).salary > 0
}

/// The salary kept for each employee that has a record in `records`.
pub open spec fn salary_table(records: Seq<EmployeeData>) -> Map<Seq<char>, i128> {
    Map::new(
        |who: Seq<char>| has_record(records, who),
        |who: Seq<char>| records[record_place(records, who)].salary,
    )
}

/// The records of a ledger: at most one per employee, each with a positive
/// salary. Its view is the salary kept for each employee that has a record.
pub(crate) struct Records {
    entries: Vec<EmployeeData>,
}

impl View for Records {
    type V = Map<Seq<char>, i128>;

    closed spec fn view(&self) -> Map<Seq<char>, i128> {
        salary_table(self.entries@)
    }
}

impl Records {
    #[verifier::type_invariant]
    spec fn well_formed(self) -> bool {
        &&& distinct_addresses(self.entries@)
        &&& positive_salaries(self.entries@)
    }

    pub(crate) fn new() -> (records: Records)
        ensures
            records@ == Map::<Seq<char>, i128>::empty(),
    {
        let records = Records { entries: Vec::new() };
        records
    }

    /// The records that `entries` lists, where they can be held at all.
    pub(crate) fn from_entries(entries: Vec<EmployeeData>) -> (records: Option<Records>)
        ensures
            records is Some <==> distinct_addresses(entries@) && positive_salaries(entries@),
            records matches Some(held) ==> held@ == salary_table(entries@),
    {
        let mut i: usize = 0;
        while i < entries.len()
            invariant
                i <= entries@.len(),
                distinct_addresses(entries@.take(i as int)),
                positive_salaries(entries@.take(i as int)),
            decreases entries@.len() - i,
        {
            if entries[i].salary <= 0 {
                return None;
            }
            let mut j: usize = 0;
            while j < i
                invariant
                    j <= i < entries@.len(),
                    forall|k: int|
                        0 <= k < j ==> (#[trigger] entries@[k]).address@
                            != entries@[i as int].address@,
                decreases i - j,
            {
                if entries[j].address.same_as(&entries[i].address) {
                    return None;
                }
                j += 1;
            }
            proof {
                let seen = entries@.take(i as int);
                let more = entries@.take(i + 1);
                assert forall|a: int, b: int| 0 <= a < b < more.len() implies (
                #[trigger] more[a]).address@ != (#[trigger] more[b]).address@ by {
                    if b < i {
                    }
                }
                assert forall|a: int| 0 <= a < more.len() implies (#[trigger] more[a]).salary
                    > 0 by {
                    if a < i {
                    }
                }
            }
            i += 1;
        }
        assert(entries@.take(entries@.len() as int) =~= entries@);
        Some(Records { entries })
    }

    /// The place of the record kept for `who`, if there is one.
    fn position(&self, who: &Identity) -> (place: Option<usize>)
        ensures
            match place {
                Some(p) => p < self.entries@.len() && self.entries@[p as int].address@ == who@,
                None => !has_record(self.entries@, who@),
            },
    {
        let mut i: usize = 0;
        while i < self.entries.len()
            invariant
                i <= self.entries@.len(),
                forall|k: int| 0 <= k < i ==> (#[trigger] self.entries@[k]).address@ != who@,
            decreases self.entries@.len() - i,
        {
            if self.entries[i].address.same_as(who) {
                return Some(i);
            }
            i += 1;
        }
        None
    }

    /// The record kept for `who`, if there is one.
    pub(crate) fn get(&self, who: &Identity) -> (found: Option<&EmployeeData>)
        ensures
            match found {
                Some(record) => {
                    &&& self@.contains_key(who@)
                    &&& record.address@ == who@
                    &&& record.salary == self@[who@]
                    &&& record.salary > 0
                },
                None => !self@.contains_key(who@),
            },
    {
        proof {
            use_type_invariant(self);
        }
        match self.position(who) {
            Some(place) => {
                proof {
                    lemma_table_at(self.entries@, place as int);
                }
                Some(&self.entries[place])
            },
            None => None,
        }
    }

    /// Keeps `salary` for `who`, in place of what was kept for them before.
    pub(crate) fn insert(&mut self, who: Identity, salary: i128)
        requires
            salary > 0,
        ensures
            final(self)@ == old(self)@.insert(who@, salary),
    {
        proof {
            use_type_invariant(&*self);
        }
        let place = self.position(&who);
        let record = EmployeeData { address: who, salary };
        let mut entries: Vec<EmployeeData> = Vec::new();
        std::mem::swap(&mut self.entries, &mut entries);
        match place {
            Some(place) => {
                proof {
                    lemma_table_update(entries@, place as int, record);
                }
                entries.set(place, record);
            },
            None => {
                proof {
                    lemma_table_push(entries@, record);
                }
                entries.push(record);
            },
        }
        self.entries = entries;
    }

    /// Drops the record kept for `who`, if there is one.
    pub(crate) fn remove(&mut self, who: &Identity)
        ensures
            final(self)@ == old(self)@.remove(who@),
    {
        proof {
            use_type_invariant(&*self);
        }
        let place = self.position(who);
        let mut entries: Vec<EmployeeData> = Vec::new();
        std::mem::swap(&mut self.entries, &mut entries);
        match place {
            Some(place) => {
                proof {
                    lemma_table_remove(entries@, place as int);
                }
                entries.remove(place);
            },
            None => {},
        }
        self.entries = entries;
    }
}

/// With distinct addresses, the table holds at each record's address that
/// record's salary.
proof fn lemma_table_at(records: Seq<EmployeeData>, i: int)
    requires
        distinct_addresses(records),
        0 <= i < records.len(),
    ensures
        salary_table(records).contains_key(records[i].address@),
        salary_table(records)[records[i].address@] == records[i].salary,
{
}

/// Adding a record for an employee that had none adds that one entry to the
/// table.
proof fn lemma_table_push(records: Seq<EmployeeData>, record: EmployeeData)
    requires
        distinct_addresses(records),
        !has_record(records, record.address@),
    ensures
        distinct_addresses(records.push(record)),
        salary_table(records.push(record)) == salary_table(records).insert(
            record.address@,
            record.salary,
        ),
{
    let after = records.push(record);
    assert forall|who: Seq<char>| has_record(after, who) <==> (has_record(records, who) || who
        == record.address@) by {
        if has_record(records, who) {
            let i = record_place(records, who);
            assert(after[i] == records[i]);
        }
        if who == record.address@ {
            assert(after[records.len() as int] == record);
        }
    }
    assert forall|who: Seq<char>| has_record(after, who) implies salary_table(after)[who]
        == salary_table(records).insert(record.address@, record.salary)[who] by {
        let i = record_place(after, who);
        lemma_table_at(after, i);
        if i < records.len() {
            lemma_table_at(records, i);
        }
    }
}

/// Replacing a record by one for the same employee changes that one entry of
/// the table.
proof fn lemma_table_update(records: Seq<EmployeeData>, i: int, record: EmployeeData)
    requires
        distinct_addresses(records),
        0 <= i < records.len(),
        record.address@ == records[i].address@,
    ensures
        distinct_addresses(records.update(i, record)),
        salary_table(records.update(i, record)) == salary_table(records).insert(
            record.address@,
            record.salary,
        ),
{
    let after = records.update(i, record);
    assert forall|who: Seq<char>| has_record(after, who) <==> has_record(records, who) by {
        if has_record(records, who) {
            let k = record_place(records, who);
            assert(after[k].address@ == records[k].address@);
        }
    }
    assert forall|who: Seq<char>| has_record(after, who) implies salary_table(after)[who]
        == salary_table(records).insert(record.address@, record.salary)[who] by {
        let k = record_place(after, who);
        lemma_table_at(after, k);
        if k != i {
            lemma_table_at(records, k);
        }
    }
}

/// Taking a record out takes its employee's entry out of the table.
proof fn lemma_table_remove(records: Seq<EmployeeData>, i: int)
    requires
        distinct_addresses(records),
        0 <= i < records.len(),
    ensures
        distinct_addresses(records.remove(i)),
        salary_table(records.remove(i)) == salary_table(records).remove(records[i].address@),
{
    let after = records.remove(i);
    let gone = records[i].address@;
    assert forall|who: Seq<char>| has_record(after, who) <==> (has_record(records, who) && who
        != gone) by {
        if has_record(records, who) && who != gone {
            let k = record_place(records, who);
            let k1 = if k < i {
                k
            } else {
                k - 1
            };
            assert(after[k1] == records[k]);
        }
    }
    assert forall|who: Seq<char>| has_record(after, who) implies salary_table(after)[who]
        == salary_table(records).remove(gone)[who] by {
        let k = record_place(after, who);
        let k0 = if k < i {
            k
        } else {
            k + 1
        };
        lemma_table_at(after, k);
        lemma_table_at(records, k0);
    }
}

} // verus!
