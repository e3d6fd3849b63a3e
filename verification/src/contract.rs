use crate::disbursement::{lemma_sum_grows, lemma_sum_push, salary_sum, Disbursement, Transfer};
use crate::employee::{DataKey, EmployeeData};
use crate::errors::{CallError, PayrollError};
use crate::identity::{names, Authorization, Identity};
use crate::laws::{law_consistency_is_kept, law_new_ledger_is_consistent};
use crate::model::{Call, LedgerState};
use crate::records::{distinct_addresses, positive_salaries, salary_table, Records};
use crate::registry::{all_but, copy_of};
use vstd::prelude::*;

verus! {

/// A payroll ledger: the administrator, the reference to the value-transfer
/// mechanism, one record per employee, and the registry that lists the
/// employees in the order in which they are paid.
///
/// The ledger owns this state and is the only way to change it. Its view is
/// the [`LedgerState`] that a persistent store would hold for it. A new
/// ledger is consistent, and no call makes a consistent ledger inconsistent;
/// only [`restore`](PayrollContract::restore) can hand out a ledger whose
/// registry and records disagree, and every call says what it does with one.
pub struct PayrollContract {
    admin: Option<Identity>,
    token: Option<Identity>,
    records: Records,
    employee_list: Option<Vec<Identity>>,
}

impl View for PayrollContract {
    type V = LedgerState;

    closed spec fn view(&self) -> LedgerState {
        LedgerState {
            admin: match self.admin {
                Some(who) => Some(who@),
                None => None,
            },
            token: match self.token {
                Some(who) => Some(who@),
                None => None,
            },
            salaries: self.records@,
            registry: match self.employee_list {
                Some(list) => Some(names(list@)),
                None => None,
            },
        }
    }
}

impl PayrollContract {
    /// A ledger that nobody has set up yet.
    pub fn new() -> (ledger: PayrollContract)
        ensures
            ledger@ == LedgerState::uninitialized(),
            ledger@.consistent(),
    {
        proof {
            law_new_ledger_is_consistent();
        }
        PayrollContract { admin: None, token: None, records: Records::new(), employee_list: None }
    }

    /// The ledger that a persistent store holds: the administrator and the
    /// token reference as stored, one record per employee, and the registry as
    /// stored, whether or not it agrees with the records.
    ///
    /// Refuses records that no ledger can hold: two for one employee, or one
    /// with a salary that is not positive.
    pub fn restore(
        admin: Option<Identity>,
        token: Option<Identity>,
        records: Vec<EmployeeData>,
        employee_list: Option<Vec<Identity>>,
    ) -> (ledger: Option<PayrollContract>)
        ensures
            ledger is Some <==> distinct_addresses(records@) && positive_salaries(records@),
            ledger matches Some(restored) ==> restored@ == (LedgerState {
                admin: match admin {
                    Some(who) => Some(who@),
                    None => None,
                },
                token: match token {
                    Some(who) => Some(who@),
                    None => None,
                },
                salaries: salary_table(records@),
                registry: match employee_list {
                    Some(list) => Some(names(list@)),
                    None => None,
                },
            }),
    {
        match Records::from_entries(records) {
            Some(records) => Some(PayrollContract { admin, token, records, employee_list }),
            None => None,
        }
    }

    /// Whether the store holds an entry under `key`.
    pub fn has(&self, key: &DataKey) -> (present: bool)
        ensures
            present == match *key {
                DataKey::Admin => self@.admin is Some,
                DataKey::Token => self@.token is Some,
                DataKey::Employee(who) => self@.salaries.contains_key(who@),
                DataKey::EmployeeList => self@.registry is Some,
            },
    {
        match key {
            DataKey::Admin => self.admin.is_some(),
            DataKey::Token => self.token.is_some(),
            DataKey::Employee(who) => self.records.get(who).is_some(),
            DataKey::EmployeeList => self.employee_list.is_some(),
        }
    }

    /// Holds a call at the authorization gate. Lets it pass, with the
    /// administrator whose consent was proved, or says why not.
    fn pass(&self, auth: &Authorization) -> (passed: Result<&Identity, CallError>)
        ensures
            match self@.gate(auth@) {
                None => passed is Ok && self.admin == Some(*passed->Ok_0),
                Some(refusal) => passed == Err::<&Identity, CallError>(refusal),
            },
    {
        match &self.admin {
            None => Err(CallError::Ledger(PayrollError::NotInitialized)),
            Some(admin) => if auth.covers(admin) {
                Ok(admin)
            } else {
                Err(CallError::Unauthorized)
            },
        }
    }

    /// Sets the ledger up: names its administrator and the value-transfer
    /// mechanism, and starts an empty registry. Works once; needs nobody's
    /// consent.
    pub fn initialize(&mut self, admin: Identity, token: Identity) -> (result: Result<
        (),
        PayrollError,
    >)
        ensures
            match old(self)@.initialize(admin@, token@) {
                Ok(next) => result is Ok && final(self)@ == next,
                Err(error) => result == Err::<(), PayrollError>(error) && final(self)@ == old(
                    self,
                )@,
            },
            old(self)@.consistent() ==> final(self)@.consistent(),
    {
        proof {
            if self@.consistent() {
                law_consistency_is_kept(self@, Call::Initialize { admin: admin@, token: token@ });
            }
        }
        if self.admin.is_some() {
            return Err(PayrollError::AlreadyInitialized);
        }
        self.admin = Some(admin);
        self.token = Some(token);
        self.employee_list = Some(Vec::new());
        assert(names(Seq::<Identity>::empty()) =~= Seq::<Seq<char>>::empty());
        Ok(())
    }

    /// Takes `employee` onto the payroll with the given salary: writes the
    /// record, then appends the employee to the registry.
    pub fn add_employee(
        &mut self,
        auth: &Authorization,
        employee: Identity,
        salary: i128,
    ) -> (result: Result<(), CallError>)
        ensures
            match old(self)@.add_employee(auth@, employee@, salary) {
                Ok(next) => result is Ok && final(self)@ == next,
                Err(error) => result == Err::<(), CallError>(error) && final(self)@ == old(self)@,
            },
            old(self)@.consistent() ==> final(self)@.consistent(),
    {
        proof {
            if self@.consistent() {
                law_consistency_is_kept(
                    self@,
                    Call::AddEmployee { proved: auth@, employee: employee@, salary },
                );
            }
        }
        if let Err(refusal) = self.pass(auth) {
            return Err(refusal);
        }
        if salary <= 0 {
            return Err(CallError::Ledger(PayrollError::InvalidSalary));
        }
        if self.records.get(&employee).is_some() {
            return Err(CallError::Ledger(PayrollError::EmployeeAlreadyExists));
        }
        self.records.insert(employee.clone(), salary);
        let mut list = match self.employee_list.take() {
            Some(list) => list,
            None => Vec::new(),
        };
        proof {
            assert(names(list@.push(employee)) =~= names(list@).push(employee@));
            assert(names(Seq::<Identity>::empty()) =~= Seq::<Seq<char>>::empty());
        }
        list.push(employee);
        self.employee_list = Some(list);
        Ok(())
    }

    /// Takes `employee` off the payroll: deletes the record and rebuilds the
    /// registry without the employee, the others in their order.
    pub fn remove_employee(&mut self, auth: &Authorization, employee: Identity) -> (result: Result<
        (),
        CallError,
    >)
        ensures
            match old(self)@.remove_employee(auth@, employee@) {
                Ok(next) => result is Ok && final(self)@ == next,
                Err(error) => result == Err::<(), CallError>(error) && final(self)@ == old(self)@,
            },
            old(self)@.consistent() ==> final(self)@.consistent(),
    {
        proof {
            if self@.consistent() {
                law_consistency_is_kept(
                    self@,
                    Call::RemoveEmployee { proved: auth@, employee: employee@ },
                );
            }
        }
        if let Err(refusal) = self.pass(auth) {
            return Err(refusal);
        }
        if self.records.get(&employee).is_none() {
            return Err(CallError::Ledger(PayrollError::EmployeeNotFound));
        }
        self.records.remove(&employee);
        let list = match self.employee_list.take() {
            Some(list) => list,
            None => Vec::new(),
        };
        assert(names(Seq::<Identity>::empty()) =~= Seq::<Seq<char>>::empty());
        self.employee_list = Some(all_but(&list, &employee));
        Ok(())
    }

    /// Replaces the salary in the record kept for `employee`. The registry
    /// stays as it is.
    pub fn update_salary(
        &mut self,
        auth: &Authorization,
        employee: Identity,
        new_salary: i128,
    ) -> (result: Result<(), CallError>)
        ensures
            match old(self)@.update_salary(auth@, employee@, new_salary) {
                Ok(next) => result is Ok && final(self)@ == next,
                Err(error) => result == Err::<(), CallError>(error) && final(self)@ == old(self)@,
            },
            old(self)@.consistent() ==> final(self)@.consistent(),
    {
        proof {
            if self@.consistent() {
                law_consistency_is_kept(
                    self@,
                    Call::UpdateSalary { proved: auth@, employee: employee@, salary: new_salary },
                );
            }
        }
        if let Err(refusal) = self.pass(auth) {
            return Err(refusal);
        }
        if new_salary <= 0 {
            return Err(CallError::Ledger(PayrollError::InvalidSalary));
        }
        if self.records.get(&employee).is_none() {
            return Err(CallError::Ledger(PayrollError::EmployeeNotFound));
        }
        self.records.insert(employee, new_salary);
        Ok(())
    }

    /// The record kept for `employee`. Every record of a ledger holds a
    /// positive salary.
    pub fn get_employee(&self, employee: Identity) -> (result: Result<EmployeeData, PayrollError>)
        ensures
            match self@.get_employee(employee@) {
                Ok(record) => result is Ok && result->Ok_0@ == record,
                Err(error) => result == Err::<EmployeeData, PayrollError>(error),
            },
            result matches Ok(record) ==> record.salary > 0,
    {
        match self.records.get(&employee) {
            Some(record) => Ok(record.clone()),
            None => Err(PayrollError::EmployeeNotFound),
        }
    }

    /// The registry, as it stands.
    pub fn get_all_employees(&self) -> (result: Result<Vec<Identity>, PayrollError>)
        ensures
            match self@.get_all_employees() {
                Ok(list) => result is Ok && names(result->Ok_0@) == list,
                Err(error) => result == Err::<Vec<Identity>, PayrollError>(error),
            },
    {
        match &self.employee_list {
            Some(list) => Ok(copy_of(list)),
            None => Err(PayrollError::NotInitialized),
        }
    }

    /// Plans one disbursement: a transfer of each listed employee's salary
    /// from the administrator to that employee, in the registry's order, and
    /// their total.
    ///
    /// Fails as a whole: where one listed employee has lost their record, or
    /// the total does not fit, no transfer is asked for. The ledger is not
    /// changed, so every call plans a fresh, full round. Every amount to
    /// transfer is positive.
    pub fn disperse(&self, auth: &Authorization) -> (result: Result<Disbursement, CallError>)
        ensures
            match self@.disperse(auth@) {
                Ok(plan) => result is Ok && result->Ok_0@ == plan,
                Err(error) => result == Err::<Disbursement, CallError>(error),
            },
            result matches Ok(plan) ==> forall|i: int|
                0 <= i < plan.transfers@.len() ==> (#[trigger] plan.transfers@[i]).amount > 0,
    {
        let admin = match self.pass(auth) {
            Ok(admin) => admin,
            Err(refusal) => {
                return Err(refusal);
            },
        };
        let token = match &self.token {
            Some(token) => token,
            None => {
                return Err(CallError::Ledger(PayrollError::NotInitialized));
            },
        };
        let list = match &self.employee_list {
            Some(list) => list,
            None => {
                return Err(CallError::Ledger(PayrollError::NotInitialized));
            },
        };
        if list.len() == 0 {
            return Err(CallError::Ledger(PayrollError::NoEmployees));
        }
        let ghost listed = self@.listed();
        let ghost salaries = self@.salaries;

        let mut transfers: Vec<Transfer> = Vec::new();
        let mut i: usize = 0;
        while i < list.len()
            invariant
                i <= list@.len(),
                self@.gate(auth@) is None,
                self@.token is Some,
                self@.registry is Some,
                self.admin == Some(*admin),
                listed == names(list@),
                listed == self@.listed(),
                listed.len() > 0,
                salaries == self@.salaries,
                salaries == self.records@,
                transfers@.len() == i,
                forall|k: int|
                    0 <= k < i ==> salaries.contains_key(#[trigger] listed[k]) && salaries[listed[k]]
                        > 0,
                forall|k: int| 0 <= k < i ==> (#[trigger] transfers@[k]).amount > 0,
                forall|k: int| 0 <= k < i ==> (#[trigger] transfers@[k])@ == self@.transfers()[k],
            decreases list@.len() - i,
        {
            let record = match self.records.get(&list[i]) {
                Some(record) => record,
                None => {
                    assert(!salaries.contains_key(listed[i as int]));
                    return Err(CallError::Ledger(PayrollError::EmployeeNotFound));
                },
            };
            transfers.push(
                Transfer { from: admin.clone(), to: record.address.clone(), amount: record.salary },
            );
            i += 1;
        }

        let mut total: i128 = 0;
        let mut i: usize = 0;
        while i < transfers.len()
            invariant
                i <= transfers@.len(),
                transfers@.len() == listed.len(),
                self@.gate(auth@) is None,
                self@.token is Some,
                self@.registry is Some,
                self@.registry_backed(),
                listed == self@.listed(),
                listed.len() > 0,
                salaries == self@.salaries,
                forall|k: int| 0 <= k < listed.len() ==> salaries[#[trigger] listed[k]] >= 0,
                forall|k: int|
                    0 <= k < listed.len() ==> (#[trigger] transfers@[k])@
                        == self@.transfers()[k] && transfers@[k].amount > 0,
                total == salary_sum(salaries, listed.take(i as int)),
            decreases transfers@.len() - i,
        {
            proof {
                lemma_sum_push(salaries, listed.take(i as int), listed[i as int]);
                assert(listed.take(i as int).push(listed[i as int]) =~= listed.take(i + 1));
                lemma_sum_grows(salaries, listed, i + 1);
            }
            total = match total.checked_add(transfers[i].amount) {
                Some(sum) => sum,
                None => {
                    return Err(CallError::Overflow);
                },
            };
            i += 1;
        }
        assert(listed.take(listed.len() as int) =~= listed);
        let plan = Disbursement { token: token.clone(), transfers, total };
        assert(plan@.transfers =~= self@.transfers());
        Ok(plan)
    }

    /// The administrator, whose consent the host has to verify before any
    /// call that changes the ledger or pays out.
    pub fn get_admin(&self) -> (result: Result<Identity, PayrollError>)
        ensures
            match self@.admin {
                Some(admin) => result is Ok && result->Ok_0@ == admin,
                None => result == Err::<Identity, PayrollError>(PayrollError::NotInitialized),
            },
    {
        match &self.admin {
            Some(admin) => Ok(admin.clone()),
            None => Err(PayrollError::NotInitialized),
        }
    }

    /// The reference to the value-transfer mechanism that disbursements use.
    pub fn get_token(&self) -> (result: Result<Identity, PayrollError>)
        ensures
            match self@.token {
                Some(token) => result is Ok && result->Ok_0@ == token,
                None => result == Err::<Identity, PayrollError>(PayrollError::NotInitialized),
            },
    {
        match &self.token {
            Some(token) => Ok(token.clone()),
            None => Err(PayrollError::NotInitialized),
        }
    }
}

} // verus!
