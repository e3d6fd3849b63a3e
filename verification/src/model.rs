use crate::disbursement::{salary_sum, DisbursementView, TransferView};
use crate::employee::EmployeeDataView;
use crate::errors::{CallError, PayrollError};
use crate::registry::without;
use vstd::prelude::*;

verus! {

/// The persistent state of a payroll ledger.
///
/// Each field is one kind of entry of the store: the administrator, the
/// reference to the value-transfer mechanism, the salary kept for each employee
/// that has a record, and the registry that lists the employees in the order in
/// which they are paid. An entry that was never written is absent.
pub struct LedgerState {
    pub admin: Option<Seq<char>>,
    pub token: Option<Seq<char>>,
    pub salaries: Map<Seq<char>, i128>,
    pub registry: Option<Seq<Seq<char>>>,
}

/// One call of those that write to a ledger or pay out, with its arguments.
/// `proved` is the identity whose consent the host has verified for the call,
/// if any.
pub enum Call {
    Initialize { admin: Seq<char>, token: Seq<char> },
    AddEmployee { proved: Option<Seq<char>>, employee: Seq<char>, salary: i128 },
    RemoveEmployee { proved: Option<Seq<char>>, employee: Seq<char> },
    UpdateSalary { proved: Option<Seq<char>>, employee: Seq<char>, salary: i128 },
    Disperse { proved: Option<Seq<char>> },
}

impl LedgerState {
    /// The state of a ledger that nobody has set up yet.
    pub open spec fn uninitialized() -> LedgerState {
        LedgerState { admin: None, token: None, salaries: Map::empty(), registry: None }
    }

    /// The employees that the registry lists; none where there is no registry.
    pub open spec fn listed(self) -> Seq<Seq<char>> {
        match self.registry {
            Some(list) => list,
            None => Seq::empty(),
        }
    }

    /// The data model's invariant: the ledger is set up as a whole or not at
    /// all, the registry lists each employee that has a record exactly once and
    /// nobody else, and every salary is positive.
    pub open spec fn consistent(self) -> bool {
        &&& self.admin is Some <==> self.token is Some
        &&& self.admin is Some <==> self.registry is Some
        &&& self.listed().no_duplicates()
        &&& forall|who: Seq<char>| self.listed().contains(who) <==> self.salaries.contains_key(who)
        &&& forall|who: Seq<char>| self.salaries.contains_key(who) ==> self.salaries[who] > 0
    }

    /// The authorization gate that every call of the administrator passes
    /// first: `None` where the call may go on, else the reason why not.
    /// `proved` is the identity whose consent the host has verified.
    pub open spec fn gate(self, proved: Option<Seq<char>>) -> Option<CallError> {
        match self.admin {
            None => Some(CallError::Ledger(PayrollError::NotInitialized)),
            Some(admin) => if proved == Some(admin) {
                None
            } else {
                Some(CallError::Unauthorized)
            },
        }
    }

    /// Setting the ledger up: refused where it has an administrator; else the
    /// administrator and token are set and the registry starts empty.
    pub open spec fn initialize(self, admin: Seq<char>, token: Seq<char>) -> Result<
        LedgerState,
        PayrollError,
    > {
        if self.admin is Some {
            Err(PayrollError::AlreadyInitialized)
        } else {
            Ok(
                LedgerState {
                    admin: Some(admin),
                    token: Some(token),
                    registry: Some(Seq::empty()),
                    ..self
                },
            )
        }
    }

    /// Adding an employee: once authorized, the salary has to be positive and
    /// the employee new; then the record is kept and the employee appended
    /// to the registry.
    pub open spec fn add_employee(
        self,
        proved: Option<Seq<char>>,
        employee: Seq<char>,
        salary: i128,
    ) -> Result<LedgerState, CallError> {
        if let Some(refusal) = self.gate(proved) {
            Err(refusal)
        } else if salary <= 0 {
            Err(CallError::Ledger(PayrollError::InvalidSalary))
        } else if self.salaries.contains_key(employee) {
            Err(CallError::Ledger(PayrollError::EmployeeAlreadyExists))
        } else {
            Ok(
                LedgerState {
                    salaries: self.salaries.insert(employee, salary),
                    registry: Some(self.listed().push(employee)),
                    ..self
                },
            )
        }
    }

    /// Removing an employee: once authorized, the employee has to have a
    /// record; then the record goes, and the employee leaves the registry.
    pub open spec fn remove_employee(self, proved: Option<Seq<char>>, employee: Seq<char>) -> Result<
        LedgerState,
        CallError,
    > {
        if let Some(refusal) = self.gate(proved) {
            Err(refusal)
        } else if !self.salaries.contains_key(employee) {
            Err(CallError::Ledger(PayrollError::EmployeeNotFound))
        } else {
            Ok(
                LedgerState {
                    salaries: self.salaries.remove(employee),
                    registry: Some(without(self.listed(), employee)),
                    ..self
                },
            )
        }
    }

    /// Updating a salary: once authorized, the salary has to be positive and
    /// the employee has to have a record; then the record holds the new
    /// salary, and the registry is untouched.
    pub open spec fn update_salary(
        self,
        proved: Option<Seq<char>>,
        employee: Seq<char>,
        salary: i128,
    ) -> Result<LedgerState, CallError> {
        if let Some(refusal) = self.gate(proved) {
            Err(refusal)
        } else if salary <= 0 {
            Err(CallError::Ledger(PayrollError::InvalidSalary))
        } else if !self.salaries.contains_key(employee) {
            Err(CallError::Ledger(PayrollError::EmployeeNotFound))
        } else {
            Ok(LedgerState { salaries: self.salaries.insert(employee, salary), ..self })
        }
    }

    /// The record of an employee, where there is one.
    pub open spec fn get_employee(self, employee: Seq<char>) -> Result<
        EmployeeDataView,
        PayrollError,
    > {
        if self.salaries.contains_key(employee) {
            Ok(EmployeeDataView { address: employee, salary: self.salaries[employee] })
        } else {
            Err(PayrollError::EmployeeNotFound)
        }
    }

    /// The registry as it stands, where there is one.
    pub open spec fn get_all_employees(self) -> Result<Seq<Seq<char>>, PayrollError> {
        match self.registry {
            Some(list) => Ok(list),
            None => Err(PayrollError::NotInitialized),
        }
    }

    /// Whether every employee that the registry lists has a record.
    pub open spec fn registry_backed(self) -> bool {
        forall|i: int|
            0 <= i < self.listed().len() ==> self.salaries.contains_key(#[trigger] self.listed()[i])
    }

    /// The transfers of one disbursement: from the administrator to each
    /// listed employee, in the registry's order, the salary kept for them.
    pub open spec fn transfers(self) -> Seq<TransferView> {
        Seq::new(
            self.listed().len(),
            |i: int|
                TransferView {
                    from: self.admin->0,
                    to: self.listed()[i],
                    amount: self.salaries[self.listed()[i]],
                },
        )
    }

    /// One disbursement: once authorized, it takes a token, a registry that is
    /// not empty, a record behind each of its entries, and a total that fits;
    /// then it asks for one transfer per entry.
    pub open spec fn disperse(self, proved: Option<Seq<char>>) -> Result<
        DisbursementView,
        CallError,
    > {
        if let Some(refusal) = self.gate(proved) {
            Err(refusal)
        } else if self.token is None || self.registry is None {
            Err(CallError::Ledger(PayrollError::NotInitialized))
        } else if self.listed().len() == 0 {
            Err(CallError::Ledger(PayrollError::NoEmployees))
        } else if !self.registry_backed() {
            Err(CallError::Ledger(PayrollError::EmployeeNotFound))
        } else if !(i128::MIN <= salary_sum(self.salaries, self.listed()) <= i128::MAX) {
            Err(CallError::Overflow)
        } else {
            Ok(
                DisbursementView {
                    token: self.token->0,
                    transfers: self.transfers(),
                    total: salary_sum(self.salaries, self.listed()) as i128,
                },
            )
        }
    }

    /// The state in which a call leaves the ledger: the new state where the
    /// call succeeds, the old one where it fails. A disbursement changes
    /// nothing either way.
    pub open spec fn after(self, call: Call) -> LedgerState {
        match call {
            Call::Initialize { admin, token } => match self.initialize(admin, token) {
                Ok(next) => next,
                Err(_) => self,
            },
            Call::AddEmployee { proved, employee, salary } => match self.add_employee(
                proved,
                employee,
                salary,
            ) {
                Ok(next) => next,
                Err(_) => self,
            },
            Call::RemoveEmployee { proved, employee } => match self.remove_employee(
                proved,
                employee,
            ) {
                Ok(next) => next,
                Err(_) => self,
            },
            Call::UpdateSalary { proved, employee, salary } => match self.update_salary(
                proved,
                employee,
                salary,
            ) {
                Ok(next) => next,
                Err(_) => self,
            },
            Call::Disperse { proved } => self,
        }
    }

    /// The state after a run of calls, made one after the other.
    pub open spec fn after_all(self, calls: Seq<Call>) -> LedgerState
        decreases calls.len(),
    {
        if calls.len() == 0 {
            self
        } else {
            self.after_all(calls.drop_last()).after(calls.last())
        }
    }
}

} // verus!
