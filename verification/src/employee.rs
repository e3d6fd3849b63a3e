use crate::identity::Identity;
use vstd::prelude::*;

verus! {

/// The record kept for one employee: where the salary goes, and how much is
/// paid per disbursement.
#[derive(Debug, PartialEq, Eq)]
pub struct EmployeeData {
    pub address: Identity,
    pub salary: i128,
}

/// What an [`EmployeeData`] stands for: who is paid, and how much per
/// disbursement.
pub struct EmployeeDataView {
    pub address: Seq<char>,
    pub salary: i128,
}

impl View for EmployeeData {
    type V = EmployeeDataView;

    open spec fn view(&self) -> EmployeeDataView {
        EmployeeDataView { address: self.address@, salary: self.salary }
    }
}

impl Clone for EmployeeData {
    fn clone(&self) -> (copy: EmployeeData)
        ensures
            copy == *self,
    {
        EmployeeData { address: self.address.clone(), salary: self.salary }
    }
}

/// The keys under which the ledger's state is kept in a persistent store.
#[derive(Debug, PartialEq, Eq)]
pub enum DataKey {
    /// The administrator.
    Admin,
    /// The reference to the value-transfer mechanism.
    Token,
    /// The record of the employee named.
    Employee(Identity),
    /// The registry of employees.
    EmployeeList,
}

impl Clone for DataKey {
    fn clone(&self) -> (copy: DataKey)
        ensures
            copy == *self,
    {
        match self {
            DataKey::Admin => DataKey::Admin,
            DataKey::Token => DataKey::Token,
            DataKey::Employee(who) => DataKey::Employee(who.clone()),
            DataKey::EmployeeList => DataKey::EmployeeList,
        }
    }
}

} // verus!
