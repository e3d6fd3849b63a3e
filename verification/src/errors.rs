use vstd::prelude::*;

verus! {

/// The ways in which the ledger itself turns a call down.
#[derive(Copy, Clone, Debug, PartialEq, Eq, PartialOrd, Ord, Hash, Structural)]
pub enum PayrollError {
    /// The call needs an administrator, a token or a registry that was never set up.
    NotInitialized,
    /// The ledger already has an administrator.
    AlreadyInitialized,
    /// No record is kept for the employee (or a registry entry has lost its record).
    EmployeeNotFound,
    /// A record is already kept for the employee.
    EmployeeAlreadyExists,
    /// The salary offered is zero or negative.
    InvalidSalary,
    /// The registry is empty, so there is nobody to pay.
    NoEmployees,
}

impl PayrollError {
    /// The number under which each kind is reported to callers outside the ledger.
    pub open spec fn spec_code(self) -> u32 {
        match self {
            PayrollError::NotInitialized => 1,
            PayrollError::AlreadyInitialized => 2,
            PayrollError::EmployeeNotFound => 3,
            PayrollError::EmployeeAlreadyExists => 4,
            PayrollError::InvalidSalary => 5,
            PayrollError::NoEmployees => 6,
        }
    }

    #[verifier::when_used_as_spec(spec_code)]
    pub fn code(self) -> (code: u32)
        ensures
            code == self.spec_code(),
            1 <= code <= 6,
    {
        match self {
            PayrollError::NotInitialized => 1,
            PayrollError::AlreadyInitialized => 2,
            PayrollError::EmployeeNotFound => 3,
            PayrollError::EmployeeAlreadyExists => 4,
            PayrollError::InvalidSalary => 5,
            PayrollError::NoEmployees => 6,
        }
    }
}

/// Why a call that needs the administrator's consent did not go through.
///
/// A call is first held at the authorization gate and only then judged by the
/// ledger itself, so being refused there is kept apart from the ledger's
/// error kinds, as is an amount that no longer fits the amount type.
#[derive(Copy, Clone, Debug, PartialEq, Eq, Hash, Structural)]
pub enum CallError {
    /// The call came without proof that the administrator consented to it.
    Unauthorized,
    /// The salaries to pay add up to more than an amount can hold.
    Overflow,
    /// The ledger turned the call down.
    Ledger(PayrollError),
}

} // verus!
