//! A payroll ledger with proved contracts.
//!
//! One administrator keeps a record (address and salary) for each employee
//! and, when they choose, pays every employee their salary through some
//! value-transfer mechanism. [`PayrollContract`] holds the ledger's state and
//! decides every call: what is refused and why, what changes, and which
//! transfers a disbursement consists of. It does not move funds and does not
//! verify credentials itself; a host does both, tells the ledger whose consent
//! it has verified ([`Authorization`]), and carries out the transfers that a
//! disbursement asks for ([`Disbursement`]).
//!
//! The module [`model`] states what each call does to the ledger's state, and
//! [`laws`] proves what follows for every ledger and every run of calls.

pub mod contract;
pub mod disbursement;
pub mod employee;
pub mod errors;
pub mod identity;
pub mod laws;
pub mod model;
pub mod records;
pub mod registry;

pub use contract::PayrollContract;
pub use disbursement::{Disbursement, Transfer};
pub use employee::{DataKey, EmployeeData};
pub use errors::{CallError, PayrollError};
pub use identity::{Authorization, Identity};
