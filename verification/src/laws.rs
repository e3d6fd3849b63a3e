use crate::disbursement::{salary_sum, DisbursementView};
use crate::employee::EmployeeDataView;
use crate::errors::{CallError, PayrollError};
use crate::model::{Call, LedgerState};
use crate::registry::{lemma_push_fresh, lemma_without, listed_once, without};
use vstd::prelude::*;

verus! {

/// A ledger that nobody has set up satisfies the data model's invariant.
pub proof fn law_new_ledger_is_consistent()
    ensures
        LedgerState::uninitialized().consistent(),
{
    let s = LedgerState::uninitialized();
    assert forall|who: Seq<char>| !s.listed().contains(who) by {}
}

/// No call breaks the data model's invariant: whatever the arguments, and
/// whether the call succeeds or fails, a consistent ledger stays consistent.
pub proof fn law_consistency_is_kept(s: LedgerState, call: Call)
    requires
        s.consistent(),
    ensures
        s.after(call).consistent(),
{
    let next = s.after(call);
    let list = s.listed();
    match call {
        Call::AddEmployee { proved, employee, salary } => {
            if s.add_employee(proved, employee, salary) is Ok {
                lemma_push_fresh(list, employee);
                assert forall|who: Seq<char>|
                    next.listed().contains(who) <==> next.salaries.contains_key(who) by {
                    assert(list.push(employee).contains(who) <==> list.contains(who) || who
                        == employee);
                }
            }
        },
        Call::RemoveEmployee { proved, employee } => {
            if s.remove_employee(proved, employee) is Ok {
                lemma_without(list, employee);
                assert forall|who: Seq<char>|
                    next.listed().contains(who) <==> next.salaries.contains_key(who) by {
                    assert(without(list, employee).contains(who) <==> list.contains(who) && who
                        != employee);
                }
            }
        },
        _ => {},
    }
}

/// Every ledger that is reached from a new one by calls, in any number and
/// with any arguments, satisfies the data model's invariant.
pub proof fn law_reachable_ledgers_are_consistent(calls: Seq<Call>)
    ensures
        LedgerState::uninitialized().after_all(calls).consistent(),
    decreases calls.len(),
{
    if calls.len() == 0 {
        law_new_ledger_is_consistent();
    } else {
        law_reachable_ledgers_are_consistent(calls.drop_last());
        law_consistency_is_kept(
            LedgerState::uninitialized().after_all(calls.drop_last()),
            calls.last(),
        );
    }
}

/// Once set, the administrator and the token reference never change,
/// whatever calls follow.
pub proof fn law_setup_is_permanent(s: LedgerState, calls: Seq<Call>)
    requires
        s.admin is Some,
    ensures
        s.after_all(calls).admin == s.admin,
        s.after_all(calls).token == s.token,
    decreases calls.len(),
{
    if calls.len() > 0 {
        law_setup_is_permanent(s, calls.drop_last());
    }
}

/// Initialization succeeds exactly once. On a ledger without administrator
/// it succeeds for any administrator and token; after that, and after any
/// calls that follow, a further initialization is refused as already done,
/// and the administrator and token of the first one still stand.
pub proof fn law_initialize_once(
    s: LedgerState,
    admin: Seq<char>,
    token: Seq<char>,
    calls: Seq<Call>,
    other_admin: Seq<char>,
    other_token: Seq<char>,
)
    requires
        s.admin is None,
    ensures
        s.initialize(admin, token) is Ok,
        ({
            let later = s.initialize(admin, token)->Ok_0.after_all(calls);
            &&& later.admin == Some(admin)
            &&& later.token == Some(token)
            &&& later.initialize(other_admin, other_token) == Err::<LedgerState, PayrollError>(
                PayrollError::AlreadyInitialized,
            )
            &&& later.after(Call::Initialize { admin: other_admin, token: other_token }) == later
        }),
{
    law_setup_is_permanent(s.initialize(admin, token)->Ok_0, calls);
}

/// A salary that is not positive is refused as invalid, both when an employee
/// is added and when a salary is updated, for every employee, and the ledger
/// stays as it was. (The call has to pass the authorization gate to get that
/// far.)
pub proof fn law_nonpositive_salary_is_refused(
    s: LedgerState,
    proved: Option<Seq<char>>,
    employee: Seq<char>,
    salary: i128,
)
    requires
        s.gate(proved) is None,
        salary <= 0,
    ensures
        s.add_employee(proved, employee, salary) == Err::<LedgerState, CallError>(
            CallError::Ledger(PayrollError::InvalidSalary),
        ),
        s.update_salary(proved, employee, salary) == Err::<LedgerState, CallError>(
            CallError::Ledger(PayrollError::InvalidSalary),
        ),
        s.after(Call::AddEmployee { proved, employee, salary }) == s,
        s.after(Call::UpdateSalary { proved, employee, salary }) == s,
{
}

/// After an employee was added, their record holds the address and salary
/// given, and the registry lists them exactly once, at its end.
pub proof fn law_added_employee_is_recorded_and_listed_once(
    s: LedgerState,
    proved: Option<Seq<char>>,
    employee: Seq<char>,
    salary: i128,
)
    requires
        s.consistent(),
        s.add_employee(proved, employee, salary) is Ok,
    ensures
        ({
            let next = s.add_employee(proved, employee, salary)->Ok_0;
            &&& next.get_employee(employee) == Ok::<EmployeeDataView, PayrollError>(
                EmployeeDataView { address: employee, salary },
            )
            &&& next.get_all_employees() is Ok
            &&& listed_once(next.get_all_employees()->Ok_0, employee)
            &&& next.get_all_employees()->Ok_0 == s.listed().push(employee)
        }),
{
    lemma_push_fresh(s.listed(), employee);
}

/// Adding an employee a second time is refused because the employee exists,
/// whatever positive salary is offered, and the refused call leaves the
/// registry, and all else, as the first call left it.
pub proof fn law_second_add_is_refused(
    s: LedgerState,
    proved: Option<Seq<char>>,
    employee: Seq<char>,
    salary: i128,
    again_salary: i128,
)
    requires
        s.add_employee(proved, employee, salary) is Ok,
        again_salary > 0,
    ensures
        ({
            let next = s.add_employee(proved, employee, salary)->Ok_0;
            &&& next.add_employee(proved, employee, again_salary) == Err::<
                LedgerState,
                CallError,
            >(CallError::Ledger(PayrollError::EmployeeAlreadyExists))
            &&& next.after(Call::AddEmployee { proved, employee, salary: again_salary }) == next
            &&& next.after(
                Call::AddEmployee { proved, employee, salary: again_salary },
            ).listed().len() == next.listed().len()
        }),
{
}

/// After an employee was removed, no record is found for them, the registry
/// does not hold them, and it is shorter by exactly one.
pub proof fn law_removed_employee_is_gone(
    s: LedgerState,
    proved: Option<Seq<char>>,
    employee: Seq<char>,
)
    requires
        s.consistent(),
        s.remove_employee(proved, employee) is Ok,
    ensures
        ({
            let next = s.remove_employee(proved, employee)->Ok_0;
            &&& next.get_employee(employee) == Err::<EmployeeDataView, PayrollError>(
                PayrollError::EmployeeNotFound,
            )
            &&& next.get_all_employees() is Ok
            &&& !next.get_all_employees()->Ok_0.contains(employee)
            &&& next.get_all_employees()->Ok_0.len() == s.listed().len() - 1
        }),
{
    lemma_without(s.listed(), employee);
}

/// With an empty registry a disbursement is refused because there are no
/// employees. Transfers are asked for only where a disbursement succeeds,
/// and then one for each place in the registry, so none is made here.
pub proof fn law_empty_registry_pays_nobody(s: LedgerState, proved: Option<Seq<char>>)
    requires
        s.gate(proved) is None,
        s.token is Some,
        s.registry == Some(Seq::<Seq<char>>::empty()),
    ensures
        s.disperse(proved) == Err::<DisbursementView, CallError>(
            CallError::Ledger(PayrollError::NoEmployees),
        ),
        forall|t: LedgerState, consent: Option<Seq<char>>| #[trigger]
            t.disperse(consent) is Ok ==> t.disperse(consent)->Ok_0.transfers.len()
                == t.listed().len() && t.listed().len() > 0,
{
}

/// A disbursement can be repeated: it leaves the ledger as it was, so the
/// next one, with nothing done in between, asks for the same transfers again.
/// Nobody is skipped for having been paid before.
pub proof fn law_disbursement_is_repeatable(s: LedgerState, proved: Option<Seq<char>>)
    ensures
        s.after(Call::Disperse { proved }) == s,
        s.after(Call::Disperse { proved }).disperse(proved) == s.disperse(proved),
{
}

/// A disbursement of a consistent ledger is a full payroll run: every
/// employee that has a record is paid exactly once, their salary, by the
/// administrator, and the total is the sum over the registry.
pub proof fn law_disbursement_pays_everyone_once(
    s: LedgerState,
    proved: Option<Seq<char>>,
    employee: Seq<char>,
)
    requires
        s.consistent(),
        s.disperse(proved) is Ok,
        s.salaries.contains_key(employee),
    ensures
        ({
            let plan = s.disperse(proved)->Ok_0;
            &&& plan.total == salary_sum(s.salaries, s.listed())
            &&& plan.transfers.len() == s.listed().len()
            &&& exists|i: int|
                {
                    &&& 0 <= i < plan.transfers.len()
                    &&& (#[trigger] plan.transfers[i]).to == employee
                    &&& plan.transfers[i].amount == s.salaries[employee]
                    &&& Some(plan.transfers[i].from) == s.admin
                    &&& forall|j: int|
                        0 <= j < plan.transfers.len() && (#[trigger] plan.transfers[j]).to
                            == employee ==> j == i
                }
        }),
{
    let plan = s.disperse(proved)->Ok_0;
    let list = s.listed();
    assert(list.contains(employee) <==> s.salaries.contains_key(employee));
    let i = choose|i: int| 0 <= i < list.len() && list[i] == employee;
    assert(plan.transfers[i].to == employee);
}

/// The authorization check comes first. Where the ledger has an
/// administrator and the call does not carry proof of their consent, each of
/// the calls that need it is refused as unauthorized, whatever else is wrong
/// with its arguments, and the ledger stays as it was.
pub proof fn law_unauthorized_calls_change_nothing(
    s: LedgerState,
    proved: Option<Seq<char>>,
    employee: Seq<char>,
    salary: i128,
)
    requires
        s.admin is Some,
        proved != s.admin,
    ensures
        s.add_employee(proved, employee, salary) == Err::<LedgerState, CallError>(
            CallError::Unauthorized,
        ),
        s.remove_employee(proved, employee) == Err::<LedgerState, CallError>(
            CallError::Unauthorized,
        ),
        s.update_salary(proved, employee, salary) == Err::<LedgerState, CallError>(
            CallError::Unauthorized,
        ),
        s.disperse(proved) == Err::<DisbursementView, CallError>(CallError::Unauthorized),
        s.after(Call::AddEmployee { proved, employee, salary }) == s,
        s.after(Call::RemoveEmployee { proved, employee }) == s,
        s.after(Call::UpdateSalary { proved, employee, salary }) == s,
        s.after(Call::Disperse { proved }) == s,
{
}

} // verus!
