//! The ledger driven as a host would drive it: identities come from generated
//! addresses, and each disbursement is carried out on a Stellar asset contract.

use payroll::{Authorization, CallError, Disbursement, Identity, PayrollContract, PayrollError};
use soroban_sdk::testutils::{Address as _, EnvTestConfig};
use soroban_sdk::token::{StellarAssetClient, TokenClient};
use soroban_sdk::{Address, Env};

fn identity(address: &Address) -> Identity {
    Identity::new(&address.to_string().to_string())
}

fn address(env: &Env, identity: &Identity) -> Address {
    Address::from_str(env, identity.as_str())
}

/// Unwraps the result of a call as a contract client does: a failure panics
/// with the number of the contract error.
fn call<T>(result: Result<T, CallError>) -> T {
    match result {
        Ok(value) => value,
        Err(CallError::Ledger(error)) => panic!("HostError: Error(Contract, #{})", error.code()),
        Err(other) => panic!("HostError: {:?}", other),
    }
}

fn call_setup<T>(result: Result<T, PayrollError>) -> T {
    match result {
        Ok(value) => value,
        Err(error) => panic!("HostError: Error(Contract, #{})", error.code()),
    }
}

/// Makes the transfers of a disbursement on the token it names.
fn pay(env: &Env, plan: &Disbursement) {
    let token = TokenClient::new(env, &address(env, &plan.token));
    for transfer in plan.transfers.iter() {
        token.transfer(
            &address(env, &transfer.from),
            &address(env, &transfer.to),
            &transfer.amount,
        );
    }
}

/// A test host, an administrator who holds 10,000,000 of a fresh token, and
/// a ledger set up with both.
fn setup() -> (Env, Address, Address, PayrollContract, Authorization) {
    let env = Env::new_with_config(EnvTestConfig { capture_snapshot_at_drop: false });
    env.mock_all_auths();

    let admin = Address::generate(&env);
    let token_admin = Address::generate(&env);

    let token_addr = env.register_stellar_asset_contract_v2(token_admin.clone());
    let sac = StellarAssetClient::new(&env, &token_addr.address());
    sac.mint(&admin, &10_000_000);

    let mut ledger = PayrollContract::new();
    call_setup(ledger.initialize(identity(&admin), identity(&token_addr.address())));
    let auth = Authorization::signed_by(identity(&admin));

    (env, admin, token_addr.address(), ledger, auth)
}

#[test]
fn test_initialize() {
    let (_env, _admin, _token_addr, ledger, _auth) = setup();

    let employees = call_setup(ledger.get_all_employees());
    assert_eq!(employees.len(), 0);
}

#[test]
fn test_add_and_get_employee() {
    let (env, _admin, _, mut ledger, auth) = setup();

    let emp1 = identity(&Address::generate(&env));
    let salary: i128 = 5_000;

    call(ledger.add_employee(&auth, emp1.clone(), salary));

    let data = call_setup(ledger.get_employee(emp1.clone()));
    assert_eq!(data.address, emp1);
    assert_eq!(data.salary, 5_000);

    let all = call_setup(ledger.get_all_employees());
    assert_eq!(all.len(), 1);
}

#[test]
fn test_add_multiple_employees() {
    let (env, _, _, mut ledger, auth) = setup();

    let emp1 = identity(&Address::generate(&env));
    let emp2 = identity(&Address::generate(&env));
    let emp3 = identity(&Address::generate(&env));

    call(ledger.add_employee(&auth, emp1, 1_000));
    call(ledger.add_employee(&auth, emp2, 2_000));
    call(ledger.add_employee(&auth, emp3, 3_000));

    let all = call_setup(ledger.get_all_employees());
    assert_eq!(all.len(), 3);
}

#[test]
fn test_remove_employee() {
    let (env, _, _, mut ledger, auth) = setup();

    let emp1 = identity(&Address::generate(&env));
    let emp2 = identity(&Address::generate(&env));

    call(ledger.add_employee(&auth, emp1.clone(), 1_000));
    call(ledger.add_employee(&auth, emp2.clone(), 2_000));

    call(ledger.remove_employee(&auth, emp1.clone()));

    let all = call_setup(ledger.get_all_employees());
    assert_eq!(all.len(), 1);

    let result = ledger.get_employee(emp1);
    assert!(result.is_err());
}

#[test]
fn test_update_salary() {
    let (env, _, _, mut ledger, auth) = setup();

    let emp1 = identity(&Address::generate(&env));
    call(ledger.add_employee(&auth, emp1.clone(), 1_000));

    call(ledger.update_salary(&auth, emp1.clone(), 2_500));

    let data = call_setup(ledger.get_employee(emp1));
    assert_eq!(data.salary, 2_500);
}

#[test]
fn test_disperse() {
    let (env, admin, token_addr, mut ledger, auth) = setup();

    let emp1 = Address::generate(&env);
    let emp2 = Address::generate(&env);
    let emp3 = Address::generate(&env);

    call(ledger.add_employee(&auth, identity(&emp1), 1_000));
    call(ledger.add_employee(&auth, identity(&emp2), 2_000));
    call(ledger.add_employee(&auth, identity(&emp3), 3_000));

    let plan = call(ledger.disperse(&auth));
    pay(&env, &plan);
    let total = plan.total;
    assert_eq!(total, 6_000);

    let token = TokenClient::new(&env, &token_addr);
    assert_eq!(token.balance(&emp1), 1_000);
    assert_eq!(token.balance(&emp2), 2_000);
    assert_eq!(token.balance(&emp3), 3_000);

    assert_eq!(token.balance(&admin), 10_000_000 - 6_000);
}

#[test]
fn test_disperse_multiple_rounds() {
    let (env, _admin, token_addr, mut ledger, auth) = setup();

    let emp1 = Address::generate(&env);
    call(ledger.add_employee(&auth, identity(&emp1), 500));

    let first = call(ledger.disperse(&auth));
    pay(&env, &first);
    let total1 = first.total;
    assert_eq!(total1, 500);

    let second = call(ledger.disperse(&auth));
    pay(&env, &second);
    let total2 = second.total;
    assert_eq!(total2, 500);

    let token = TokenClient::new(&env, &token_addr);
    assert_eq!(token.balance(&emp1), 1_000);
}

#[test]
#[should_panic(expected = "Error(Contract, #2)")]
fn test_double_initialize() {
    let (_env, admin, token_addr, mut ledger, _auth) = setup();

    call_setup(ledger.initialize(identity(&admin), identity(&token_addr)));
}

#[test]
#[should_panic(expected = "Error(Contract, #4)")]
fn test_add_duplicate_employee() {
    let (env, _, _, mut ledger, auth) = setup();

    let emp1 = identity(&Address::generate(&env));
    call(ledger.add_employee(&auth, emp1.clone(), 1_000));
    call(ledger.add_employee(&auth, emp1, 2_000));
}

#[test]
#[should_panic(expected = "Error(Contract, #5)")]
fn test_add_employee_zero_salary() {
    let (env, _, _, mut ledger, auth) = setup();

    let emp1 = identity(&Address::generate(&env));
    call(ledger.add_employee(&auth, emp1, 0));
}

#[test]
#[should_panic(expected = "Error(Contract, #6)")]
fn test_disperse_no_employees() {
    let (_, _, _, ledger, auth) = setup();

    call(ledger.disperse(&auth));
}

#[test]
fn identities_of_generated_addresses_round_trip() {
    let (env, admin, token_addr, ledger, _auth) = setup();

    let stored = call_setup(ledger.get_admin());
    assert_eq!(address(&env, &stored), admin);
    assert_ne!(identity(&admin), identity(&token_addr));
}

#[test]
fn a_disbursement_names_the_token_and_pays_from_the_administrator() {
    let (env, admin, token_addr, mut ledger, auth) = setup();
    let emp1 = Address::generate(&env);
    call(ledger.add_employee(&auth, identity(&emp1), 750));

    let plan = call(ledger.disperse(&auth));
    assert_eq!(address(&env, &plan.token), token_addr);
    assert_eq!(plan.transfers.len(), 1);
    assert_eq!(address(&env, &plan.transfers[0].from), admin);
    assert_eq!(address(&env, &plan.transfers[0].to), emp1);
    assert_eq!(plan.transfers[0].amount, 750);
}
