use credence_bond::{BondError, CredenceBond, IdentityBond};
use soroban_sdk::testutils::{Address as _, EnvTestConfig};
use soroban_sdk::{Address, Env};

fn env() -> Env {
    Env::new_with_config(EnvTestConfig { capture_snapshot_at_drop: false })
}

/// The state the contract is in after initialization by an administrator and
/// the creation of a rolling bond of 1000 for 1000 with a notice of 100, at
/// ledger time 0.
fn setup(e: &Env) -> (CredenceBond, Address, Address) {
    let owner = Address::generate(e);
    let admin = Address::generate(e);
    let mut contract = CredenceBond::new();
    contract.initialize(admin.clone());
    contract.create_bond(owner.clone(), 1_000, 1_000, true, 100, 0);
    (contract, owner, admin)
}

fn bond(contract: &CredenceBond) -> &IdentityBond {
    contract.get_identity_state().unwrap()
}

#[test]
fn owner_with_mock_auth_can_mutate() {
    let e = env();
    let (mut contract, _owner, _admin) = setup(&e);
    assert_eq!(contract.top_up(25), Ok(()));
    assert_eq!(bond(&contract).bonded_amount, 1_025);
}

#[test]
fn withdraw_success() {
    let e = env();
    let (mut contract, _owner, _admin) = setup(&e);
    assert_eq!(contract.withdraw(100), Ok(()));
    assert_eq!(bond(&contract).bonded_amount, 900);
}

#[test]
fn extend_duration_success() {
    let e = env();
    let (mut contract, _owner, _admin) = setup(&e);
    assert_eq!(contract.extend_duration(10), Ok(()));
    assert_eq!(bond(&contract).bond_duration, 1_010);
}

#[test]
fn request_withdrawal_success() {
    let e = env();
    let (mut contract, _owner, _admin) = setup(&e);
    let now = 0_u64;
    assert_eq!(contract.request_withdrawal(now), Ok(()));
    assert_eq!(bond(&contract).withdrawal_requested_at, now);
}

#[test]
fn renew_if_rolling_expired_renews() {
    let e = env();
    let (mut contract, _owner, _admin) = setup(&e);
    let now = 0_u64;
    if let Some(b) = contract.bond.as_mut() {
        b.bond_start = now.saturating_sub(b.bond_duration + 10);
    }
    assert!(contract.renew_if_rolling(now).is_ok());
    let updated = bond(&contract);
    assert!(updated.bond_start >= now);
    assert_eq!(updated.withdrawal_requested_at, 0);
}

#[test]
fn create_bond_stores_every_field() {
    let e = env();
    let owner = Address::generate(&e);
    let mut contract = CredenceBond::new();
    contract.create_bond(owner.clone(), 123, 77, false, 0, 42);
    let b = bond(&contract);
    assert_eq!(b.identity, owner);
    assert_eq!(b.bonded_amount, 123);
    assert_eq!(b.bond_start, 42);
    assert_eq!(b.bond_duration, 77);
    assert!(!b.is_rolling);
    assert_eq!(b.withdrawal_requested_at, 0);
    assert_eq!(b.notice_period_duration, 0);
}

#[test]
fn create_bond_replaces_the_previous_bond() {
    let e = env();
    let (mut contract, _owner, admin) = setup(&e);
    let other = Address::generate(&e);
    contract.create_bond(other.clone(), 5, 6, false, 7, 8);
    assert_eq!(bond(&contract).identity, other);
    assert_eq!(bond(&contract).bonded_amount, 5);
    assert_eq!(contract.admin, Some(admin));
}

#[test]
fn initialize_keeps_the_bond() {
    let e = env();
    let (mut contract, owner, _admin) = setup(&e);
    let new_admin = Address::generate(&e);
    contract.initialize(new_admin.clone());
    assert_eq!(contract.admin, Some(new_admin));
    assert_eq!(bond(&contract).identity, owner);
    assert_eq!(bond(&contract).bonded_amount, 1_000);
}

#[test]
fn calls_without_a_bond_are_refused() {
    let mut contract = CredenceBond::new();
    assert!(contract.get_identity_state().is_err());
    assert_eq!(contract.get_identity_state().err(), Some(BondError::NoBond));
    assert_eq!(contract.withdraw(1), Err(BondError::NoBond));
    assert_eq!(contract.top_up(1), Err(BondError::NoBond));
    assert_eq!(contract.extend_duration(1), Err(BondError::NoBond));
    assert_eq!(contract.request_withdrawal(1), Err(BondError::NoBond));
    assert_eq!(contract.renew_if_rolling(1), Err(BondError::NoBond));
    assert!(contract.bond.is_none());
    assert!(contract.admin.is_none());
}

#[test]
fn withdraw_more_than_bonded_is_refused() {
    let e = env();
    let (mut contract, _owner, _admin) = setup(&e);
    assert_eq!(contract.withdraw(1_001), Err(BondError::InsufficientBalance));
    assert_eq!(bond(&contract).bonded_amount, 1_000);
    assert_eq!(contract.withdraw(1_000), Ok(()));
    assert_eq!(bond(&contract).bonded_amount, 0);
}

#[test]
fn negative_withdrawal_that_overflows_is_refused() {
    let e = env();
    let owner = Address::generate(&e);
    let mut contract = CredenceBond::new();
    contract.create_bond(owner, i128::MAX, 1, false, 0, 0);
    assert_eq!(contract.withdraw(-1), Err(BondError::WithdrawalUnderflow));
    assert_eq!(bond(&contract).bonded_amount, i128::MAX);
}

#[test]
fn negative_withdrawal_adds_to_the_bond() {
    let e = env();
    let (mut contract, _owner, _admin) = setup(&e);
    assert_eq!(contract.withdraw(-5), Ok(()));
    assert_eq!(bond(&contract).bonded_amount, 1_005);
}

#[test]
fn top_up_overflow_is_refused() {
    let e = env();
    let (mut contract, _owner, _admin) = setup(&e);
    assert_eq!(contract.top_up(i128::MAX), Err(BondError::TopUpOverflow));
    assert_eq!(bond(&contract).bonded_amount, 1_000);
    assert_eq!(contract.top_up(i128::MAX - 1_000), Ok(()));
    assert_eq!(bond(&contract).bonded_amount, i128::MAX);
}

#[test]
fn negative_top_up_underflow_is_refused() {
    let e = env();
    let owner = Address::generate(&e);
    let mut contract = CredenceBond::new();
    contract.create_bond(owner, -1, 1, false, 0, 0);
    assert_eq!(contract.top_up(i128::MIN), Err(BondError::TopUpOverflow));
    assert_eq!(bond(&contract).bonded_amount, -1);
}

#[test]
fn extend_duration_overflow_is_refused() {
    let e = env();
    let (mut contract, _owner, _admin) = setup(&e);
    assert_eq!(contract.extend_duration(u64::MAX), Err(BondError::DurationOverflow));
    assert_eq!(bond(&contract).bond_duration, 1_000);
    assert_eq!(contract.extend_duration(u64::MAX - 1_000), Ok(()));
    assert_eq!(bond(&contract).bond_duration, u64::MAX);
}

#[test]
fn request_withdrawal_on_fixed_bond_is_refused() {
    let e = env();
    let owner = Address::generate(&e);
    let mut contract = CredenceBond::new();
    contract.create_bond(owner, 10, 10, false, 0, 0);
    assert_eq!(contract.request_withdrawal(5), Err(BondError::NotRolling));
    assert_eq!(bond(&contract).withdrawal_requested_at, 0);
}

#[test]
fn second_withdrawal_request_is_refused() {
    let e = env();
    let (mut contract, _owner, _admin) = setup(&e);
    assert_eq!(contract.request_withdrawal(500), Ok(()));
    assert_eq!(contract.request_withdrawal(600), Err(BondError::WithdrawalAlreadyRequested));
    assert_eq!(bond(&contract).withdrawal_requested_at, 500);
}

#[test]
fn withdrawal_request_at_time_zero_can_be_repeated() {
    let e = env();
    let (mut contract, _owner, _admin) = setup(&e);
    assert_eq!(contract.request_withdrawal(0), Ok(()));
    assert_eq!(contract.request_withdrawal(7), Ok(()));
    assert_eq!(bond(&contract).withdrawal_requested_at, 7);
}

#[test]
fn renewal_after_term_end_starts_a_new_term() {
    let e = env();
    let (mut contract, _owner, _admin) = setup(&e);
    assert_eq!(contract.request_withdrawal(900), Ok(()));
    assert_eq!(contract.renew_if_rolling(1_000), Ok(false));
    assert_eq!(bond(&contract).bond_start, 0);
    assert_eq!(contract.renew_if_rolling(1_001), Ok(true));
    let b = bond(&contract);
    assert_eq!(b.bond_start, 1_001);
    assert_eq!(b.withdrawal_requested_at, 0);
    assert_eq!(b.bonded_amount, 1_000);
    assert_eq!(b.bond_duration, 1_000);
}

#[test]
fn renewal_is_idempotent_at_one_time() {
    let e = env();
    let (mut contract, _owner, _admin) = setup(&e);
    assert_eq!(contract.renew_if_rolling(5_000), Ok(true));
    assert_eq!(contract.renew_if_rolling(5_000), Ok(false));
    assert_eq!(bond(&contract).bond_start, 5_000);
}

#[test]
fn fixed_bond_is_never_renewed() {
    let e = env();
    let owner = Address::generate(&e);
    let mut contract = CredenceBond::new();
    contract.create_bond(owner, 10, 10, false, 0, 0);
    assert_eq!(contract.renew_if_rolling(u64::MAX), Ok(false));
    assert_eq!(bond(&contract).bond_start, 0);
}

#[test]
fn term_end_saturates() {
    let e = env();
    let owner = Address::generate(&e);
    let mut contract = CredenceBond::new();
    contract.create_bond(owner, 10, 100, true, 0, u64::MAX - 5);
    assert_eq!(contract.renew_if_rolling(u64::MAX), Ok(false));
    assert_eq!(bond(&contract).bond_start, u64::MAX - 5);
}

#[test]
fn top_up_undoes_withdraw() {
    let e = env();
    let (mut contract, _owner, _admin) = setup(&e);
    assert_eq!(contract.withdraw(321), Ok(()));
    assert_eq!(contract.top_up(321), Ok(()));
    assert_eq!(bond(&contract).bonded_amount, 1_000);
}

#[test]
fn withdraw_undoes_top_up() {
    let e = env();
    let (mut contract, _owner, _admin) = setup(&e);
    assert_eq!(contract.top_up(4_000), Ok(()));
    assert_eq!(contract.withdraw(4_000), Ok(()));
    assert_eq!(bond(&contract).bonded_amount, 1_000);
}

#[test]
fn extensions_add_up() {
    let e = env();
    let (mut one, _owner, _admin) = setup(&e);
    let (mut two, _owner2, _admin2) = setup(&e);
    assert_eq!(one.extend_duration(30), Ok(()));
    assert_eq!(one.extend_duration(12), Ok(()));
    assert_eq!(two.extend_duration(42), Ok(()));
    assert_eq!(bond(&one).bond_duration, bond(&two).bond_duration);
}

#[test]
fn calls_keep_owner_and_admin() {
    let e = env();
    let (mut contract, owner, admin) = setup(&e);
    assert_eq!(contract.withdraw(10), Ok(()));
    assert_eq!(contract.top_up(20), Ok(()));
    assert_eq!(contract.extend_duration(30), Ok(()));
    assert_eq!(contract.request_withdrawal(40), Ok(()));
    assert_eq!(contract.renew_if_rolling(5_000), Ok(true));
    let b = bond(&contract);
    assert_eq!(b.identity, owner);
    assert!(b.is_rolling);
    assert_eq!(b.notice_period_duration, 100);
    assert_eq!(contract.admin, Some(admin));
}

#[test]
fn error_messages() {
    assert_eq!(BondError::NoBond.message(), "no bond");
    assert_eq!(BondError::InsufficientBalance.message(), "insufficient balance for withdrawal");
    assert_eq!(BondError::WithdrawalUnderflow.message(), "withdrawal caused underflow");
    assert_eq!(BondError::TopUpOverflow.message(), "top-up caused overflow");
    assert_eq!(BondError::DurationOverflow.message(), "duration extension caused overflow");
    assert_eq!(BondError::NotRolling.message(), "not a rolling bond");
    assert_eq!(BondError::WithdrawalAlreadyRequested.message(), "withdrawal already requested");
}

#[test]
fn only_the_owner_signs_bond_calls() {
    let e = env();
    let (mut contract, owner, admin) = setup(&e);
    assert_eq!(contract.required_signer(), Ok(&owner));
    assert_ne!(contract.required_signer(), Ok(&admin));
    let other = Address::generate(&e);
    contract.initialize(other.clone());
    assert_eq!(contract.required_signer(), Ok(&owner));
    contract.create_bond(other.clone(), 1, 1, true, 0, 0);
    assert_eq!(contract.required_signer(), Ok(&other));
}

#[test]
fn no_signer_without_a_bond() {
    let contract = CredenceBond::new();
    assert_eq!(contract.required_signer(), Err(BondError::NoBond));
}

#[test]
fn withdrawal_request_publishes_owner_and_time() {
    let e = env();
    let (mut contract, owner, _admin) = setup(&e);
    let outcome = contract.request_withdrawal(250);
    assert_eq!(outcome, Ok(()));
    assert_eq!(contract.requested_withdrawal_event(&outcome), Some((&owner, 250)));
}

#[test]
fn withdrawal_request_at_time_zero_publishes_zero() {
    let e = env();
    let (mut contract, owner, _admin) = setup(&e);
    let outcome = contract.request_withdrawal(0);
    assert_eq!(contract.requested_withdrawal_event(&outcome), Some((&owner, 0)));
}

#[test]
fn refused_withdrawal_request_publishes_nothing() {
    let e = env();
    let (mut contract, _owner, _admin) = setup(&e);
    assert_eq!(contract.request_withdrawal(250), Ok(()));
    let outcome = contract.request_withdrawal(300);
    assert_eq!(outcome, Err(BondError::WithdrawalAlreadyRequested));
    assert_eq!(contract.requested_withdrawal_event(&outcome), None);
    let mut empty = CredenceBond::new();
    let outcome = empty.request_withdrawal(1);
    assert_eq!(empty.requested_withdrawal_event(&outcome), None);
}
