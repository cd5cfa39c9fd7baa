use evm_bridge::address::MappingPolicy;
use evm_bridge::evm::Module;
use evm_bridge::origin::{CallOriginPolicy, WithdrawOriginPolicy};
use evm_bridge::types::{
    AccountId, CallInfo, CreateInfo, DispatchError, Error, Event, EvmAddress, ExitError,
    ExitReason, ExitRevert, ExitSucceed, GenesisAccount, RawOrigin,
};

fn addr(b: u8) -> EvmAddress {
    EvmAddress { bytes: vec![b; 20] }
}

fn id20(b: u8) -> AccountId {
    AccountId { bytes: vec![b; 20] }
}

fn id32(b: u8) -> AccountId {
    AccountId { bytes: vec![b; 32] }
}

fn fresh() -> Module {
    Module::new(
        CallOriginPolicy::TruncatedHashMatch,
        WithdrawOriginPolicy::TruncatedHashMatch,
        MappingPolicy::Identity,
    )
}

fn ok_call_info() -> CallInfo {
    CallInfo { exit_reason: ExitReason::Succeed(ExitSucceed::Returned), output: vec![], used_gas: 21000 }
}

fn reverted_call_info() -> CallInfo {
    CallInfo { exit_reason: ExitReason::Revert(ExitRevert::Reverted), output: vec![], used_gas: 21000 }
}

#[test]
fn code_roundtrip_and_length() {
    let mut m = fresh();
    let a = addr(0x10);
    assert_eq!(m.account_codes(&a), Vec::<u8>::new());
    assert_eq!(m.code_length(&a), 0);
    m.set_code(&a, vec![1, 2, 3]);
    assert_eq!(m.account_codes(&a), vec![1, 2, 3]);
    assert_eq!(m.code_length(&a), 3);
    assert_eq!(m.account_codes(&addr(0x11)), Vec::<u8>::new());
}

#[test]
fn storage_roundtrip_and_zero_default() {
    let mut m = fresh();
    let a = addr(0x10);
    let key = vec![0x01; 32];
    let other_key = vec![0x02; 32];
    assert_eq!(m.account_storages(&a, &key), vec![0u8; 32]);
    m.set_storage(&a, key.clone(), vec![0xFF; 32]);
    assert_eq!(m.account_storages(&a, &key), vec![0xFF; 32]);
    assert_eq!(m.account_storages(&a, &other_key), vec![0u8; 32]);
    assert_eq!(m.account_storages(&addr(0x11), &key), vec![0u8; 32]);
}

#[test]
fn remove_account_clears_code_and_all_storage() {
    let mut m = fresh();
    let a = addr(0x10);
    let b = addr(0x11);
    m.set_code(&a, vec![9, 9]);
    m.set_storage(&a, vec![0x01; 32], vec![0xAB; 32]);
    m.set_storage(&a, vec![0x02; 32], vec![0xCD; 32]);
    m.set_code(&b, vec![7]);
    m.remove_account(&a);
    assert_eq!(m.account_codes(&a), Vec::<u8>::new());
    assert_eq!(m.account_storages(&a, &vec![0x01; 32]), vec![0u8; 32]);
    assert_eq!(m.account_storages(&a, &vec![0x02; 32]), vec![0u8; 32]);
    // the other address is untouched
    assert_eq!(m.account_codes(&b), vec![7]);
}

#[test]
fn emptiness_follows_nonce_balance_and_code() {
    let mut m = fresh();
    let a = addr(0x10);
    assert!(m.is_account_empty(&a));
    // a nonzero deposit to the mapped identity makes the address nonempty
    m.deposit_creating(&id20(0x10), 5);
    assert!(!m.is_account_empty(&a));
    // after removal the address is empty again once the balance is gone
    let sink = id20(0x77);
    m.transfer(&id20(0x10), &sink, 5).unwrap();
    m.set_code(&a, vec![1]);
    assert!(!m.is_account_empty(&a));
    m.remove_account(&a);
    assert!(m.is_account_empty(&a));
    // a nonzero nonce alone keeps an address nonempty
    let b = addr(0x20);
    m.inc_account_nonce(&id20(0x20));
    assert!(!m.is_account_empty(&b));
}

#[test]
fn remove_if_empty_spares_nonempty_accounts() {
    let mut m = fresh();
    let a = addr(0x10);
    m.deposit_creating(&id20(0x10), 1);
    m.set_code(&a, vec![4, 5]);
    m.remove_account_if_empty(&a);
    assert_eq!(m.account_codes(&a), vec![4, 5]);
    // an empty address stays empty through remove_if_empty
    let b = addr(0x30);
    m.remove_account_if_empty(&b);
    assert!(m.is_account_empty(&b));
}

#[test]
fn account_basic_reads_the_mapped_identity() {
    let mut m = fresh();
    let a = addr(0x10);
    m.deposit_creating(&id20(0x10), 250);
    m.inc_account_nonce(&id20(0x10));
    m.inc_account_nonce(&id20(0x10));
    let basic = m.account_basic(&a);
    assert_eq!(basic.balance, 250);
    assert_eq!(basic.nonce, 2);
}

#[test]
fn transfer_moves_funds_exactly() {
    let mut m = fresh();
    m.deposit_creating(&id20(0x01), 100);
    m.transfer(&id20(0x01), &id20(0x02), 40).unwrap();
    assert_eq!(m.free_balance(&id20(0x01)), 60);
    assert_eq!(m.free_balance(&id20(0x02)), 40);
}

#[test]
fn transfer_with_insufficient_funds_fails_balance_low() {
    let mut m = fresh();
    m.deposit_creating(&id20(0x01), 10);
    assert_eq!(m.transfer(&id20(0x01), &id20(0x02), 11), Err(Error::BalanceLow));
    assert_eq!(m.free_balance(&id20(0x01)), 10);
    assert_eq!(m.free_balance(&id20(0x02)), 0);
}

#[test]
fn transfer_overflowing_destination_fails_payment_overflow() {
    let mut m = fresh();
    m.deposit_creating(&id20(0x01), 10);
    m.deposit_creating(&id20(0x02), u128::MAX);
    assert_eq!(m.transfer(&id20(0x01), &id20(0x02), 1), Err(Error::PaymentOverflow));
    assert_eq!(m.free_balance(&id20(0x01)), 10);
    assert_eq!(m.free_balance(&id20(0x02)), u128::MAX);
}

#[test]
fn deposit_creating_saturates() {
    let mut m = fresh();
    m.deposit_creating(&id20(0x01), u128::MAX);
    m.deposit_creating(&id20(0x01), 7);
    assert_eq!(m.free_balance(&id20(0x01)), u128::MAX);
}

#[test]
fn withdraw_moves_balance_to_the_signer() {
    let mut m = fresh();
    let a = addr(0xAA);
    // fund the EVM address's mapped identity
    m.deposit_creating(&id20(0xAA), 100);
    let signer = id32(0xAA);
    m.withdraw(RawOrigin::Signed(signer), &a, 30).unwrap();
    assert_eq!(m.free_balance(&id20(0xAA)), 70);
    assert_eq!(m.free_balance(&id32(0xAA)), 30);
    // no event of this module is emitted for a withdraw
    assert!(m.events.is_empty());
}

#[test]
fn withdraw_unauthorized_changes_nothing() {
    let mut m = fresh();
    m.deposit_creating(&id20(0xAA), 100);
    let a = addr(0xAA);
    let outsider = id32(0xBB);
    assert_eq!(
        m.withdraw(RawOrigin::Signed(outsider), &a, 30),
        Err(DispatchError::BadOrigin)
    );
    assert_eq!(m.free_balance(&id20(0xAA)), 100);
    assert!(m.events.is_empty());
}

#[test]
fn withdraw_exceeding_balance_fails_with_funds_error() {
    let mut m = fresh();
    let a = addr(0xAA);
    m.deposit_creating(&id20(0xAA), 10);
    m.set_code(&a, vec![1, 2]);
    let r = m.withdraw(RawOrigin::Signed(id32(0xAA)), &a, 11);
    assert_eq!(r, Err(DispatchError::Module(Error::BalanceLow)));
    // no event, balances and store untouched
    assert!(m.events.is_empty());
    assert_eq!(m.free_balance(&id20(0xAA)), 10);
    assert_eq!(m.free_balance(&id32(0xAA)), 0);
    assert_eq!(m.account_codes(&a), vec![1, 2]);
}

#[test]
fn call_success_emits_executed() {
    let mut m = fresh();
    let source = addr(0xAA);
    let target = addr(0x55);
    let r = m.call(
        RawOrigin::Signed(id32(0xAA)),
        &source,
        &target,
        vec![],
        0,
        100_000,
        Ok(ok_call_info()),
    );
    assert!(r.is_ok());
    assert_eq!(m.events.len(), 1);
    match &m.events[0] {
        Event::Executed(a) => assert_eq!(a.bytes, vec![0x55; 20]),
        _ => panic!("a successful call must emit Executed(target)"),
    }
}

#[test]
fn call_reverted_emits_executed_failed() {
    let mut m = fresh();
    let source = addr(0xAA);
    let target = addr(0x55);
    m.call(
        RawOrigin::Signed(id32(0xAA)),
        &source,
        &target,
        vec![],
        0,
        100_000,
        Ok(reverted_call_info()),
    )
    .unwrap();
    assert_eq!(m.events.len(), 1);
    match &m.events[0] {
        Event::ExecutedFailed(a) => assert_eq!(a.bytes, vec![0x55; 20]),
        _ => panic!("a reverted call must emit ExecutedFailed(target)"),
    }
}

#[test]
fn call_unauthorized_leaves_everything_unchanged() {
    let mut m = fresh();
    let source = addr(0xAA);
    let target = addr(0x55);
    m.set_code(&target, vec![3, 4]);
    m.deposit_creating(&id20(0x55), 9);
    let r = m.call(
        RawOrigin::Signed(id32(0xBB)),
        &source,
        &target,
        vec![],
        0,
        100_000,
        Ok(ok_call_info()),
    );
    assert_eq!(r, Err(DispatchError::BadOrigin));
    assert!(m.events.is_empty());
    assert_eq!(m.account_codes(&target), vec![3, 4]);
    assert_eq!(m.free_balance(&id20(0x55)), 9);
}

#[test]
fn call_engine_error_propagates_without_event() {
    let mut m = fresh();
    let source = addr(0xAA);
    let target = addr(0x55);
    let r = m.call(
        RawOrigin::Signed(id32(0xAA)),
        &source,
        &target,
        vec![],
        0,
        100_000,
        Err(DispatchError::Other),
    );
    assert_eq!(r, Err(DispatchError::Other));
    assert!(m.events.is_empty());
}

#[test]
fn create_success_emits_created_with_engine_address() {
    let mut m = fresh();
    let source = addr(0xAA);
    let info = CreateInfo {
        exit_reason: ExitReason::Succeed(ExitSucceed::Returned),
        value: addr(0xC0),
        used_gas: 50_000,
    };
    m.create(RawOrigin::Signed(id32(0xAA)), &source, vec![1], 0, 100_000, Ok(info)).unwrap();
    assert_eq!(m.events.len(), 1);
    match &m.events[0] {
        Event::Created(a) => assert_eq!(a.bytes, vec![0xC0; 20]),
        _ => panic!("a successful create must emit Created(address)"),
    }
}

#[test]
fn create_failed_still_emits_the_derived_address() {
    let mut m = fresh();
    let source = addr(0xAA);
    // the engine derives the address before executing, so a failed create
    // names the same address a successful one would have
    let failed = CreateInfo {
        exit_reason: ExitReason::Error(ExitError::OutOfGas),
        value: addr(0xC0),
        used_gas: 100_000,
    };
    m.create(RawOrigin::Signed(id32(0xAA)), &source, vec![1], 0, 100_000, Ok(failed)).unwrap();
    assert_eq!(m.events.len(), 1);
    match &m.events[0] {
        Event::CreatedFailed(a) => assert_eq!(a.bytes, vec![0xC0; 20]),
        _ => panic!("a failed create must emit CreatedFailed(address)"),
    }
}

#[test]
fn create2_classifies_like_create() {
    let mut m = fresh();
    let source = addr(0xAA);
    let info = CreateInfo {
        exit_reason: ExitReason::Succeed(ExitSucceed::Stopped),
        value: addr(0xC2),
        used_gas: 60_000,
    };
    m.create2(
        RawOrigin::Signed(id32(0xAA)),
        &source,
        vec![1],
        vec![0x5A; 32],
        0,
        100_000,
        Ok(info),
    )
    .unwrap();
    match &m.events[0] {
        Event::Created(a) => assert_eq!(a.bytes, vec![0xC2; 20]),
        _ => panic!("a successful create2 must emit Created(address)"),
    }
}

#[test]
fn create_unauthorized_changes_nothing() {
    let mut m = fresh();
    let source = addr(0xAA);
    let info = CreateInfo {
        exit_reason: ExitReason::Succeed(ExitSucceed::Returned),
        value: addr(0xC0),
        used_gas: 1,
    };
    let r = m.create(RawOrigin::NoOrigin, &source, vec![], 0, 1, Ok(info));
    assert_eq!(r, Err(DispatchError::BadOrigin));
    assert!(m.events.is_empty());
}

#[test]
fn genesis_record_loads_balance_and_code() {
    let mut m = fresh();
    let a = addr(0x01);
    let record = GenesisAccount { nonce: 0, balance: 100, storage: vec![], code: vec![] };
    m.load_genesis(&vec![(a, record)]);
    let a = addr(0x01);
    assert!(!m.is_account_empty(&a));
    assert_eq!(m.free_balance(&id20(0x01)), 100);
    assert_eq!(m.account_codes(&a), Vec::<u8>::new());
    assert!(m.events.is_empty());
}

#[test]
fn genesis_applies_code_and_storage_per_address() {
    let mut m = fresh();
    let rec1 = GenesisAccount {
        nonce: 3,
        balance: 10,
        storage: vec![(vec![0x01; 32], vec![0xEE; 32])],
        code: vec![0xDE, 0xAD],
    };
    let rec2 = GenesisAccount { nonce: 0, balance: 20, storage: vec![], code: vec![0xBE] };
    m.load_genesis(&vec![(addr(0x01), rec1), (addr(0x02), rec2)]);
    assert_eq!(m.account_codes(&addr(0x01)), vec![0xDE, 0xAD]);
    assert_eq!(m.account_storages(&addr(0x01), &vec![0x01; 32]), vec![0xEE; 32]);
    assert_eq!(m.account_codes(&addr(0x02)), vec![0xBE]);
    assert_eq!(m.free_balance(&id20(0x01)), 10);
    assert_eq!(m.free_balance(&id20(0x02)), 20);
    // mirroring the source ledger, genesis does not apply the record nonce
    assert_eq!(m.account_nonce(&id20(0x01)), 0);
}

#[test]
fn empty_code_counts_as_no_contract() {
    let mut m = fresh();
    let a = addr(0x40);
    m.set_code(&a, vec![]);
    assert!(m.is_account_empty(&a));
    assert_eq!(m.account_codes(&a), Vec::<u8>::new());
    assert_eq!(m.code_length(&a), 0);
}
