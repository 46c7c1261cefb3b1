//! End-to-end tests of the executor adapter, driving the real EVM engine with
//! hand-assembled bytecode.

use evm_adapters::executor::Executor;
use evm_adapters::types::{
    faucet_account, Address, ErrorKind, ExitStatus, FatalKind, SucceedKind, Word, FAUCET_HI,
    FAUCET_LO,
};
use evm_adapters::vm::vm_new;

fn addr(lo: u128) -> Address {
    Address { hi: 0, lo }
}

fn zero() -> Word {
    Word::from_u64(0)
}

/// Runtime code that copies a canned ABI-encoded `Error("not equal to `hi`")`
/// payload out of the code body and reverts with it.
fn revert_with_reason_code() -> (Vec<u8>, Vec<u8>) {
    let mut payload: Vec<u8> = vec![0x08, 0xc3, 0x79, 0xa0];
    payload.extend_from_slice(&[0u8; 31]);
    payload.push(0x20);
    payload.extend_from_slice(&[0u8; 31]);
    payload.push(17);
    payload.extend_from_slice(b"not equal to `hi`");
    payload.extend_from_slice(&[0u8; 15]);
    // PUSH1 100, PUSH1 12, PUSH1 0, CODECOPY, PUSH1 100, PUSH1 0, REVERT
    let mut code: Vec<u8> = vec![
        0x60, 0x64, 0x60, 0x0c, 0x60, 0x00, 0x39, 0x60, 0x64, 0x60, 0x00, 0xfd,
    ];
    code.extend_from_slice(&payload);
    (code, payload)
}

#[test]
fn deploy_empty_contract_succeeds() {
    let mut e = Executor::new(12_000_000, Word::max());
    let from = addr(1);
    let predicted = e.create_address(from);
    let (address, status, gas, logs) = e.deploy(from, vec![0x00], zero()).unwrap();
    assert!(Executor::is_success(&status));
    assert_eq!(address, predicted);
    assert!(gas > 0);
    assert!(logs.is_empty());
}

#[test]
fn deploy_addresses_differ_across_nonces() {
    let mut e = Executor::new(12_000_000, Word::max());
    let from = addr(1);
    let (first, _, _, _) = e.deploy(from, vec![0x00], zero()).unwrap();
    let predicted = e.create_address(from);
    let (second, _, _, _) = e.deploy(from, vec![0x00], zero()).unwrap();
    assert_ne!(first, second);
    assert_eq!(second, predicted);
}

#[test]
fn call_reverting_with_reason() {
    let mut e = Executor::new(12_000_000, Word::max());
    let target = addr(0x42);
    let (code, payload) = revert_with_reason_code();
    e.initialize_contracts(&vec![(target, code)]);
    let (data, status, _, _) = e.call_raw(addr(1), target, vec![], zero(), false).unwrap();
    assert_eq!(status, ExitStatus::Revert);
    assert!(Executor::is_fail(&status));
    assert_eq!(data, payload);
    assert_eq!(&data[68..85], b"not equal to `hi`");
}

#[test]
fn call_reverting_with_no_reason() {
    let mut e = Executor::new(12_000_000, Word::max());
    let target = addr(0x43);
    // PUSH1 0, PUSH1 0, REVERT
    e.initialize_contracts(&vec![(target, vec![0x60, 0x00, 0x60, 0x00, 0xfd])]);
    let (data, status, _, _) = e.call_raw(addr(1), target, vec![], zero(), false).unwrap();
    assert_eq!(status, ExitStatus::Revert);
    assert!(data.is_empty());
}

#[test]
fn seeded_code_is_callable_without_nonce_change() {
    let mut e = Executor::new(12_000_000, Word::max());
    let target = addr(0x44);
    let code = vec![0x00];
    e.initialize_contracts(&vec![(target, code.clone())]);
    assert_eq!(e.code_of(target), code);
    assert_eq!(e.nonce_of(target), Word::from_u64(0));
    let (_, status, _, _) = e.call_raw(addr(1), target, vec![], zero(), false).unwrap();
    assert!(Executor::is_success(&status));
    assert_eq!(e.nonce_of(target), Word::from_u64(0));
    assert_eq!(e.code_of(target), code);
}

#[test]
fn funding_moves_exact_value() {
    let mut e = Executor::new(1_000_000, Word::from_u64(1000));
    let a = addr(9);
    assert_eq!(e.set_balance(a, Word::from_u64(600)), Ok(()));
    assert_eq!(e.balance_of(a), Word::from_u64(600));
    assert_eq!(e.balance_of(faucet_account()), Word::from_u64(400));
}

#[test]
fn funding_fails_when_faucet_is_short() {
    let mut e = Executor::new(1_000_000, Word::from_u64(1000));
    let a = addr(9);
    assert_eq!(e.set_balance(a, Word::from_u64(600)), Ok(()));
    assert_eq!(e.set_balance(a, Word::from_u64(500)), Err(ErrorKind::OutOfFund));
    assert_eq!(e.balance_of(a), Word::from_u64(600));
    assert_eq!(e.balance_of(faucet_account()), Word::from_u64(400));
}

#[test]
fn classification_is_complementary() {
    let statuses = vec![
        ExitStatus::Succeed(SucceedKind::Stopped),
        ExitStatus::Succeed(SucceedKind::Returned),
        ExitStatus::Succeed(SucceedKind::Suicided),
        ExitStatus::Revert,
        ExitStatus::Error(ErrorKind::OutOfGas),
        ExitStatus::Error(ErrorKind::Other),
        ExitStatus::Fatal(FatalKind::NotSupported),
        ExitStatus::Fatal(FatalKind::CallErrorAsFatal(ErrorKind::OutOfGas)),
    ];
    for s in &statuses {
        assert_ne!(Executor::is_success(s), Executor::is_fail(s));
    }
    assert_eq!(Executor::revert(), ExitStatus::Revert);
    assert!(Executor::is_fail(&Executor::revert()));
}

#[test]
fn gas_used_saturates_at_zero() {
    // A pool smaller than the intrinsic base cost: the transaction cannot even
    // pay its way in, and the reported net gas clamps to zero.
    let mut e = Executor::new(10_000, Word::max());
    let (_, status, gas, _) = e.call_raw(addr(1), addr(2), vec![], zero(), false).unwrap();
    assert!(Executor::is_fail(&status));
    assert_eq!(gas, 0);
    let mut d = Executor::new(10_000, Word::max());
    let err = d.deploy(addr(1), vec![0x00], zero()).unwrap_err();
    assert!(Executor::is_fail(&err));
}

#[test]
fn logs_do_not_leak_between_calls() {
    let mut e = Executor::new(12_000_000, Word::max());
    let noisy = addr(0x50);
    let quiet = addr(0x51);
    // PUSH1 4, PUSH1 0, LOG0, STOP: one record of four zero bytes.
    e.initialize_contracts(&vec![
        (noisy, vec![0x60, 0x04, 0x60, 0x00, 0xa0, 0x00]),
        (quiet, vec![0x00]),
    ]);
    let (_, _, _, logs1) = e.call_raw(addr(1), noisy, vec![], zero(), false).unwrap();
    assert_eq!(logs1, vec![vec![0u8, 0, 0, 0]]);
    let (_, _, _, logs2) = e.call_raw(addr(1), quiet, vec![], zero(), false).unwrap();
    assert!(logs2.is_empty());
    let (_, _, _, logs3) = e.call_raw(addr(1), noisy, vec![], zero(), false).unwrap();
    assert_eq!(logs3, vec![vec![0u8, 0, 0, 0]]);
}

#[test]
fn storage_writes_are_visible_in_the_state_view() {
    let mut e = Executor::new(12_000_000, Word::max());
    let target = addr(0x55);
    // PUSH1 42, PUSH1 7, SSTORE, STOP: writes 42 into slot 7.
    e.initialize_contracts(&vec![(target, vec![0x60, 0x2a, 0x60, 0x07, 0x55, 0x00])]);
    assert_eq!(e.storage_of(target, Word::from_u64(7)), Word::from_u64(0));
    let (_, status, _, _) = e.call_raw(addr(1), target, vec![], zero(), false).unwrap();
    assert!(Executor::is_success(&status));
    assert_eq!(e.storage_of(target, Word::from_u64(7)), Word::from_u64(42));
    assert_eq!(e.storage_of(target, Word::from_u64(8)), Word::from_u64(0));
}

#[test]
fn reset_restores_genesis() {
    let mut e = Executor::new(1_000_000, Word::from_u64(50));
    let a = addr(3);
    assert_eq!(e.set_balance(a, Word::from_u64(20)), Ok(()));
    e.reset_genesis(Word::from_u64(80));
    assert_eq!(e.balance_of(a), Word::from_u64(0));
    assert_eq!(e.balance_of(faucet_account()), Word::from_u64(80));
}

#[test]
fn reset_installs_caller_state() {
    let mut e = Executor::new(1_000_000, Word::from_u64(50));
    let a = addr(3);
    assert_eq!(e.set_balance(a, Word::from_u64(20)), Ok(()));
    e.reset(vm_new(faucet_account(), Word::from_u64(75)));
    assert_eq!(e.balance_of(a), Word::from_u64(0));
    assert_eq!(e.balance_of(faucet_account()), Word::from_u64(75));
    assert_eq!(e.gas_left, 1_000_000);
}

#[test]
fn is_static_flag_is_advisory() {
    let mut a = Executor::new(12_000_000, Word::max());
    let mut b = Executor::new(12_000_000, Word::max());
    let target = addr(0x60);
    let (code, _) = revert_with_reason_code();
    a.initialize_contracts(&vec![(target, code.clone())]);
    b.initialize_contracts(&vec![(target, code)]);
    let ra = a.call_raw(addr(1), target, vec![], zero(), false).unwrap();
    let rb = b.call_raw(addr(1), target, vec![], zero(), true).unwrap();
    assert_eq!(ra, rb);
    assert_eq!(a.gas_left, b.gas_left);
}

#[test]
fn from_executor_wraps_engine() {
    let vm = vm_new(faucet_account(), Word::from_u64(5));
    let e = Executor::from_executor(vm, 9_000_000);
    assert_eq!(e.gas_limit, 9_000_000);
    assert_eq!(e.gas_left, 9_000_000);
    assert_eq!(e.balance_of(faucet_account()), Word::from_u64(5));
}

#[test]
fn word_and_address_values() {
    assert_eq!(Word::from_u64(7), Word { hi: 0, lo: 7 });
    assert_eq!(Word::max(), Word { hi: u128::MAX, lo: u128::MAX });
    assert_eq!(faucet_account(), Address { hi: FAUCET_HI, lo: FAUCET_LO });
}
