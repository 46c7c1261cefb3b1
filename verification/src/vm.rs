//! The trusted boundary to the stack-based EVM engine of the `evm` crate.
//!
//! A [`Vm`] owns an in-memory account store. Each operation builds a stack
//! executor over that store, runs one transaction to completion, drains the log
//! records the transaction emitted, and folds the resulting state changes back
//! into the store, so the engine returns its logs by value and no record can
//! leak from one transaction into the next. The engine's account store is
//! modelled by the uninterpreted [`vm_accounts`] map from address values to
//! [`AccountModel`]; every contract below states, over that map, exactly what
//! the engine's source shows.

use vstd::prelude::*;

use crate::types::{sat_sub, AccountModel, Address, ErrorKind, ExitStatus, FatalKind, SucceedKind,
    Word};

use evm::backend::{ApplyBackend, Backend, Log, MemoryAccount, MemoryBackend, MemoryVicinity};
use evm::executor::stack::{MemoryStackState, PrecompileFn, StackExecutor, StackState,
    StackSubstateMetadata};
use evm::{Config, CreateScheme, ExitError, ExitFatal, ExitReason, ExitSucceed, Transfer};
use primitive_types::{H160, H256, U256};
use std::collections::BTreeMap;

verus! {

/// One EVM engine instance: the chain configuration, the precompile set, and
/// the account store that successive transactions read and mutate.
#[verifier::external_body]
pub struct Vm {
    backend: MemoryBackend<'static>,
    config: &'static Config,
    precompiles: BTreeMap<H160, PrecompileFn>,
}

/// What the engine's account store holds: for every address value, that
/// account's balance, nonce and code.
pub uninterp spec fn vm_accounts(v: Vm) -> Map<nat, AccountModel>;

/// The address the engine derives for a contract created by `sender` at
/// `nonce` under the legacy scheme (the keccak hash of the RLP pair of the
/// two); a function of the sender and the nonce alone.
pub uninterp spec fn legacy_create_address(sender: nat, nonce: nat) -> nat;

/// What one create transaction on engine `v` produces: the exit status, the
/// returned data, the ordered log records this transaction emitted, the gas
/// remaining in a gasometer seeded with `pool`, and the account store
/// afterwards. The engine is deterministic — fixed configuration, fixed block
/// environment, no precompiles, no randomness or time — so this is a function
/// of the engine value and the transaction arguments alone.
pub uninterp spec fn create_result_of(
    v: Vm,
    from: nat,
    value: nat,
    init_code: Seq<u8>,
    pool: u64,
    tx_gas_limit: u64,
) -> (ExitStatus, Seq<u8>, Seq<Seq<u8>>, u64, Map<nat, AccountModel>);

/// What one call transaction on engine `v` produces: the exit status, the
/// returned data (the revert reason bytes, when the contract gave one), the
/// ordered log records this transaction emitted, the gas remaining in a
/// gasometer seeded with `pool`, and the account store afterwards. A function
/// of the engine value and these arguments alone, as for [`create_result_of`].
pub uninterp spec fn call_result_of(
    v: Vm,
    from: nat,
    to: nat,
    value: nat,
    data: Seq<u8>,
    pool: u64,
    tx_gas_limit: u64,
) -> (ExitStatus, Seq<u8>, Seq<Seq<u8>>, u64, Map<nat, AccountModel>);

/// The store after the code of the account at `a` is replaced by `code`; its
/// balance, nonce and storage stay.
pub open spec fn set_code_model(m: Map<nat, AccountModel>, a: nat, code: Seq<u8>) -> Map<
    nat,
    AccountModel,
> {
    m.insert(a, AccountModel { balance: m[a].balance, nonce: m[a].nonce, code, storage: m[a].storage })
}

/// The store after `v` moves from the account at `from` to the one at `to`:
/// the source is debited exactly, the target's balance is credited but
/// saturates at the largest 256-bit word, and a transfer onto the source
/// itself changes nothing.
pub open spec fn transfer_model(m: Map<nat, AccountModel>, from: nat, to: nat, v: nat) -> Map<
    nat,
    AccountModel,
> {
    if from == to {
        m
    } else {
        let debited = AccountModel {
            balance: sat_sub(m[from].balance as int, v as int) as nat,
            nonce: m[from].nonce,
            code: m[from].code,
            storage: m[from].storage,
        };
        let credited = AccountModel {
            balance: crate::types::sat_add_word(m[to].balance, v),
            nonce: m[to].nonce,
            code: m[to].code,
            storage: m[to].storage,
        };
        m.insert(from, debited).insert(to, credited)
    }
}

#[verifier::external_type_specification]
#[verifier::external_body]
pub struct ExH160(H160);

#[verifier::external_type_specification]
#[verifier::external_body]
pub struct ExU256(U256);

#[verifier::external_type_specification]
#[verifier::external_body]
pub struct ExH256(H256);

#[verifier::external_type_specification]
#[verifier::external_body]
pub struct ExConfig(Config);

#[verifier::external_type_specification]
#[verifier::external_body]
pub struct ExMemoryVicinity(MemoryVicinity);

#[verifier::external_type_specification]
#[verifier::external_body]
pub struct ExExitReason(ExitReason);

#[verifier::external_type_specification]
#[verifier::external_body]
pub struct ExExitSucceed(ExitSucceed);

#[verifier::external_type_specification]
#[verifier::external_body]
pub struct ExExitError(ExitError);

#[verifier::external_type_specification]
#[verifier::external_body]
pub struct ExExitFatal(ExitFatal);

/// Relies on `primitive_types::H160::from`: packs the two limbs of an address
/// into the engine's 20-byte form, big-endian.
#[verifier::external_body]
fn h160_of(hi: u32, lo: u128) -> H160 {
    let mut b = [0u8; 20];
    b[0..4].copy_from_slice(&hi.to_be_bytes());
    b[4..20].copy_from_slice(&lo.to_be_bytes());
    H160::from(b)
}

/// Relies on `primitive_types::U256::from_big_endian`: packs the two limbs of
/// a word into the engine's 256-bit form, big-endian.
#[verifier::external_body]
fn u256_of(hi: u128, lo: u128) -> U256 {
    let mut b = [0u8; 32];
    b[0..16].copy_from_slice(&hi.to_be_bytes());
    b[16..32].copy_from_slice(&lo.to_be_bytes());
    U256::from_big_endian(&b)
}

/// Relies on `primitive_types::H256::from`: packs the two limbs of a storage
/// key into the engine's 32-byte form, big-endian.
#[verifier::external_body]
fn h256_of(hi: u128, lo: u128) -> H256 {
    let mut b = [0u8; 32];
    b[0..16].copy_from_slice(&hi.to_be_bytes());
    b[16..32].copy_from_slice(&lo.to_be_bytes());
    H256::from(b)
}

/// Relies on `primitive_types::H256::to_fixed_bytes`: unpacks the engine's
/// 32-byte storage word, big-endian, into the two limbs.
#[verifier::external_body]
fn word_of_h256(h: H256) -> Word {
    let b = h.to_fixed_bytes();
    Word {
        hi: u128::from_be_bytes(b[0..16].try_into().unwrap()),
        lo: u128::from_be_bytes(b[16..32].try_into().unwrap()),
    }
}

/// Relies on `primitive_types::H160::to_fixed_bytes`: unpacks the engine's
/// 20-byte address, big-endian, into the two limbs.
#[verifier::external_body]
fn addr_of_h160(h: H160) -> Address {
    let b = h.to_fixed_bytes();
    Address {
        hi: u32::from_be_bytes(b[0..4].try_into().unwrap()),
        lo: u128::from_be_bytes(b[4..20].try_into().unwrap()),
    }
}

/// Relies on `primitive_types::U256::to_big_endian`: unpacks the engine's
/// 256-bit word, big-endian, into the two limbs.
#[verifier::external_body]
fn word_of_u256(u: U256) -> Word {
    let mut b = [0u8; 32];
    u.to_big_endian(&mut b);
    Word {
        hi: u128::from_be_bytes(b[0..16].try_into().unwrap()),
        lo: u128::from_be_bytes(b[16..32].try_into().unwrap()),
    }
}

/// Relies on `evm::ExitSucceed`: carries each variant over, one arm each.
#[verifier::external_body]
fn succeed_kind_of(s: ExitSucceed) -> SucceedKind {
    match s {
        ExitSucceed::Stopped => SucceedKind::Stopped,
        ExitSucceed::Returned => SucceedKind::Returned,
        ExitSucceed::Suicided => SucceedKind::Suicided,
    }
}

/// Relies on `evm::ExitError`: carries the variants the adapter's callers
/// distinguish over, one arm each, and folds the rest into `Other`.
#[verifier::external_body]
fn error_kind_of(e: ExitError) -> ErrorKind {
    match e {
        ExitError::OutOfGas => ErrorKind::OutOfGas,
        ExitError::StackUnderflow => ErrorKind::StackUnderflow,
        ExitError::StackOverflow => ErrorKind::StackOverflow,
        ExitError::InvalidJump => ErrorKind::InvalidJump,
        ExitError::DesignatedInvalid => ErrorKind::InvalidOpcode,
        ExitError::InvalidCode(_) => ErrorKind::InvalidOpcode,
        ExitError::CallTooDeep => ErrorKind::CallTooDeep,
        ExitError::CreateCollision => ErrorKind::CreateCollision,
        ExitError::OutOfFund => ErrorKind::OutOfFund,
        _ => ErrorKind::Other,
    }
}

/// Relies on `evm::ExitFatal`: carries each variant over, one arm each.
#[verifier::external_body]
fn fatal_kind_of(f: ExitFatal) -> FatalKind {
    match f {
        ExitFatal::NotSupported => FatalKind::NotSupported,
        ExitFatal::UnhandledInterrupt => FatalKind::UnhandledInterrupt,
        ExitFatal::CallErrorAsFatal(e) => FatalKind::CallErrorAsFatal(error_kind_of(e)),
        ExitFatal::Other(_) => FatalKind::Other,
    }
}

/// Relies on `evm::ExitReason`: tells the four classes apart, one arm each.
#[verifier::external_body]
fn status_of_reason(r: ExitReason) -> ExitStatus {
    match r {
        ExitReason::Succeed(s) => ExitStatus::Succeed(succeed_kind_of(s)),
        ExitReason::Error(e) => ExitStatus::Error(error_kind_of(e)),
        ExitReason::Revert(_) => ExitStatus::Revert,
        ExitReason::Fatal(f) => ExitStatus::Fatal(fatal_kind_of(f)),
    }
}

/// Relies on `evm::backend::MemoryVicinity`: a fixed, all-zero block
/// environment with chain id one, leaked so the engine's borrows of it live
/// for the adapter's whole lifetime.
#[verifier::external_body]
fn static_vicinity() -> &'static MemoryVicinity {
    Box::leak(Box::new(MemoryVicinity {
        gas_price: U256::zero(),
        origin: H160::zero(),
        chain_id: U256::one(),
        block_hashes: Vec::new(),
        block_number: U256::zero(),
        block_coinbase: H160::zero(),
        block_timestamp: U256::zero(),
        block_difficulty: U256::zero(),
        block_gas_limit: U256::zero(),
        block_base_fee_per_gas: U256::zero(),
        block_randomness: None,
    }))
}

/// Relies on `evm::Config::istanbul`: the Istanbul protocol parameters, leaked
/// so the engine's borrows of them live for the adapter's whole lifetime.
#[verifier::external_body]
fn static_config() -> &'static Config {
    Box::leak(Box::new(Config::istanbul()))
}

/// Relies on `evm::backend::MemoryBackend::new`: a store whose only non-empty
/// account is the faucet, holding `faucet_balance`; every other address reads
/// as zero balance, zero nonce and empty code.
#[verifier::external_body]
pub fn vm_new(faucet: Address, faucet_balance: Word) -> (v: Vm)
    ensures
        vm_accounts(v) == crate::types::genesis_accounts(faucet@, faucet_balance@),
{
    let mut genesis: BTreeMap<H160, MemoryAccount> = BTreeMap::new();
    let account = MemoryAccount {
        nonce: U256::zero(),
        balance: u256_of(faucet_balance.hi, faucet_balance.lo),
        storage: BTreeMap::new(),
        code: Vec::new(),
    };
    genesis.insert(h160_of(faucet.hi, faucet.lo), account);
    Vm {
        backend: MemoryBackend::new(static_vicinity(), genesis),
        config: static_config(),
        precompiles: BTreeMap::new(),
    }
}

/// Relies on `evm::executor::stack::StackExecutor::create_address` with the
/// legacy scheme: the created address is derived from the sender and the
/// sender's current nonce alone, read from the unmodified store.
#[verifier::external_body]
pub fn vm_create_address(v: &Vm, from: Address) -> (a: Address)
    ensures
        a@ == legacy_create_address(from@, vm_accounts(*v)[from@].nonce),
{
    let mut backend = v.backend.clone();
    let metadata = StackSubstateMetadata::new(0, v.config);
    let state = MemoryStackState::new(metadata, &mut backend);
    let ex = StackExecutor::new_with_precompiles(state, v.config, &v.precompiles);
    let h = ex.create_address(CreateScheme::Legacy { caller: h160_of(from.hi, from.lo) });
    addr_of_h160(h)
}

/// Relies on `evm::executor::stack::StackExecutor::transact_create`: runs one
/// create transaction against a gasometer seeded with `pool`, then drains the
/// emitted log records and the remaining gas and folds the state changes back
/// into the store. Returns the exit status, the returned data, the drained log
/// payloads, and the gas remaining in the gasometer — the tuple that
/// [`create_result_of`] names; the gasometer never reads above its seed.
#[verifier::external_body]
pub(crate) fn vm_transact_create(
    v: &mut Vm,
    from: Address,
    value: Word,
    init_code: &Vec<u8>,
    pool: u64,
    tx_gas_limit: u64,
) -> (r: (ExitStatus, Vec<u8>, Vec<Vec<u8>>, u64))
    ensures
        r.0 == create_result_of(*old(v), from@, value@, init_code@, pool, tx_gas_limit).0,
        r.1@ == create_result_of(*old(v), from@, value@, init_code@, pool, tx_gas_limit).1,
        r.2.deep_view() == create_result_of(*old(v), from@, value@, init_code@, pool, tx_gas_limit).2,
        r.3 == create_result_of(*old(v), from@, value@, init_code@, pool, tx_gas_limit).3,
        r.3 <= pool,
        vm_accounts(*final(v)) == create_result_of(*old(v), from@, value@, init_code@, pool, tx_gas_limit).4,
{
    let metadata = StackSubstateMetadata::new(pool, v.config);
    let state = MemoryStackState::new(metadata, &mut v.backend);
    let mut ex = StackExecutor::new_with_precompiles(state, v.config, &v.precompiles);
    let (reason, data) = ex.transact_create(h160_of(from.hi, from.lo), u256_of(value.hi, value.lo), init_code.clone(), tx_gas_limit, Vec::new());
    let gas_now = ex.gas();
    let (applies, logs) = ex.into_state().deconstruct();
    let records: Vec<Vec<u8>> = logs.into_iter().map(|l| l.data).collect();
    v.backend.apply(applies, Vec::<Log>::new(), false);
    (status_of_reason(reason), data, records, gas_now)
}

/// Relies on `evm::executor::stack::StackExecutor::transact_call`: runs one
/// call transaction against a gasometer seeded with `pool`, then drains the
/// emitted log records and the remaining gas and folds the state changes back
/// into the store. Returns the exit status, the returned data, the drained log
/// payloads, and the gas remaining in the gasometer — the tuple that
/// [`call_result_of`] names; the gasometer never reads above its seed.
#[verifier::external_body]
pub(crate) fn vm_transact_call(
    v: &mut Vm,
    from: Address,
    to: Address,
    value: Word,
    data: &Vec<u8>,
    pool: u64,
    tx_gas_limit: u64,
) -> (r: (ExitStatus, Vec<u8>, Vec<Vec<u8>>, u64))
    ensures
        r.0 == call_result_of(*old(v), from@, to@, value@, data@, pool, tx_gas_limit).0,
        r.1@ == call_result_of(*old(v), from@, to@, value@, data@, pool, tx_gas_limit).1,
        r.2.deep_view() == call_result_of(*old(v), from@, to@, value@, data@, pool, tx_gas_limit).2,
        r.3 == call_result_of(*old(v), from@, to@, value@, data@, pool, tx_gas_limit).3,
        r.3 <= pool,
        vm_accounts(*final(v)) == call_result_of(*old(v), from@, to@, value@, data@, pool, tx_gas_limit).4,
{
    let metadata = StackSubstateMetadata::new(pool, v.config);
    let state = MemoryStackState::new(metadata, &mut v.backend);
    let mut ex = StackExecutor::new_with_precompiles(state, v.config, &v.precompiles);
    let (reason, out) = ex.transact_call(h160_of(from.hi, from.lo), h160_of(to.hi, to.lo), u256_of(value.hi, value.lo), data.clone(), tx_gas_limit, Vec::new());
    let gas_now = ex.gas();
    let (applies, logs) = ex.into_state().deconstruct();
    let records: Vec<Vec<u8>> = logs.into_iter().map(|l| l.data).collect();
    v.backend.apply(applies, Vec::<Log>::new(), false);
    (status_of_reason(reason), out, records, gas_now)
}

/// Relies on `evm::executor::stack::MemoryStackState::set_code` (through the
/// `StackState` trait): replaces the account's code and touches nothing else
/// of it — the account's balance and nonce are carried over from the store.
#[verifier::external_body]
pub(crate) fn vm_set_code(v: &mut Vm, addr: Address, code: &Vec<u8>)
    ensures
        vm_accounts(*final(v)) == set_code_model(vm_accounts(*old(v)), addr@, code@),
{
    let metadata = StackSubstateMetadata::new(0, v.config);
    let mut state = MemoryStackState::new(metadata, &mut v.backend);
    state.set_code(h160_of(addr.hi, addr.lo), code.clone());
    let (applies, _logs) = state.deconstruct();
    v.backend.apply(applies, Vec::<Log>::new(), false);
}

/// Relies on `evm::executor::stack::MemoryStackState::transfer` (through the
/// `StackState` trait): fails with `OutOfFund`, leaving the store unchanged,
/// exactly when the source's balance is short; otherwise debits the source
/// exactly and credits the target, saturating at the largest word.
#[verifier::external_body]
pub(crate) fn vm_transfer(v: &mut Vm, from: Address, to: Address, value: Word) -> (r: Option<ErrorKind>)
    ensures
        r is None <==> value@ <= vm_accounts(*old(v))[from@].balance,
        r is None ==> vm_accounts(*final(v)) == transfer_model(vm_accounts(*old(v)), from@, to@, value@),
        r is Some ==> vm_accounts(*final(v)) == vm_accounts(*old(v)),
        r is Some ==> r == Some(ErrorKind::OutOfFund),
{
    let metadata = StackSubstateMetadata::new(0, v.config);
    let mut state = MemoryStackState::new(metadata, &mut v.backend);
    let t = Transfer {
        source: h160_of(from.hi, from.lo),
        target: h160_of(to.hi, to.lo),
        value: u256_of(value.hi, value.lo),
    };
    let r = state.transfer(t);
    let (applies, _logs) = state.deconstruct();
    v.backend.apply(applies, Vec::<Log>::new(), false);
    r.err().map(|_| ErrorKind::OutOfFund)
}

/// Relies on `evm::backend::MemoryBackend::basic` (through the `Backend`
/// trait): reads the account's balance from the store; an address the store
/// does not know reads as zero.
#[verifier::external_body]
pub fn vm_balance(v: &Vm, a: Address) -> (w: Word)
    ensures
        w@ == vm_accounts(*v)[a@].balance,
{
    word_of_u256(v.backend.basic(h160_of(a.hi, a.lo)).balance)
}

/// Relies on `evm::backend::MemoryBackend::basic` (through the `Backend`
/// trait): reads the account's nonce from the store; an address the store
/// does not know reads as zero.
#[verifier::external_body]
pub fn vm_nonce(v: &Vm, a: Address) -> (w: Word)
    ensures
        w@ == vm_accounts(*v)[a@].nonce,
{
    word_of_u256(v.backend.basic(h160_of(a.hi, a.lo)).nonce)
}

/// Relies on `evm::backend::MemoryBackend::code` (through the `Backend`
/// trait): reads the account's code from the store; an address the store does
/// not know reads as empty code.
#[verifier::external_body]
pub fn vm_code(v: &Vm, a: Address) -> (c: Vec<u8>)
    ensures
        c@ == vm_accounts(*v)[a@].code,
{
    v.backend.code(h160_of(a.hi, a.lo))
}

/// Relies on `evm::backend::MemoryBackend::storage` (through the `Backend`
/// trait): reads one storage slot of the account; a slot never written reads
/// as zero.
#[verifier::external_body]
pub fn vm_storage(v: &Vm, a: Address, key: Word) -> (w: Word)
    ensures
        w@ == vm_accounts(*v)[a@].storage[key@],
{
    word_of_h256(v.backend.storage(h160_of(a.hi, a.lo), h256_of(key.hi, key.lo)))
}

} // verus!
