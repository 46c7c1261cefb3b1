//! The executor adapter: owns one engine instance and a configured gas limit,
//! and exposes the transaction-execution operations — deploy, raw call,
//! faucet funding, code seeding, reset — together with the two pure
//! success/failure classifiers.

use vstd::prelude::*;

use crate::types::{faucet_account, faucet_addr, genesis_accounts, is_fail_spec, is_success_spec,
    sat_sub, word_bound, AccountModel, Address, ErrorKind, ExitStatus, Word, TX_BASE_COST};
use crate::vm::{call_result_of, create_result_of, legacy_create_address, set_code_model,
    transfer_model, vm_balance, vm_code, vm_create_address, vm_new, vm_nonce, vm_set_code,
    vm_storage, vm_transact_call, vm_transact_create, vm_transfer, vm_accounts, Vm};

verus! {

/// The accounts reachable after seeding every `(address, code)` entry in
/// order: each entry replaces that account's code and touches nothing else.
pub open spec fn apply_seeds(m: Map<nat, AccountModel>, entries: Seq<(nat, Seq<u8>)>) -> Map<
    nat,
    AccountModel,
>
    decreases entries.len(),
{
    if entries.len() == 0 {
        m
    } else {
        apply_seeds(set_code_model(m, entries[0].0, entries[0].1), entries.drop_first())
    }
}

/// The mathematical view of a seeding list: each entry as its address value
/// and code bytes.
pub open spec fn seeds_view(s: Seq<(Address, Vec<u8>)>) -> Seq<(nat, Seq<u8>)> {
    s.map_values(|e: (Address, Vec<u8>)| (e.0@, e.1@))
}

/// Seeding one more entry at the end seeds the prefix first and then that
/// entry.
proof fn lemma_apply_seeds_push(
    m: Map<nat, AccountModel>,
    entries: Seq<(nat, Seq<u8>)>,
    x: (nat, Seq<u8>),
)
    ensures
        apply_seeds(m, entries.push(x)) == set_code_model(apply_seeds(m, entries), x.0, x.1),
    decreases entries.len(),
{
    let s = entries.push(x);
    if entries.len() == 0 {
        assert(s[0] == x);
        assert(s.drop_first() =~= Seq::<(nat, Seq<u8>)>::empty());
        assert(apply_seeds(m, s) == apply_seeds(set_code_model(m, s[0].0, s[0].1), s.drop_first()));
        assert(apply_seeds(set_code_model(m, x.0, x.1), s.drop_first()) == set_code_model(m, x.0, x.1));
        assert(apply_seeds(m, entries) == m);
    } else {
        assert(s[0] == entries[0]);
        assert(s.drop_first() =~= entries.drop_first().push(x));
        assert(apply_seeds(m, s) == apply_seeds(set_code_model(m, s[0].0, s[0].1), s.drop_first()));
        lemma_apply_seeds_push(set_code_model(m, entries[0].0, entries[0].1), entries.drop_first(), x);
        assert(apply_seeds(m, entries) == apply_seeds(
            set_code_model(m, entries[0].0, entries[0].1),
            entries.drop_first(),
        ));
    }
}

/// The executor adapter: one engine instance, the configured per-transaction
/// gas limit, and the gas remaining in the engine's gasometer.
pub struct Executor {
    /// The owned engine instance.
    pub vm: Vm,
    /// The gas limit handed to every transaction.
    pub gas_limit: u64,
    /// The gas remaining in the engine's gasometer; starts at `gas_limit` and
    /// shrinks as transactions consume gas.
    pub gas_left: u64,
}

impl Executor {
    /// The adapter's view of every account the engine holds.
    pub open spec fn accounts(self) -> Map<nat, AccountModel> {
        vm_accounts(self.vm)
    }

    /// What a create transaction from this adapter state produces: the exit
    /// status, the returned data, the log records it emits, the gas left in
    /// the pool, and the account store afterwards.
    pub open spec fn create_outcome(self, from: Address, calldata: Seq<u8>, value: Word) -> (
        ExitStatus,
        Seq<u8>,
        Seq<Seq<u8>>,
        u64,
        Map<nat, AccountModel>,
    ) {
        create_result_of(self.vm, from@, value@, calldata, self.gas_left, self.gas_limit)
    }

    /// What a call transaction from this adapter state produces: the exit
    /// status, the returned data, the log records it emits, the gas left in
    /// the pool, and the account store afterwards. The advisory static flag is
    /// no argument here: the outcome does not depend on it.
    pub open spec fn call_outcome(self, from: Address, to: Address, calldata: Seq<u8>, value: Word) -> (
        ExitStatus,
        Seq<u8>,
        Seq<Seq<u8>>,
        u64,
        Map<nat, AccountModel>,
    ) {
        call_result_of(self.vm, from@, to@, value@, calldata, self.gas_left, self.gas_limit)
    }

    /// Wraps an already-built engine instance with the given gas limit.
    pub fn from_executor(executor: Vm, gas_limit: u64) -> (e: Executor)
        ensures
            e.vm == executor,
            e.gas_limit == gas_limit,
            e.gas_left == gas_limit,
    {
        Executor { vm: executor, gas_limit, gas_left: gas_limit }
    }

    /// Builds an adapter over a fresh engine whose only funded account is the
    /// faucet, holding `faucet_balance`.
    pub fn new(gas_limit: u64, faucet_balance: Word) -> (e: Executor)
        ensures
            e.accounts() == genesis_accounts(faucet_addr(), faucet_balance@),
            e.gas_limit == gas_limit,
            e.gas_left == gas_limit,
    {
        Executor::from_executor(vm_new(faucet_account(), faucet_balance), gas_limit)
    }

    /// The canonical plain revert status.
    pub fn revert() -> (s: ExitStatus)
        ensures
            s == ExitStatus::Revert,
    {
        ExitStatus::Revert
    }

    /// A status classifies as success exactly when the transaction completed.
    pub fn is_success(reason: &ExitStatus) -> (b: bool)
        ensures
            b == is_success_spec(*reason),
    {
        matches!(reason, ExitStatus::Succeed(_))
    }

    /// A status classifies as failure exactly when it is not a success:
    /// reverts, errors and fatal aborts all fail.
    pub fn is_fail(reason: &ExitStatus) -> (b: bool)
        ensures
            b == is_fail_spec(*reason),
    {
        !Executor::is_success(reason)
    }

    /// Replaces the owned engine wholesale, in one assignment: every prior
    /// account mutation is discarded in favour of the caller-supplied engine,
    /// and the gas pool fills back to the configured limit.
    pub fn reset(&mut self, vm: Vm)
        ensures
            final(self).vm == vm,
            final(self).gas_limit == old(self).gas_limit,
            final(self).gas_left == old(self).gas_limit,
    {
        self.vm = vm;
        self.gas_left = self.gas_limit;
    }

    /// Resets to a fresh genesis: afterwards only the faucet is funded, with
    /// `faucet_balance`, and the gas pool is full again.
    pub fn reset_genesis(&mut self, faucet_balance: Word)
        ensures
            final(self).accounts() == genesis_accounts(faucet_addr(), faucet_balance@),
            final(self).gas_limit == old(self).gas_limit,
            final(self).gas_left == old(self).gas_limit,
    {
        self.reset(vm_new(faucet_account(), faucet_balance));
    }

    /// Seeds contract code directly, without a deployment transaction: each
    /// entry in order replaces that account's code, charging no gas and
    /// leaving every balance and nonce as it was.
    pub fn initialize_contracts(&mut self, contracts: &Vec<(Address, Vec<u8>)>)
        ensures
            final(self).accounts() == apply_seeds(old(self).accounts(), seeds_view(contracts@)),
            final(self).gas_limit == old(self).gas_limit,
            final(self).gas_left == old(self).gas_left,
    {
        let ghost m0 = self.accounts();
        let ghost sv = seeds_view(contracts@);
        let ghost limit0 = self.gas_limit;
        let ghost left0 = self.gas_left;
        let mut i: usize = 0;
        while i < contracts.len()
            invariant
                i <= contracts.len(),
                sv == seeds_view(contracts@),
                self.gas_limit == limit0,
                self.gas_left == left0,
                self.accounts() == apply_seeds(m0, sv.take(i as int)),
            decreases contracts.len() - i,
        {
            let entry = &contracts[i];
            proof {
                assert(sv[i as int] == (entry.0@, entry.1@));
                assert(sv.take(i as int).push(sv[i as int]) =~= sv.take(i + 1));
                lemma_apply_seeds_push(m0, sv.take(i as int), sv[i as int]);
            }
            vm_set_code(&mut self.vm, entry.0, &entry.1);
            i = i + 1;
        }
        proof {
            assert(sv.take(contracts.len() as int) =~= sv);
        }
    }

    /// Funds `address` by transferring `balance` out of the faucet account —
    /// a real transfer, so every credit has a matching debit. Fails with
    /// `OutOfFund`, changing nothing, exactly when the faucet's balance is
    /// short.
    pub fn set_balance(&mut self, address: Address, balance: Word) -> (r: Result<(), ErrorKind>)
        ensures
            r is Ok <==> balance@ <= old(self).accounts()[faucet_addr()].balance,
            r is Ok ==> final(self).accounts() == transfer_model(
                old(self).accounts(),
                faucet_addr(),
                address@,
                balance@,
            ),
            r is Err ==> final(self).accounts() == old(self).accounts() && r == Err::<
                (),
                ErrorKind,
            >(ErrorKind::OutOfFund),
            final(self).gas_limit == old(self).gas_limit,
            final(self).gas_left == old(self).gas_left,
    {
        let faucet = faucet_account();
        match vm_transfer(&mut self.vm, faucet, address, balance) {
            None => Ok(()),
            Some(e) => Err(e),
        }
    }

    /// The address a create transaction by `from` would deploy to now: the
    /// engine's legacy derivation from the sender and the sender's current
    /// nonce.
    pub fn create_address(&self, from: Address) -> (a: Address)
        ensures
            a@ == legacy_create_address(from@, self.accounts()[from@].nonce),
    {
        vm_create_address(&self.vm, from)
    }

    /// Executes a create transaction with the adapter's gas limit. Succeeds
    /// exactly when the engine's outcome for this state and input is a
    /// success, and then returns the created address — precomputed from the
    /// sender's nonce before the transaction could advance it — with the
    /// engine's status, the net gas used (gas drained from the pool less the
    /// intrinsic base cost, floored at zero), and exactly the log records this
    /// transaction emitted. On any non-success outcome returns the engine's
    /// status as the error instead, detail preserved.
    pub fn deploy(&mut self, from: Address, calldata: Vec<u8>, value: Word) -> (r: Result<
        (Address, ExitStatus, u64, Vec<Vec<u8>>),
        ExitStatus,
    >)
        ensures
            final(self).gas_limit == old(self).gas_limit,
            final(self).gas_left == old(self).create_outcome(from, calldata@, value).3,
            final(self).accounts() == old(self).create_outcome(from, calldata@, value).4,
            r is Ok <==> is_success_spec(old(self).create_outcome(from, calldata@, value).0),
            match r {
                Ok(out) => {
                    &&& out.0@ == legacy_create_address(from@, old(self).accounts()[from@].nonce)
                    &&& out.1 == old(self).create_outcome(from, calldata@, value).0
                    &&& out.2 as int == sat_sub(
                        sat_sub(old(self).gas_left as int, final(self).gas_left as int),
                        TX_BASE_COST as int,
                    )
                    &&& out.3.deep_view() == old(self).create_outcome(from, calldata@, value).2
                },
                Err(status) => {
                    &&& status == old(self).create_outcome(from, calldata@, value).0
                    &&& is_fail_spec(status)
                },
            },
    {
        let gas_before = self.gas_left;
        let address = vm_create_address(&self.vm, from);
        let (status, _retdata, logs, gas_now) = vm_transact_create(
            &mut self.vm,
            from,
            value,
            &calldata,
            self.gas_left,
            self.gas_limit,
        );
        self.gas_left = gas_now;
        let gas = gas_sat_sub(gas_sat_sub(gas_before, gas_now), TX_BASE_COST);
        if Executor::is_fail(&status) {
            Err(status)
        } else {
            Ok((address, status, gas, logs))
        }
    }

    /// Executes a call transaction with the adapter's gas limit and returns,
    /// success or not, exactly the engine's outcome for this state and input:
    /// the returned data (the revert reason bytes, when the contract gave
    /// one), the status, the net gas used (drained gas less the intrinsic
    /// base cost, floored at zero), and the log records this transaction
    /// emitted. `_is_static` is advisory to higher-level dispatch and enforces
    /// nothing here: the specified outcome takes no account of it, so two
    /// calls differing only in the flag produce the same result and state.
    pub fn call_raw(
        &mut self,
        from: Address,
        to: Address,
        calldata: Vec<u8>,
        value: Word,
        _is_static: bool,
    ) -> (r: Result<(Vec<u8>, ExitStatus, u64, Vec<Vec<u8>>), ExitStatus>)
        ensures
            final(self).gas_limit == old(self).gas_limit,
            final(self).gas_left == old(self).call_outcome(from, to, calldata@, value).3,
            final(self).accounts() == old(self).call_outcome(from, to, calldata@, value).4,
            r is Ok,
            match r {
                Ok(out) => {
                    &&& out.0@ == old(self).call_outcome(from, to, calldata@, value).1
                    &&& out.1 == old(self).call_outcome(from, to, calldata@, value).0
                    &&& out.2 as int == sat_sub(
                        sat_sub(old(self).gas_left as int, final(self).gas_left as int),
                        TX_BASE_COST as int,
                    )
                    &&& out.3.deep_view() == old(self).call_outcome(from, to, calldata@, value).2
                },
                Err(_) => false,
            },
    {
        let gas_before = self.gas_left;
        let (status, retdata, logs, gas_now) = vm_transact_call(
            &mut self.vm,
            from,
            to,
            value,
            &calldata,
            self.gas_left,
            self.gas_limit,
        );
        self.gas_left = gas_now;
        let gas = gas_sat_sub(gas_sat_sub(gas_before, gas_now), TX_BASE_COST);
        Ok((retdata, status, gas, logs))
    }

    /// Reads an account's balance from the engine's state.
    pub fn balance_of(&self, address: Address) -> (w: Word)
        ensures
            w@ == self.accounts()[address@].balance,
    {
        vm_balance(&self.vm, address)
    }

    /// Reads an account's nonce from the engine's state.
    pub fn nonce_of(&self, address: Address) -> (w: Word)
        ensures
            w@ == self.accounts()[address@].nonce,
    {
        vm_nonce(&self.vm, address)
    }

    /// Reads an account's code from the engine's state.
    pub fn code_of(&self, address: Address) -> (c: Vec<u8>)
        ensures
            c@ == self.accounts()[address@].code,
    {
        vm_code(&self.vm, address)
    }

    /// Reads one storage slot of an account from the engine's state.
    pub fn storage_of(&self, address: Address, key: Word) -> (w: Word)
        ensures
            w@ == self.accounts()[address@].storage[key@],
    {
        vm_storage(&self.vm, address, key)
    }
}

/// Net gas used never goes negative: subtraction saturates at zero.
fn gas_sat_sub(a: u64, b: u64) -> (r: u64)
    ensures
        r as int == sat_sub(a as int, b as int),
{
    if a >= b {
        a - b
    } else {
        0
    }
}

/// Success and failure are complementary: every status value is exactly one
/// of the two.
pub proof fn lemma_success_fail_complement(s: ExitStatus)
    ensures
        is_fail_spec(s) <==> !is_success_spec(s),
{
}

/// Funding conserves value: when the faucet can cover the amount and the
/// target does not overflow, the target gains exactly what the source loses,
/// and every other account is untouched.
pub proof fn lemma_funding_conservation(m: Map<nat, AccountModel>, from: nat, to: nat, v: nat)
    requires
        from != to,
        v <= m[from].balance,
        m[to].balance + v < word_bound(),
    ensures
        transfer_model(m, from, to, v)[to].balance == m[to].balance + v,
        transfer_model(m, from, to, v)[from].balance == m[from].balance - v,
        forall|a: nat|
            a != from && a != to ==> transfer_model(m, from, to, v)[a] == m[a],
{
}

/// Seeding code is not a transaction: however many entries are seeded, every
/// account keeps its balance and its nonce.
pub proof fn lemma_seeding_preserves_balance_and_nonce(
    m: Map<nat, AccountModel>,
    entries: Seq<(nat, Seq<u8>)>,
    a: nat,
)
    ensures
        apply_seeds(m, entries)[a].balance == m[a].balance,
        apply_seeds(m, entries)[a].nonce == m[a].nonce,
    decreases entries.len(),
{
    if entries.len() > 0 {
        lemma_seeding_preserves_balance_and_nonce(
            set_code_model(m, entries[0].0, entries[0].1),
            entries.drop_first(),
            a,
        );
    }
}

} // verus!
