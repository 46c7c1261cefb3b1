//! Plain-valued models of the quantities that flow through the adapter:
//! 160-bit addresses, 256-bit unsigned words, exit statuses, and the
//! mathematical view of an account.

use vstd::prelude::*;

verus! {

/// A 160-bit account address, stored as a high 32-bit limb and a low 128-bit limb.
#[derive(Clone, Copy, PartialEq, Eq, Structural, Debug)]
pub struct Address {
    pub hi: u32,
    pub lo: u128,
}

impl View for Address {
    type V = nat;

    /// The mathematical value of the address: below `2^160`.
    open spec fn view(&self) -> nat {
        (self.hi as nat) * 0x1_0000_0000_0000_0000_0000_0000_0000_0000nat + self.lo as nat
    }
}

/// A 256-bit unsigned word (balances, transferred value), stored as two 128-bit limbs.
#[derive(Clone, Copy, PartialEq, Eq, Structural, Debug)]
pub struct Word {
    pub hi: u128,
    pub lo: u128,
}

impl View for Word {
    type V = nat;

    /// The mathematical value of the word: below `2^256`.
    open spec fn view(&self) -> nat {
        (self.hi as nat) * 0x1_0000_0000_0000_0000_0000_0000_0000_0000nat + self.lo as nat
    }
}

/// `2^256`, the number of distinct 256-bit words.
pub open spec fn word_bound() -> nat {
    0x1_0000_0000_0000_0000_0000_0000_0000_0000_0000_0000_0000_0000_0000_0000_0000_0000nat
}

impl Word {
    /// The word holding a small (64-bit) value.
    pub fn from_u64(x: u64) -> (w: Word)
        ensures
            w@ == x,
    {
        Word { hi: 0, lo: x as u128 }
    }

    /// The largest 256-bit word, `2^256 - 1`.
    pub fn max() -> (w: Word)
        ensures
            w@ == word_bound() - 1,
    {
        Word { hi: u128::MAX, lo: u128::MAX }
    }

}

/// The intrinsic base cost of any transaction, in gas units: the fixed
/// minimum charge the adapter subtracts when it reports net gas used.
pub const TX_BASE_COST: u64 = 21000;

/// The privileged faucet account that `set_balance` draws from: the address
/// `2^160 - 1`, which no ordinary key controls.
pub const FAUCET_HI: u32 = 0xffff_ffff;

/// Low limb of the faucet address.
pub const FAUCET_LO: u128 = 0xffff_ffff_ffff_ffff_ffff_ffff_ffff_ffff;

/// The faucet's address value, `2^160 - 1`.
pub open spec fn faucet_addr() -> nat {
    (FAUCET_HI as nat) * 0x1_0000_0000_0000_0000_0000_0000_0000_0000nat + FAUCET_LO as nat
}

/// The faucet account's address as a value.
pub fn faucet_account() -> (a: Address)
    ensures
        a@ == faucet_addr(),
{
    Address { hi: FAUCET_HI, lo: FAUCET_LO }
}

/// How a successful execution ended.
#[derive(Clone, Copy, PartialEq, Eq, Structural, Debug)]
pub enum SucceedKind {
    /// Execution ran off the end of the code or hit a stop instruction.
    Stopped,
    /// Execution returned data explicitly.
    Returned,
    /// The executing contract destroyed itself.
    Suicided,
}

/// Why the engine could not complete a transaction.
#[derive(Clone, Copy, PartialEq, Eq, Structural, Debug)]
pub enum ErrorKind {
    /// The gas given to the transaction ran out.
    OutOfGas,
    /// An operation found too few operands on the stack.
    StackUnderflow,
    /// The stack grew past its limit.
    StackOverflow,
    /// A jump landed outside the valid jump destinations.
    InvalidJump,
    /// The designated invalid opcode was executed.
    InvalidOpcode,
    /// A call or create was nested too deeply.
    CallTooDeep,
    /// A create targeted an address that already holds code.
    CreateCollision,
    /// A value transfer exceeded the source account's balance.
    OutOfFund,
    /// Any other engine-reported error.
    Other,
}

/// Why the engine aborted fatally.
#[derive(Clone, Copy, PartialEq, Eq, Structural, Debug)]
pub enum FatalKind {
    /// The engine does not support the requested operation.
    NotSupported,
    /// An interrupt reached the top level unhandled.
    UnhandledInterrupt,
    /// An error was escalated to a fatal abort.
    CallErrorAsFatal(ErrorKind),
    /// Any other fatal condition.
    Other,
}

/// The exit status of one transaction: the adapter classifies `Succeed` as
/// success and everything else — revert, error, fatal — as failure, while
/// keeping the fine-grained detail for the caller to inspect.
#[derive(Clone, Copy, PartialEq, Eq, Structural, Debug)]
pub enum ExitStatus {
    /// The transaction completed.
    Succeed(SucceedKind),
    /// The contract aborted explicitly, optionally leaving reason bytes in the
    /// returned data.
    Revert,
    /// The engine could not complete the transaction.
    Error(ErrorKind),
    /// The engine aborted fatally.
    Fatal(FatalKind),
}

/// A status counts as success exactly when the transaction completed.
pub open spec fn is_success_spec(s: ExitStatus) -> bool {
    s is Succeed
}

/// A status counts as failure exactly when it is not a success.
pub open spec fn is_fail_spec(s: ExitStatus) -> bool {
    !is_success_spec(s)
}

/// The mathematical view of one account: its balance and nonce as unbounded
/// naturals, its code as a byte sequence, and its storage as a total map from
/// 256-bit keys to 256-bit values (unwritten slots read as zero).
pub ghost struct AccountModel {
    pub balance: nat,
    pub nonce: nat,
    pub code: Seq<u8>,
    pub storage: Map<nat, nat>,
}

/// The storage every account starts with: zero in every slot.
pub open spec fn empty_storage() -> Map<nat, nat> {
    Map::total(|k: nat| 0nat)
}

/// The account state at genesis: empty everywhere, except that the faucet
/// address holds `faucet_balance`.
pub open spec fn genesis_accounts(faucet: nat, faucet_balance: nat) -> Map<nat, AccountModel> {
    Map::total(
        |a: nat|
            AccountModel {
                balance: if a == faucet {
                    faucet_balance
                } else {
                    0
                },
                nonce: 0,
                code: Seq::empty(),
                storage: empty_storage(),
            },
    )
}

/// Addition of two word values that saturates at the largest 256-bit word,
/// as the engine credits balances.
pub open spec fn sat_add_word(a: nat, b: nat) -> nat {
    if a + b < word_bound() {
        a + b
    } else {
        (word_bound() - 1) as nat
    }
}

/// Subtraction that floors at zero instead of wrapping.
pub open spec fn sat_sub(a: int, b: int) -> int {
    if a >= b {
        a - b
    } else {
        0
    }
}

/// Saturating subtraction never produces a negative quantity, whatever its
/// inputs — the defensive clamp behind the adapter's gas accounting.
pub proof fn lemma_sat_sub_nonneg(a: int, b: int)
    ensures
        sat_sub(a, b) >= 0,
{
}

} // verus!
