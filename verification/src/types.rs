//! Plain data model: addresses, native identities, engine outcomes, events
//! and the error taxonomy of the bridge.

use vstd::prelude::*;

verus! {

/// A 20-byte EVM-visible account address, held as raw bytes.
#[derive(Clone)]
pub struct EvmAddress {
    pub bytes: Vec<u8>,
}

impl EvmAddress {
    /// Well-formed addresses hold exactly 20 bytes.
    pub open spec fn wf(self) -> bool {
        self.bytes@.len() == 20
    }
}

/// The native ledger's own account identifier, produced from an `EvmAddress`
/// by an address-mapping policy: 20 bytes under the identity policy, 32 bytes
/// under the hashed policy.
#[derive(Clone)]
pub struct AccountId {
    pub bytes: Vec<u8>,
}

/// The calling principal of a dispatch, as the host ledger presents it:
/// the superuser origin, a single signed account, or no origin at all.
#[derive(Clone)]
pub enum RawOrigin {
    Root,
    Signed(AccountId),
    NoOrigin,
}

/// Origin-check failure: the caller may not act on the given address.
pub struct BadOrigin;

/// Balance and nonce of one native ledger account.
#[derive(Clone, Copy)]
pub struct LedgerAccount {
    pub balance: u128,
    pub nonce: u64,
}

/// The synthesized EVM-side account view, derived at read time from the
/// native ledger. Native balances and nonces are at most 128 bits wide, so
/// widening them into the EVM's 256-bit fields is exact; `u128` therefore
/// represents the widened values without loss.
pub struct Account {
    pub nonce: u128,
    pub balance: u128,
}

/// Module-level failure kinds surfaced to the ledger.
#[derive(Clone, Copy, Debug, PartialEq, Eq, Structural)]
pub enum Error {
    /// Not enough balance to perform the action.
    BalanceLow,
    /// Calculating the total fee overflowed.
    FeeOverflow,
    /// Calculating the total payment overflowed.
    PaymentOverflow,
    /// Withdrawing the fee failed.
    WithdrawFailed,
    /// The gas price is too low.
    GasPriceTooLow,
    /// The nonce is invalid.
    InvalidNonce,
}

/// A dispatch-level failure: a rejected origin, one of this module's own
/// errors, or an error the execution engine reports as its own.
#[derive(Clone, Copy, Debug, PartialEq, Eq, Structural)]
pub enum DispatchError {
    BadOrigin,
    Module(Error),
    Other,
}

/// Success reasons of the engine's terminal status.
#[derive(Clone, Copy, Debug, PartialEq, Eq, Structural)]
pub enum ExitSucceed {
    Stopped,
    Returned,
    Suicided,
}

/// Revert reasons of the engine's terminal status.
#[derive(Clone, Copy, Debug, PartialEq, Eq, Structural)]
pub enum ExitRevert {
    Reverted,
}

/// Error reasons of the engine's terminal status.
#[derive(Clone, Copy, Debug, PartialEq, Eq, Structural)]
pub enum ExitError {
    OutOfGas,
    Other,
}

/// Fatal reasons of the engine's terminal status.
#[derive(Clone, Copy, Debug, PartialEq, Eq, Structural)]
pub enum ExitFatal {
    Other,
}

/// The engine's terminal classification of one execution.
#[derive(Clone, Copy, Debug, PartialEq, Eq, Structural)]
pub enum ExitReason {
    Succeed(ExitSucceed),
    Revert(ExitRevert),
    Error(ExitError),
    Fatal(ExitFatal),
}

impl ExitReason {
    /// True exactly for the `Succeed` variants.
    pub open spec fn is_succeed(self) -> bool {
        self is Succeed
    }
}

/// An Ethereum-style log entry produced by contract code.
pub struct Log {
    pub address: EvmAddress,
    pub topics: Vec<Vec<u8>>,
    pub data: Vec<u8>,
}

/// What the engine reports for a `call` execution.
pub struct CallInfo {
    pub exit_reason: ExitReason,
    pub output: Vec<u8>,
    pub used_gas: u128,
}

/// What the engine reports for a `create` or `create2` execution. The
/// `value` field is the deterministically derived contract address, present
/// whether or not the execution succeeded.
pub struct CreateInfo {
    pub exit_reason: ExitReason,
    pub value: EvmAddress,
    pub used_gas: u128,
}

/// Mathematical image of a `Log` entry.
pub struct LogView {
    pub address: Seq<u8>,
    pub topics: Seq<Seq<u8>>,
    pub data: Seq<u8>,
}

/// Mathematical image of an `Event`, used by all contracts over the log.
pub enum EventView {
    Log(LogView),
    Created(Seq<u8>),
    CreatedFailed(Seq<u8>),
    Executed(Seq<u8>),
    ExecutedFailed(Seq<u8>),
    BalanceDeposit(Seq<u8>, Seq<u8>, u128),
    BalanceWithdraw(Seq<u8>, Seq<u8>, u128),
}

/// Observable events of the bridge, appended to the transition log.
pub enum Event {
    /// An Ethereum log emitted by contract code.
    Log(Log),
    /// A contract has been created at the given address.
    Created(EvmAddress),
    /// A contract creation was attempted but the execution failed.
    CreatedFailed(EvmAddress),
    /// A contract has been executed successfully with its state applied.
    Executed(EvmAddress),
    /// A contract has been executed with errors; its state changes were
    /// reverted, with only gas fees applied.
    ExecutedFailed(EvmAddress),
    /// A deposit has been made at a given address: sender, address, value.
    BalanceDeposit(AccountId, EvmAddress, u128),
    /// A withdrawal has been made from a given address: sender, address, value.
    BalanceWithdraw(AccountId, EvmAddress, u128),
}

impl View for Event {
    type V = EventView;

    open spec fn view(&self) -> EventView {
        match self {
            Event::Log(l) => EventView::Log(LogView {
                address: l.address.bytes@,
                topics: l.topics@.map_values(|t: Vec<u8>| t@),
                data: l.data@,
            }),
            Event::Created(a) => EventView::Created(a.bytes@),
            Event::CreatedFailed(a) => EventView::CreatedFailed(a.bytes@),
            Event::Executed(a) => EventView::Executed(a.bytes@),
            Event::ExecutedFailed(a) => EventView::ExecutedFailed(a.bytes@),
            Event::BalanceDeposit(s, a, v) => EventView::BalanceDeposit(s.bytes@, a.bytes@, *v),
            Event::BalanceWithdraw(s, a, v) => EventView::BalanceWithdraw(s.bytes@, a.bytes@, *v),
        }
    }
}

/// One genesis record: the initial balance, nonce, storage entries and code
/// of a single address, applied once at chain start.
pub struct GenesisAccount {
    /// Account nonce. Mirroring the source ledger, genesis loading leaves the
    /// native nonce counter untouched; the field is carried but not applied.
    pub nonce: u64,
    /// Account balance, credited by a supply-creating deposit.
    pub balance: u128,
    /// Full account storage, as 32-byte key / 32-byte value entries.
    pub storage: Vec<(Vec<u8>, Vec<u8>)>,
    /// Account code.
    pub code: Vec<u8>,
}

impl GenesisAccount {
    /// Storage entries carry 32-byte keys and values, pairwise distinct keys.
    pub open spec fn wf(self) -> bool {
        &&& forall|i: int|
            0 <= i < self.storage@.len() ==> (#[trigger] self.storage@[i]).0@.len() == 32
                && self.storage@[i].1@.len() == 32
        &&& forall|i: int, j: int|
            0 <= i < j < self.storage@.len() ==> self.storage@[i].0@ != self.storage@[j].0@
    }

    /// The value this record assigns to storage key `k`, if any.
    pub open spec fn storage_value(self, k: Seq<u8>) -> Option<Seq<u8>> {
        if exists|i: int| 0 <= i < self.storage@.len() && (#[trigger] self.storage@[i]).0@ == k {
            let i = choose|i: int|
                0 <= i < self.storage@.len() && (#[trigger] self.storage@[i]).0@ == k;
            Some(self.storage@[i].1@)
        } else {
            None
        }
    }
}

/// The canonical 32-byte zero word: the value of every absent storage slot.
pub open spec fn zero_word() -> Seq<u8> {
    Seq::new(32, |i: int| 0u8)
}

/// Saturating addition on 128-bit balances, the semantics of a
/// supply-creating deposit.
pub open spec fn sat_add(a: u128, b: u128) -> u128 {
    if a + b > u128::MAX {
        u128::MAX
    } else {
        (a + b) as u128
    }
}

/// Builds the canonical 32-byte zero value.
pub fn make_zero_word() -> (r: Vec<u8>)
    ensures
        r@ == zero_word(),
{
    let mut r: Vec<u8> = Vec::new();
    let mut i: usize = 0;
    while i < 32
        invariant
            i <= 32,
            r@ =~= Seq::new(i as nat, |j: int| 0u8),
        decreases 32 - i,
    {
        r.push(0u8);
        i = i + 1;
    }
    proof {
        assert(r@ =~= zero_word());
    }
    r
}

/// Copies a byte vector.
pub fn copy_bytes(v: &Vec<u8>) -> (r: Vec<u8>)
    ensures
        r@ == v@,
{
    let mut r: Vec<u8> = Vec::new();
    let mut i: usize = 0;
    while i < v.len()
        invariant
            i <= v@.len(),
            r@ =~= v@.take(i as int),
        decreases v@.len() - i,
    {
        r.push(v[i]);
        i = i + 1;
    }
    proof {
        assert(r@ =~= v@);
    }
    r
}

/// The chain identifier this deployment exposes to EVM contracts. The host
/// environment supplies the value once at construction; `get` hands it back
/// unchanged.
pub struct SystemChainId {
    pub id: u64,
}

impl SystemChainId {
    /// The configured chain identifier.
    pub fn get(&self) -> (r: u64)
        ensures
            r == self.id,
    {
        self.id
    }
}

/// Byte-for-byte equality of two byte vectors.
pub fn bytes_eq(a: &Vec<u8>, b: &Vec<u8>) -> (r: bool)
    ensures
        r == (a@ == b@),
{
    if a.len() != b.len() {
        proof {
            assert(a@ != b@);
        }
        return false;
    }
    let mut i: usize = 0;
    while i < a.len()
        invariant
            i <= a@.len(),
            a@.len() == b@.len(),
            forall|j: int| 0 <= j < i ==> a@[j] == b@[j],
        decreases a@.len() - i,
    {
        if a[i] != b[i] {
            proof {
                assert(a@ != b@);
            }
            return false;
        }
        i = i + 1;
    }
    proof {
        assert(a@ =~= b@);
    }
    true
}

} // verus!
