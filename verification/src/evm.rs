//! The account-state bridge and its dispatch protocol: persisted code and
//! storage tables, the modeled native ledger, and the withdraw / call /
//! create / create2 entry points.

use vstd::prelude::*;
use crate::address::{MappingPolicy, map_address, mapped_identity};
use crate::kvlist::KvList;
use crate::origin::{
    CallOriginPolicy, WithdrawOriginPolicy, call_origin_accepts, check_call_origin,
    check_withdraw_origin, withdraw_origin_accepts, withdraw_origin_destination,
};
use crate::types::{
    Account, CallInfo, CreateInfo, DispatchError, Error, Event, EventView, EvmAddress,
    GenesisAccount, LedgerAccount, RawOrigin, copy_bytes, make_zero_word, sat_add, zero_word,
};

verus! {

/// The event a call outcome gives rise to.
pub open spec fn call_event_view(target: Seq<u8>, info: CallInfo) -> EventView {
    if info.exit_reason.is_succeed() {
        EventView::Executed(target)
    } else {
        EventView::ExecutedFailed(target)
    }
}

/// The event a create or create2 outcome gives rise to; the address is the
/// engine's deterministically derived contract address, kept even on failure.
pub open spec fn create_event_view(info: CreateInfo) -> EventView {
    if info.exit_reason.is_succeed() {
        EventView::Created(info.value.bytes@)
    } else {
        EventView::CreatedFailed(info.value.bytes@)
    }
}

/// The transition an unconditional account removal performs: the address's
/// code entry and every one of its storage slots are cleared, and nothing
/// else changes.
pub open spec fn remove_account_post(pre: Module, post: Module, a: Seq<u8>) -> bool {
    &&& post.same_config(pre)
    &&& post.ledger == pre.ledger
    &&& post.events == pre.events
    &&& post.spec_code(a) == Seq::<u8>::empty()
    &&& forall|k: Seq<u8>| #[trigger] post.spec_storage(a, k) == zero_word()
    &&& forall|a2: Seq<u8>| a2 != a ==> #[trigger] post.spec_code(a2) == pre.spec_code(a2)
    &&& forall|a2: Seq<u8>, k: Seq<u8>|
        a2 != a ==> #[trigger] post.spec_storage(a2, k) == pre.spec_storage(a2, k)
}

/// The bridge: configured policies, the persisted per-address code and
/// storage tables, the modeled native ledger, and the transition event log.
pub struct Module {
    /// Origin policy guarding call, create and create2.
    pub call_origin: CallOriginPolicy,
    /// Origin policy guarding withdraw; its success names the destination.
    pub withdraw_origin: WithdrawOriginPolicy,
    /// The address-to-identity mapping policy.
    pub mapping: MappingPolicy,
    /// Contract bytecode keyed by address bytes.
    pub codes: KvList<Vec<u8>>,
    /// Storage slots keyed by address bytes, then by 32-byte slot key.
    pub storages: KvList<KvList<Vec<u8>>>,
    /// The native ledger's balance and nonce per identity.
    pub ledger: KvList<LedgerAccount>,
    /// The append-only log of observable events.
    pub events: Vec<Event>,
}

impl Module {
    /// Table invariants: distinct keys everywhere, well-formed inner tables.
    pub open spec fn wf(self) -> bool {
        &&& self.codes.wf()
        &&& self.storages.wf()
        &&& self.ledger.wf()
        &&& forall|a: Seq<u8>|
            self.storages.as_map().contains_key(a) ==> (#[trigger] self.storages.as_map()[a]).wf()
    }

    /// The native identity the configured mapping derives from an address.
    pub open spec fn spec_identity(self, a: Seq<u8>) -> Seq<u8> {
        mapped_identity(self.mapping, a)
    }

    /// The native free balance of an identity; zero if unknown.
    pub open spec fn spec_balance(self, id: Seq<u8>) -> u128 {
        if self.ledger.as_map().contains_key(id) {
            self.ledger.as_map()[id].balance
        } else {
            0
        }
    }

    /// The native nonce of an identity; zero if unknown.
    pub open spec fn spec_nonce(self, id: Seq<u8>) -> u64 {
        if self.ledger.as_map().contains_key(id) {
            self.ledger.as_map()[id].nonce
        } else {
            0
        }
    }

    /// The code under an address; empty if absent.
    pub open spec fn spec_code(self, a: Seq<u8>) -> Seq<u8> {
        if self.codes.as_map().contains_key(a) {
            self.codes.as_map()[a]@
        } else {
            Seq::empty()
        }
    }

    /// The storage value under an address and slot key; the canonical zero
    /// word if absent.
    pub open spec fn spec_storage(self, a: Seq<u8>, k: Seq<u8>) -> Seq<u8> {
        if self.storages.as_map().contains_key(a) && self.storages.as_map()[a].as_map().contains_key(
            k,
        ) {
            self.storages.as_map()[a].as_map()[k]@
        } else {
            zero_word()
        }
    }

    /// The mathematical event log.
    pub open spec fn events_view(self) -> Seq<EventView> {
        self.events@.map_values(|e: Event| e@)
    }

    /// An address is empty exactly when its derived nonce and balance are
    /// zero and it has zero-length code.
    pub open spec fn spec_is_empty(self, a: Seq<u8>) -> bool {
        &&& self.spec_nonce(self.spec_identity(a)) == 0
        &&& self.spec_balance(self.spec_identity(a)) == 0
        &&& self.spec_code(a).len() == 0
    }

    /// Two bridge values carry the same configured policies.
    pub open spec fn same_config(self, other: Module) -> bool {
        &&& self.call_origin == other.call_origin
        &&& self.withdraw_origin == other.withdraw_origin
        &&& self.mapping == other.mapping
    }

    /// A fresh bridge: no code, no storage, an empty ledger, no events.
    pub fn new(
        call_origin: CallOriginPolicy,
        withdraw_origin: WithdrawOriginPolicy,
        mapping: MappingPolicy,
    ) -> (r: Module)
        ensures
            r.wf(),
            r.call_origin == call_origin,
            r.withdraw_origin == withdraw_origin,
            r.mapping == mapping,
            forall|a: Seq<u8>| #[trigger] r.spec_code(a) == Seq::<u8>::empty(),
            forall|a: Seq<u8>, k: Seq<u8>| #[trigger] r.spec_storage(a, k) == zero_word(),
            forall|id: Seq<u8>| #[trigger] r.spec_balance(id) == 0,
            forall|id: Seq<u8>| #[trigger] r.spec_nonce(id) == 0,
            r.events_view() == Seq::<EventView>::empty(),
    {
        let r = Module {
            call_origin,
            withdraw_origin,
            mapping,
            codes: KvList::new(),
            storages: KvList::new(),
            ledger: KvList::new(),
            events: Vec::new(),
        };
        proof {
            assert(r.events_view() =~= Seq::<EventView>::empty());
        }
        r
    }

    /// The ledger entry of an identity, defaulting to zero balance and nonce.
    fn ledger_entry(&self, id: &crate::types::AccountId) -> (r: LedgerAccount)
        requires
            self.wf(),
        ensures
            r.balance == self.spec_balance(id.bytes@),
            r.nonce == self.spec_nonce(id.bytes@),
    {
        match self.ledger.get(&id.bytes) {
            Some(acc) => *acc,
            None => LedgerAccount { balance: 0, nonce: 0 },
        }
    }

    /// The native free balance of an identity.
    pub fn free_balance(&self, id: &crate::types::AccountId) -> (r: u128)
        requires
            self.wf(),
        ensures
            r == self.spec_balance(id.bytes@),
    {
        self.ledger_entry(id).balance
    }

    /// The native nonce of an identity.
    pub fn account_nonce(&self, id: &crate::types::AccountId) -> (r: u64)
        requires
            self.wf(),
        ensures
            r == self.spec_nonce(id.bytes@),
    {
        self.ledger_entry(id).nonce
    }

    /// The native ledger's nonce step: saturating increment of an identity's
    /// nonce, leaving everything else untouched.
    pub fn inc_account_nonce(&mut self, id: &crate::types::AccountId)
        requires
            old(self).wf(),
        ensures
            final(self).wf(),
            final(self).same_config(*old(self)),
            final(self).codes == old(self).codes,
            final(self).storages == old(self).storages,
            final(self).events == old(self).events,
            final(self).spec_nonce(id.bytes@) == (if old(self).spec_nonce(id.bytes@) == u64::MAX {
                u64::MAX
            } else {
                (old(self).spec_nonce(id.bytes@) + 1) as u64
            }),
            final(self).spec_balance(id.bytes@) == old(self).spec_balance(id.bytes@),
            forall|j: Seq<u8>|
                j != id.bytes@ ==> #[trigger] final(self).spec_balance(j) == old(self).spec_balance(
                    j,
                ) && final(self).spec_nonce(j) == old(self).spec_nonce(j),
    {
        let entry = self.ledger_entry(id);
        let new_nonce: u64 = if entry.nonce == u64::MAX {
            u64::MAX
        } else {
            entry.nonce + 1
        };
        self.ledger.insert(
            copy_bytes(&id.bytes),
            LedgerAccount { balance: entry.balance, nonce: new_nonce },
        );
    }

    /// A supply-creating deposit: saturating credit of an identity's balance,
    /// leaving everything else untouched. A strictly positive deposit leaves
    /// no address mapping to this identity empty.
    pub fn deposit_creating(&mut self, id: &crate::types::AccountId, amount: u128)
        requires
            old(self).wf(),
        ensures
            final(self).wf(),
            final(self).same_config(*old(self)),
            final(self).codes == old(self).codes,
            final(self).storages == old(self).storages,
            final(self).events == old(self).events,
            final(self).spec_balance(id.bytes@) == sat_add(
                old(self).spec_balance(id.bytes@),
                amount,
            ),
            final(self).spec_nonce(id.bytes@) == old(self).spec_nonce(id.bytes@),
            forall|j: Seq<u8>|
                j != id.bytes@ ==> #[trigger] final(self).spec_balance(j) == old(self).spec_balance(
                    j,
                ) && final(self).spec_nonce(j) == old(self).spec_nonce(j),
            amount > 0 ==> forall|a: Seq<u8>|
                old(self).spec_identity(a) == id.bytes@ ==> !(#[trigger] final(self).spec_is_empty(a)),
    {
        let entry = self.ledger_entry(id);
        let new_balance: u128 = if amount > u128::MAX - entry.balance {
            u128::MAX
        } else {
            entry.balance + amount
        };
        self.ledger.insert(
            copy_bytes(&id.bytes),
            LedgerAccount { balance: new_balance, nonce: entry.nonce },
        );
    }

    /// The native currency transfer: moves `value` from `from` to `to`,
    /// failing without any change when the free balance is too low or the
    /// destination balance would overflow.
    pub fn transfer(
        &mut self,
        from: &crate::types::AccountId,
        to: &crate::types::AccountId,
        value: u128,
    ) -> (r: Result<(), Error>)
        requires
            old(self).wf(),
        ensures
            final(self).wf(),
            final(self).same_config(*old(self)),
            final(self).codes == old(self).codes,
            final(self).storages == old(self).storages,
            final(self).events == old(self).events,
            r is Ok <==> old(self).spec_balance(from.bytes@) >= value && (from.bytes@ == to.bytes@
                || old(self).spec_balance(to.bytes@) + value <= u128::MAX),
            old(self).spec_balance(from.bytes@) < value ==> r == Result::<(), Error>::Err(
                Error::BalanceLow,
            ),
            old(self).spec_balance(from.bytes@) >= value && from.bytes@ != to.bytes@ && old(self).spec_balance(to.bytes@) + value > u128::MAX ==> r == Result::<(), Error>::Err(
                Error::PaymentOverflow,
            ),
            r is Err ==> final(self).ledger == old(self).ledger,
            r is Ok && from.bytes@ == to.bytes@ ==> final(self).ledger == old(self).ledger,
            r is Ok && from.bytes@ != to.bytes@ ==> final(self).spec_balance(from.bytes@) == old(self).spec_balance(from.bytes@) - value && final(self).spec_balance(to.bytes@) == old(self).spec_balance(to.bytes@) + value && forall|j: Seq<u8>|
                j != from.bytes@ && j != to.bytes@ ==> #[trigger] final(self).spec_balance(j) == old(self).spec_balance(j),
            forall|j: Seq<u8>| #[trigger] final(self).spec_nonce(j) == old(self).spec_nonce(j),
    {
        let from_entry = self.ledger_entry(from);
        if from_entry.balance < value {
            return Err(Error::BalanceLow);
        }
        if bytes_eq_ids(from, to) {
            return Ok(());
        }
        let to_entry = self.ledger_entry(to);
        if value > u128::MAX - to_entry.balance {
            return Err(Error::PaymentOverflow);
        }
        self.ledger.insert(
            copy_bytes(&from.bytes),
            LedgerAccount { balance: from_entry.balance - value, nonce: from_entry.nonce },
        );
        self.ledger.insert(
            copy_bytes(&to.bytes),
            LedgerAccount { balance: to_entry.balance + value, nonce: to_entry.nonce },
        );
        Ok(())
    }

    /// The code stored under an address; empty bytes if absent.
    pub fn account_codes(&self, address: &EvmAddress) -> (r: Vec<u8>)
        requires
            self.wf(),
        ensures
            r@ == self.spec_code(address.bytes@),
    {
        match self.codes.get(&address.bytes) {
            Some(c) => copy_bytes(c),
            None => Vec::new(),
        }
    }

    /// The stored code's length, without materializing the code.
    pub fn code_length(&self, address: &EvmAddress) -> (r: usize)
        requires
            self.wf(),
        ensures
            r == self.spec_code(address.bytes@).len(),
    {
        match self.codes.get(&address.bytes) {
            Some(c) => c.len(),
            None => 0,
        }
    }

    /// The storage value under an address and 32-byte slot key; the
    /// canonical zero word if absent.
    pub fn account_storages(&self, address: &EvmAddress, key: &Vec<u8>) -> (r: Vec<u8>)
        requires
            self.wf(),
        ensures
            r@ == self.spec_storage(address.bytes@, key@),
    {
        match self.storages.get(&address.bytes) {
            Some(inner) => {
                proof {
                    assert(self.storages.as_map().contains_key(address.bytes@));
                }
                match inner.get(key) {
                    Some(v) => copy_bytes(v),
                    None => make_zero_word(),
                }
            },
            None => make_zero_word(),
        }
    }

    /// Stores `code` under `address`, touching nothing else. Nonempty code
    /// leaves the address nonempty.
    pub fn set_code(&mut self, address: &EvmAddress, code: Vec<u8>)
        requires
            old(self).wf(),
        ensures
            final(self).wf(),
            final(self).same_config(*old(self)),
            final(self).storages == old(self).storages,
            final(self).ledger == old(self).ledger,
            final(self).events == old(self).events,
            final(self).spec_code(address.bytes@) == code@,
            forall|a: Seq<u8>|
                a != address.bytes@ ==> #[trigger] final(self).spec_code(a) == old(self).spec_code(
                    a,
                ),
            code@.len() > 0 ==> !final(self).spec_is_empty(address.bytes@),
    {
        self.codes.insert(copy_bytes(&address.bytes), code);
    }

    /// Stores `value` under `address` and the 32-byte slot `key`, touching
    /// nothing else.
    pub fn set_storage(&mut self, address: &EvmAddress, key: Vec<u8>, value: Vec<u8>)
        requires
            old(self).wf(),
        ensures
            final(self).wf(),
            final(self).same_config(*old(self)),
            final(self).codes == old(self).codes,
            final(self).ledger == old(self).ledger,
            final(self).events == old(self).events,
            final(self).spec_storage(address.bytes@, key@) == value@,
            forall|a: Seq<u8>, k: Seq<u8>|
                !(a == address.bytes@ && k == key@) ==> #[trigger] final(self).spec_storage(a, k)
                    == old(self).spec_storage(a, k),
    {
        let mut inner: KvList<Vec<u8>> = match self.storages.take(&address.bytes) {
            Some(m) => m,
            None => KvList::new(),
        };
        proof {
            if old(self).storages.as_map().contains_key(address.bytes@) {
                assert(old(self).storages.as_map()[address.bytes@].wf());
            }
        }
        inner.insert(key, value);
        self.storages.insert(copy_bytes(&address.bytes), inner);
        proof {
            assert(final(self).storages.as_map() =~= old(self).storages.as_map().insert(
                address.bytes@,
                inner,
            ));
            assert forall|a: Seq<u8>|
                final(self).storages.as_map().contains_key(a) implies (#[trigger] final(self).storages.as_map()[a]).wf() by {
                if a != address.bytes@ {
                    assert(old(self).storages.as_map()[a].wf());
                }
            }
        }
    }

    /// Clears the code entry and every storage slot of `address`, touching
    /// nothing else. Where the mapped identity's nonce and balance are zero,
    /// the address is empty afterwards.
    pub fn remove_account(&mut self, address: &EvmAddress)
        requires
            old(self).wf(),
        ensures
            final(self).wf(),
            remove_account_post(*old(self), *final(self), address.bytes@),
            old(self).spec_nonce(old(self).spec_identity(address.bytes@)) == 0 && old(self).spec_balance(old(self).spec_identity(address.bytes@)) == 0 ==> final(self).spec_is_empty(address.bytes@),
    {
        self.codes.remove_key(&address.bytes);
        self.storages.remove_key(&address.bytes);
    }

    /// The synthesized EVM-side view of an address's account: the mapped
    /// identity's nonce and balance, widened exactly into the 256-bit fields.
    pub fn account_basic(&self, address: &EvmAddress) -> (r: Account)
        requires
            self.wf(),
        ensures
            r.nonce == self.spec_nonce(self.spec_identity(address.bytes@)) as u128,
            r.balance == self.spec_balance(self.spec_identity(address.bytes@)),
    {
        let id = map_address(self.mapping, address);
        let entry = self.ledger_entry(&id);
        Account { nonce: entry.nonce as u128, balance: entry.balance }
    }

    /// Whether an address is empty: zero derived nonce, zero derived
    /// balance, zero-length code.
    pub fn is_account_empty(&self, address: &EvmAddress) -> (r: bool)
        requires
            self.wf(),
        ensures
            r == self.spec_is_empty(address.bytes@),
    {
        let account = self.account_basic(address);
        let code_len = self.code_length(address);
        account.nonce == 0 && account.balance == 0 && code_len == 0
    }

    /// Removes the account if it is empty; an empty address stays empty, a
    /// nonempty one is left entirely untouched.
    pub fn remove_account_if_empty(&mut self, address: &EvmAddress)
        requires
            old(self).wf(),
        ensures
            final(self).wf(),
            !old(self).spec_is_empty(address.bytes@) ==> *final(self) == *old(self),
            old(self).spec_is_empty(address.bytes@) ==> final(self).same_config(*old(self))
                && final(self).ledger == old(self).ledger && final(self).events == old(self).events
                && final(self).spec_code(address.bytes@) == Seq::<u8>::empty() && (forall|
                k: Seq<u8>,
            | #[trigger]
                final(self).spec_storage(address.bytes@, k) == zero_word()) && (forall|a: Seq<u8>|
                a != address.bytes@ ==> #[trigger] final(self).spec_code(a) == old(self).spec_code(
                    a,
                )) && (forall|a: Seq<u8>, k: Seq<u8>|
                a != address.bytes@ ==> #[trigger] final(self).spec_storage(a, k) == old(self).spec_storage(a, k)) && final(self).spec_is_empty(address.bytes@),
    {
        if self.is_account_empty(address) {
            self.remove_account(address);
        }
    }
}

impl Module {
    /// Withdraws `value` from the EVM address into the native account the
    /// withdraw-origin policy yields. Authorization or transfer failure
    /// aborts before any effect; success moves native balance and emits no
    /// event of its own.
    pub fn withdraw(&mut self, origin: RawOrigin, address: &EvmAddress, value: u128) -> (r: Result<
        (),
        DispatchError,
    >)
        requires
            old(self).wf(),
            address.wf(),
        ensures
            final(self).wf(),
            final(self).same_config(*old(self)),
            final(self).codes == old(self).codes,
            final(self).storages == old(self).storages,
            final(self).events == old(self).events,
            !withdraw_origin_accepts(old(self).withdraw_origin, address.bytes@, origin) ==> r
                == Result::<(), DispatchError>::Err(DispatchError::BadOrigin) && final(self).ledger
                == old(self).ledger,
            withdraw_origin_accepts(old(self).withdraw_origin, address.bytes@, origin) ==> {
                let src = old(self).spec_identity(address.bytes@);
                let dst = withdraw_origin_destination(
                    old(self).withdraw_origin,
                    address.bytes@,
                    origin,
                );
                &&& (r is Ok <==> old(self).spec_balance(src) >= value && (src == dst || old(self).spec_balance(dst) + value <= u128::MAX))
                &&& old(self).spec_balance(src) < value ==> r == Result::<(), DispatchError>::Err(
                    DispatchError::Module(Error::BalanceLow),
                )
                &&& old(self).spec_balance(src) >= value && src != dst && old(self).spec_balance(
                    dst,
                ) + value > u128::MAX ==> r == Result::<(), DispatchError>::Err(
                    DispatchError::Module(Error::PaymentOverflow),
                )
                &&& r is Err ==> final(self).ledger == old(self).ledger
                &&& r is Ok && src == dst ==> final(self).ledger == old(self).ledger
                &&& r is Ok && src != dst ==> final(self).spec_balance(src) == old(self).spec_balance(src) - value && final(self).spec_balance(dst) == old(self).spec_balance(dst) + value && forall|j: Seq<u8>|
                    j != src && j != dst ==> #[trigger] final(self).spec_balance(j) == old(self).spec_balance(j)
            },
            forall|j: Seq<u8>| #[trigger] final(self).spec_nonce(j) == old(self).spec_nonce(j),
    {
        let destination = match check_withdraw_origin(self.withdraw_origin, address, origin) {
            Ok(who) => who,
            Err(_) => {
                return Err(DispatchError::BadOrigin);
            },
        };
        let address_account_id = map_address(self.mapping, address);
        match self.transfer(&address_account_id, &destination, value) {
            Ok(u) => Ok(u),
            Err(e) => Err(DispatchError::Module(e)),
        }
    }

    /// Issues an EVM call: authorizes the source, then classifies the
    /// engine's outcome into exactly one `Executed` or `ExecutedFailed`
    /// event. A rejected origin or an engine-level dispatch error leaves the
    /// bridge entirely unchanged.
    pub fn call(
        &mut self,
        origin: RawOrigin,
        source: &EvmAddress,
        target: &EvmAddress,
        _input: Vec<u8>,
        _value: u128,
        _gas_limit: u64,
        outcome: Result<CallInfo, DispatchError>,
    ) -> (r: Result<(), DispatchError>)
        requires
            old(self).wf(),
            source.wf(),
        ensures
            final(self).wf(),
            final(self).same_config(*old(self)),
            final(self).codes == old(self).codes,
            final(self).storages == old(self).storages,
            final(self).ledger == old(self).ledger,
            !call_origin_accepts(old(self).call_origin, source.bytes@, origin) ==> r
                == Result::<(), DispatchError>::Err(DispatchError::BadOrigin) && *final(self)
                == *old(self),
            call_origin_accepts(old(self).call_origin, source.bytes@, origin) ==> match outcome {
                Result::Err(e) => r == Result::<(), DispatchError>::Err(e) && *final(self) == *old(self),
                Result::Ok(info) => r is Ok && final(self).events_view() == old(self).events_view().push(call_event_view(target.bytes@, info)),
            },
    {
        match check_call_origin(self.call_origin, source, origin) {
            Ok(_) => (),
            Err(_) => {
                return Err(DispatchError::BadOrigin);
            },
        }
        match outcome {
            Err(e) => Err(e),
            Ok(info) => {
                let event = match info.exit_reason {
                    crate::types::ExitReason::Succeed(_) => Event::Executed(
                        EvmAddress { bytes: copy_bytes(&target.bytes) },
                    ),
                    _ => Event::ExecutedFailed(EvmAddress { bytes: copy_bytes(&target.bytes) }),
                };
                self.events.push(event);
                proof {
                    assert(final(self).events_view() =~= old(self).events_view().push(
                        call_event_view(target.bytes@, info),
                    ));
                }
                Ok(())
            },
        }
    }

    /// Issues an EVM create: authorizes the source, then classifies the
    /// engine's outcome into exactly one `Created` or `CreatedFailed` event
    /// carrying the engine's deterministically derived contract address,
    /// present even on failure.
    pub fn create(
        &mut self,
        origin: RawOrigin,
        source: &EvmAddress,
        _init: Vec<u8>,
        _value: u128,
        _gas_limit: u64,
        outcome: Result<CreateInfo, DispatchError>,
    ) -> (r: Result<(), DispatchError>)
        requires
            old(self).wf(),
            source.wf(),
        ensures
            final(self).wf(),
            final(self).same_config(*old(self)),
            final(self).codes == old(self).codes,
            final(self).storages == old(self).storages,
            final(self).ledger == old(self).ledger,
            !call_origin_accepts(old(self).call_origin, source.bytes@, origin) ==> r
                == Result::<(), DispatchError>::Err(DispatchError::BadOrigin) && *final(self)
                == *old(self),
            call_origin_accepts(old(self).call_origin, source.bytes@, origin) ==> match outcome {
                Result::Err(e) => r == Result::<(), DispatchError>::Err(e) && *final(self) == *old(self),
                Result::Ok(info) => r is Ok && final(self).events_view() == old(self).events_view().push(create_event_view(info)),
            },
    {
        match check_call_origin(self.call_origin, source, origin) {
            Ok(_) => (),
            Err(_) => {
                return Err(DispatchError::BadOrigin);
            },
        }
        self.apply_create_outcome(outcome)
    }

    /// Issues an EVM create2; the salt only feeds the engine's address
    /// derivation, so authorization and classification match `create`.
    pub fn create2(
        &mut self,
        origin: RawOrigin,
        source: &EvmAddress,
        _init: Vec<u8>,
        _salt: Vec<u8>,
        _value: u128,
        _gas_limit: u64,
        outcome: Result<CreateInfo, DispatchError>,
    ) -> (r: Result<(), DispatchError>)
        requires
            old(self).wf(),
            source.wf(),
        ensures
            final(self).wf(),
            final(self).same_config(*old(self)),
            final(self).codes == old(self).codes,
            final(self).storages == old(self).storages,
            final(self).ledger == old(self).ledger,
            !call_origin_accepts(old(self).call_origin, source.bytes@, origin) ==> r
                == Result::<(), DispatchError>::Err(DispatchError::BadOrigin) && *final(self)
                == *old(self),
            call_origin_accepts(old(self).call_origin, source.bytes@, origin) ==> match outcome {
                Result::Err(e) => r == Result::<(), DispatchError>::Err(e) && *final(self) == *old(self),
                Result::Ok(info) => r is Ok && final(self).events_view() == old(self).events_view().push(create_event_view(info)),
            },
    {
        match check_call_origin(self.call_origin, source, origin) {
            Ok(_) => (),
            Err(_) => {
                return Err(DispatchError::BadOrigin);
            },
        }
        self.apply_create_outcome(outcome)
    }

    /// Classifies a create-family outcome into its event.
    fn apply_create_outcome(&mut self, outcome: Result<CreateInfo, DispatchError>) -> (r: Result<
        (),
        DispatchError,
    >)
        requires
            old(self).wf(),
        ensures
            final(self).wf(),
            final(self).same_config(*old(self)),
            final(self).codes == old(self).codes,
            final(self).storages == old(self).storages,
            final(self).ledger == old(self).ledger,
            match outcome {
                Result::Err(e) => r == Result::<(), DispatchError>::Err(e) && *final(self) == *old(self),
                Result::Ok(info) => r is Ok && final(self).events_view() == old(self).events_view().push(create_event_view(info)),
            },
    {
        match outcome {
            Err(e) => Err(e),
            Ok(info) => {
                let succeeded = match info.exit_reason {
                    crate::types::ExitReason::Succeed(_) => true,
                    _ => false,
                };
                let created = EvmAddress { bytes: copy_bytes(&info.value.bytes) };
                let event = if succeeded {
                    Event::Created(created)
                } else {
                    Event::CreatedFailed(created)
                };
                self.events.push(event);
                proof {
                    assert(final(self).events_view() =~= old(self).events_view().push(
                        create_event_view(info),
                    ));
                }
                Ok(())
            },
        }
    }
}

impl Module {
    /// Applies one genesis record: credits the balance by a supply-creating
    /// deposit, stores the code, and stores every storage entry. Mirroring
    /// the source ledger, the record's nonce is deliberately not applied:
    /// the native nonce counter stays untouched.
    pub fn apply_genesis_account(&mut self, address: &EvmAddress, account: &GenesisAccount)
        requires
            old(self).wf(),
            account.wf(),
        ensures
            final(self).wf(),
            final(self).same_config(*old(self)),
            final(self).events == old(self).events,
            final(self).spec_code(address.bytes@) == account.code@,
            forall|a: Seq<u8>|
                a != address.bytes@ ==> #[trigger] final(self).spec_code(a) == old(self).spec_code(
                    a,
                ),
            forall|k: Seq<u8>|
                match account.storage_value(k) {
                    Option::Some(v) => #[trigger] final(self).spec_storage(address.bytes@, k) == v,
                    Option::None => final(self).spec_storage(address.bytes@, k) == old(self).spec_storage(address.bytes@, k),
                },
            forall|a: Seq<u8>, k: Seq<u8>|
                a != address.bytes@ ==> #[trigger] final(self).spec_storage(a, k) == old(self).spec_storage(a, k),
            final(self).spec_balance(old(self).spec_identity(address.bytes@)) == sat_add(
                old(self).spec_balance(old(self).spec_identity(address.bytes@)),
                account.balance,
            ),
            forall|j: Seq<u8>|
                j != old(self).spec_identity(address.bytes@) ==> #[trigger] final(self).spec_balance(j) == old(self).spec_balance(j),
            forall|j: Seq<u8>| #[trigger] final(self).spec_nonce(j) == old(self).spec_nonce(j),
    {
        let account_id = map_address(self.mapping, address);
        self.deposit_creating(&account_id, account.balance);
        let ghost after_deposit = *self;
        self.set_code(address, copy_bytes(&account.code));
        let ghost pre = *self;
        let mut i: usize = 0;
        while i < account.storage.len()
            invariant
                self.wf(),
                account.wf(),
                i <= account.storage@.len(),
                self.same_config(pre),
                self.codes == pre.codes,
                self.ledger == pre.ledger,
                self.events == pre.events,
                forall|t: int|
                    0 <= t < i ==> #[trigger] self.spec_storage(
                        address.bytes@,
                        account.storage@[t].0@,
                    ) == account.storage@[t].1@,
                forall|k: Seq<u8>|
                    (forall|t: int| 0 <= t < i ==> (#[trigger] account.storage@[t]).0@ != k)
                        ==> #[trigger] self.spec_storage(address.bytes@, k) == pre.spec_storage(
                        address.bytes@,
                        k,
                    ),
                forall|a: Seq<u8>, k: Seq<u8>|
                    a != address.bytes@ ==> #[trigger] self.spec_storage(a, k) == pre.spec_storage(
                        a,
                        k,
                    ),
            decreases account.storage@.len() - i,
        {
            let entry = &account.storage[i];
            self.set_storage(address, copy_bytes(&entry.0), copy_bytes(&entry.1));
            i = i + 1;
        }
        proof {
            assert forall|k: Seq<u8>| true implies match account.storage_value(k) {
                Option::Some(v) => #[trigger] final(self).spec_storage(address.bytes@, k) == v,
                Option::None => final(self).spec_storage(address.bytes@, k) == pre.spec_storage(
                    address.bytes@,
                    k,
                ),
            } by {
                if account.storage_value(k) is Some {
                    let c = choose|t: int|
                        0 <= t < account.storage@.len() && (#[trigger] account.storage@[t]).0@ == k;
                    assert(self.spec_storage(address.bytes@, account.storage@[c].0@)
                        == account.storage@[c].1@);
                } else {
                    assert forall|t: int|
                        0 <= t < account.storage@.len() implies (#[trigger] account.storage@[t]).0@
                        != k by {}
                }
            }
            assert forall|a: Seq<u8>| a != address.bytes@ implies #[trigger] final(self).spec_code(
                a,
            ) == old(self).spec_code(a) by {
                assert(final(self).spec_code(a) == pre.spec_code(a));
                assert(pre.spec_code(a) == after_deposit.spec_code(a));
                assert(after_deposit.spec_code(a) == old(self).spec_code(a));
            }
            assert forall|j: Seq<u8>| j != old(self).spec_identity(address.bytes@) implies #[trigger] final(self).spec_balance(j) == old(self).spec_balance(j) by {
                assert(final(self).spec_balance(j) == after_deposit.spec_balance(j));
                assert(after_deposit.spec_balance(j) == old(self).spec_balance(j));
            }
            assert forall|j: Seq<u8>| true implies #[trigger] final(self).spec_nonce(j) == old(self).spec_nonce(j) by {
                assert(final(self).spec_nonce(j) == after_deposit.spec_nonce(j));
                if j != account_id.bytes@ {
                    assert(after_deposit.spec_balance(j) == old(self).spec_balance(j));
                }
                assert(after_deposit.spec_nonce(j) == old(self).spec_nonce(j));
            }
        }
    }

    /// Loads the genesis configuration: applies every record once, in list
    /// order. Records carry pairwise-distinct addresses whose mapped
    /// identities are pairwise distinct too (each mapping policy is
    /// injective by construction), so no record disturbs another and the
    /// outcome is order-independent. Nonces are deliberately not applied.
    pub fn load_genesis(&mut self, accounts: &Vec<(EvmAddress, GenesisAccount)>)
        requires
            old(self).wf(),
            forall|t: int|
                0 <= t < accounts@.len() ==> (#[trigger] accounts@[t]).1.wf(),
            forall|p: int, q: int|
                0 <= p < q < accounts@.len() ==> (#[trigger] accounts@[p]).0.bytes@
                    != (#[trigger] accounts@[q]).0.bytes@,
            forall|p: int, q: int|
                0 <= p < q < accounts@.len() ==> mapped_identity(
                    old(self).mapping,
                    (#[trigger] accounts@[p]).0.bytes@,
                ) != mapped_identity(old(self).mapping, (#[trigger] accounts@[q]).0.bytes@),
        ensures
            final(self).wf(),
            final(self).same_config(*old(self)),
            final(self).events == old(self).events,
            forall|t: int|
                0 <= t < accounts@.len() ==> #[trigger] final(self).spec_code(
                    accounts@[t].0.bytes@,
                ) == accounts@[t].1.code@,
            forall|a: Seq<u8>|
                (forall|t: int| 0 <= t < accounts@.len() ==> (#[trigger] accounts@[t]).0.bytes@
                    != a) ==> #[trigger] final(self).spec_code(a) == old(self).spec_code(a),
            forall|t: int, k: Seq<u8>|
                0 <= t < accounts@.len() ==> match accounts@[t].1.storage_value(k) {
                    Option::Some(v) => #[trigger] final(self).spec_storage(
                        accounts@[t].0.bytes@,
                        k,
                    ) == v,
                    Option::None => final(self).spec_storage(accounts@[t].0.bytes@, k) == old(self).spec_storage(accounts@[t].0.bytes@, k),
                },
            forall|a: Seq<u8>, k: Seq<u8>|
                (forall|t: int| 0 <= t < accounts@.len() ==> (#[trigger] accounts@[t]).0.bytes@
                    != a) ==> #[trigger] final(self).spec_storage(a, k) == old(self).spec_storage(
                    a,
                    k,
                ),
            forall|t: int|
                0 <= t < accounts@.len() ==> #[trigger] final(self).spec_balance(
                    mapped_identity(old(self).mapping, accounts@[t].0.bytes@),
                ) == sat_add(
                    old(self).spec_balance(
                        mapped_identity(old(self).mapping, accounts@[t].0.bytes@),
                    ),
                    accounts@[t].1.balance,
                ),
            forall|j: Seq<u8>|
                (forall|t: int|
                    0 <= t < accounts@.len() ==> mapped_identity(
                        old(self).mapping,
                        (#[trigger] accounts@[t]).0.bytes@,
                    ) != j) ==> #[trigger] final(self).spec_balance(j) == old(self).spec_balance(j),
            forall|j: Seq<u8>| #[trigger] final(self).spec_nonce(j) == old(self).spec_nonce(j),
    {
        let ghost orig = *old(self);
        let mut i: usize = 0;
        while i < accounts.len()
            invariant
                self.wf(),
                i <= accounts@.len(),
                self.same_config(orig),
                self.events == orig.events,
                forall|t: int|
                    0 <= t < accounts@.len() ==> (#[trigger] accounts@[t]).1.wf(),
                forall|p: int, q: int|
                    0 <= p < q < accounts@.len() ==> (#[trigger] accounts@[p]).0.bytes@
                        != (#[trigger] accounts@[q]).0.bytes@,
                forall|p: int, q: int|
                    0 <= p < q < accounts@.len() ==> mapped_identity(
                        orig.mapping,
                        (#[trigger] accounts@[p]).0.bytes@,
                    ) != mapped_identity(orig.mapping, (#[trigger] accounts@[q]).0.bytes@),
                forall|t: int|
                    0 <= t < i ==> #[trigger] self.spec_code(accounts@[t].0.bytes@)
                        == accounts@[t].1.code@,
                forall|a: Seq<u8>|
                    (forall|t: int| 0 <= t < i ==> (#[trigger] accounts@[t]).0.bytes@ != a)
                        ==> #[trigger] self.spec_code(a) == orig.spec_code(a),
                forall|t: int, k: Seq<u8>|
                    0 <= t < i ==> match accounts@[t].1.storage_value(k) {
                        Option::Some(v) => #[trigger] self.spec_storage(
                            accounts@[t].0.bytes@,
                            k,
                        ) == v,
                        Option::None => self.spec_storage(accounts@[t].0.bytes@, k)
                            == orig.spec_storage(accounts@[t].0.bytes@, k),
                    },
                forall|a: Seq<u8>, k: Seq<u8>|
                    (forall|t: int| 0 <= t < i ==> (#[trigger] accounts@[t]).0.bytes@ != a)
                        ==> #[trigger] self.spec_storage(a, k) == orig.spec_storage(a, k),
                forall|t: int|
                    0 <= t < i ==> #[trigger] self.spec_balance(
                        mapped_identity(orig.mapping, accounts@[t].0.bytes@),
                    ) == sat_add(
                        orig.spec_balance(mapped_identity(orig.mapping, accounts@[t].0.bytes@)),
                        accounts@[t].1.balance,
                    ),
                forall|j: Seq<u8>|
                    (forall|t: int|
                        0 <= t < i ==> mapped_identity(
                            orig.mapping,
                            (#[trigger] accounts@[t]).0.bytes@,
                        ) != j) ==> #[trigger] self.spec_balance(j) == orig.spec_balance(j),
                forall|j: Seq<u8>| #[trigger] self.spec_nonce(j) == orig.spec_nonce(j),
            decreases accounts@.len() - i,
        {
            let entry = &accounts[i];
            self.apply_genesis_account(&entry.0, &entry.1);
            i = i + 1;
        }
    }
}

/// Byte equality of two native identities.
fn bytes_eq_ids(a: &crate::types::AccountId, b: &crate::types::AccountId) -> (r: bool)
    ensures
        r == (a.bytes@ == b.bytes@),
{
    crate::types::bytes_eq(&a.bytes, &b.bytes)
}

} // verus!
