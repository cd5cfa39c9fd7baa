//! Laws the bridge guarantees across its operations, stated and proved over
//! the same spec functions the operations' own contracts use.

use vstd::prelude::*;
use crate::address::{MappingPolicy, mapped_identity};
use crate::evm::{Module, create_event_view, remove_account_post};
use crate::types::{CreateInfo, EventView, zero_word};

verus! {

/// Address mapping is deterministic: under any one policy, equal addresses
/// derive equal native identities.
pub proof fn lemma_mapping_deterministic(policy: MappingPolicy, a: Seq<u8>, b: Seq<u8>)
    requires
        a == b,
    ensures
        mapped_identity(policy, a) == mapped_identity(policy, b),
{
}

/// The identity policy is collision-free: distinct addresses derive
/// distinct native identities.
pub proof fn lemma_identity_mapping_injective(a: Seq<u8>, b: Seq<u8>)
    requires
        a != b,
    ensures
        mapped_identity(MappingPolicy::Identity, a) != mapped_identity(MappingPolicy::Identity, b),
{
}

/// After an unconditional account removal, reading the code yields empty
/// bytes and reading any storage slot yields the canonical zero value.
pub proof fn lemma_remove_then_read(pre: Module, post: Module, a: Seq<u8>, k: Seq<u8>)
    requires
        remove_account_post(pre, post, a),
    ensures
        post.spec_code(a) == Seq::<u8>::empty(),
        post.spec_storage(a, k) == zero_word(),
{
}

/// Removal leaves an address empty whenever its mapped identity held zero
/// balance and zero nonce, and touches no other address's code or storage.
pub proof fn lemma_remove_makes_empty(pre: Module, post: Module, a: Seq<u8>)
    requires
        remove_account_post(pre, post, a),
        pre.spec_nonce(pre.spec_identity(a)) == 0,
        pre.spec_balance(pre.spec_identity(a)) == 0,
    ensures
        post.spec_is_empty(a),
{
    assert(post.ledger == pre.ledger);
}

/// The address carried by the event of a create-family outcome is the
/// engine's deterministically derived contract address, whatever the exit
/// status: a failed create names the same address an otherwise identical
/// successful one would.
pub proof fn lemma_create_event_address(info_failed: CreateInfo, info_succeeded: CreateInfo)
    requires
        info_failed.value.bytes@ == info_succeeded.value.bytes@,
    ensures
        create_event_address(create_event_view(info_failed)) == create_event_address(
            create_event_view(info_succeeded),
        ),
        create_event_address(create_event_view(info_failed)) == info_failed.value.bytes@,
{
}

/// The address a create-family event names.
pub open spec fn create_event_address(e: EventView) -> Seq<u8> {
    match e {
        EventView::Created(a) => a,
        EventView::CreatedFailed(a) => a,
        _ => Seq::empty(),
    }
}

} // verus!
