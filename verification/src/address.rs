//! Address-to-identity mapping: the pure, total derivation of a native
//! account identity from a 20-byte EVM address.

use vstd::prelude::*;
use crate::hashing::{blake2_256, blake2_256_of};
use crate::types::{AccountId, EvmAddress, copy_bytes};

verus! {

/// The 4-byte ASCII domain-separation tag `"evm:"` that prefixes the hashed
/// derivation.
pub open spec fn evm_tag() -> Seq<u8> {
    seq![101u8, 118u8, 109u8, 58u8]
}

/// Identity bytes under the hashed policy: the BLAKE2b-256 digest of the
/// tag-prefixed address.
pub open spec fn hashed_identity_of(address: Seq<u8>) -> Seq<u8> {
    blake2_256_of(evm_tag() + address)
}

/// Identity bytes that a mapping policy derives from an address.
pub open spec fn mapped_identity(policy: MappingPolicy, address: Seq<u8>) -> Seq<u8> {
    match policy {
        MappingPolicy::Identity => address,
        MappingPolicy::Hashed => hashed_identity_of(address),
    }
}

/// The two address-mapping policies.
#[derive(Clone, Copy, PartialEq, Eq, Structural)]
pub enum MappingPolicy {
    /// Reuse the address bytes verbatim; valid where the native identifier
    /// has the same width as an address.
    Identity,
    /// Derive a 32-byte identity one-way, with domain separation, so that an
    /// EVM actor cannot collide with natively created identities.
    Hashed,
}

/// Identity address mapping.
pub struct IdentityAddressMapping;

impl IdentityAddressMapping {
    /// The address reinterpreted as the native identity.
    pub fn into_account_id(address: &EvmAddress) -> (r: AccountId)
        ensures
            r.bytes@ == mapped_identity(MappingPolicy::Identity, address.bytes@),
    {
        AccountId { bytes: copy_bytes(&address.bytes) }
    }
}

/// Hashed address mapping.
pub struct HashedAddressMapping;

impl HashedAddressMapping {
    /// The BLAKE2b-256 digest of `"evm:"` followed by the address bytes,
    /// reinterpreted as the native identity.
    pub fn into_account_id(address: &EvmAddress) -> (r: AccountId)
        ensures
            r.bytes@ == mapped_identity(MappingPolicy::Hashed, address.bytes@),
            r.bytes@.len() == 32,
    {
        let mut data: Vec<u8> = Vec::new();
        data.push(101u8);
        data.push(118u8);
        data.push(109u8);
        data.push(58u8);
        let mut i: usize = 0;
        while i < address.bytes.len()
            invariant
                i <= address.bytes@.len(),
                data@ =~= evm_tag() + address.bytes@.take(i as int),
            decreases address.bytes@.len() - i,
        {
            data.push(address.bytes[i]);
            i = i + 1;
        }
        proof {
            assert(data@ =~= evm_tag() + address.bytes@);
        }
        let digest = blake2_256(&data);
        AccountId { bytes: digest }
    }
}

/// Derives the native identity of `address` under `policy`.
pub fn map_address(policy: MappingPolicy, address: &EvmAddress) -> (r: AccountId)
    ensures
        r.bytes@ == mapped_identity(policy, address.bytes@),
        policy is Hashed ==> r.bytes@.len() == 32,
{
    match policy {
        MappingPolicy::Identity => IdentityAddressMapping::into_account_id(address),
        MappingPolicy::Hashed => HashedAddressMapping::into_account_id(address),
    }
}

} // verus!
