use evm_bridge::address::{HashedAddressMapping, IdentityAddressMapping, MappingPolicy, map_address};
use evm_bridge::origin::{
    CallOriginPolicy, EnsureAddressNever, EnsureAddressRoot, EnsureAddressTruncated,
    check_call_origin,
};
use evm_bridge::types::{AccountId, EvmAddress, RawOrigin, SystemChainId};

fn addr(b: u8) -> EvmAddress {
    EvmAddress { bytes: vec![b; 20] }
}

#[test]
fn identity_mapping_reuses_address_bytes() {
    let a = addr(0x11);
    let id = IdentityAddressMapping::into_account_id(&a);
    assert_eq!(id.bytes, vec![0x11; 20]);
}

#[test]
fn hashed_mapping_is_deterministic() {
    let a = addr(0x22);
    let id1 = HashedAddressMapping::into_account_id(&a);
    let id2 = HashedAddressMapping::into_account_id(&addr(0x22));
    assert_eq!(id1.bytes, id2.bytes);
}

#[test]
fn hashed_mapping_distinct_addresses_differ() {
    let id1 = HashedAddressMapping::into_account_id(&addr(0x01));
    let id2 = HashedAddressMapping::into_account_id(&addr(0x02));
    assert_ne!(id1.bytes, id2.bytes);
    let mut one_bit = vec![0x01; 20];
    one_bit[19] = 0x03;
    let id3 = HashedAddressMapping::into_account_id(&EvmAddress { bytes: one_bit });
    assert_ne!(id1.bytes, id3.bytes);
}

#[test]
fn hashed_mapping_digest_is_32_bytes_and_not_the_input() {
    let a = addr(0x33);
    let id = HashedAddressMapping::into_account_id(&a);
    assert_eq!(id.bytes.len(), 32);
    // the digest is not the tag-prefixed input buffer handed to the hash
    let mut buffer = b"evm:".to_vec();
    buffer.extend_from_slice(&[0x33; 20]);
    assert_ne!(id.bytes, buffer);
    assert_ne!(&id.bytes[..20], &a.bytes[..]);
}

#[test]
fn map_address_follows_the_policy() {
    let a = addr(0x44);
    assert_eq!(
        map_address(MappingPolicy::Identity, &a).bytes,
        IdentityAddressMapping::into_account_id(&a).bytes
    );
    assert_eq!(
        map_address(MappingPolicy::Hashed, &a).bytes,
        HashedAddressMapping::into_account_id(&a).bytes
    );
}

#[test]
fn truncated_guard_accepts_matching_prefix() {
    // signed principal with native identity 0xAA..AA; the address carries
    // its first 20 bytes
    let signer = AccountId { bytes: vec![0xAA; 32] };
    let address = addr(0xAA);
    let r = EnsureAddressTruncated::ensure_address_origin(&address, RawOrigin::Signed(signer));
    match r {
        Ok(who) => assert_eq!(who.bytes, vec![0xAA; 32]),
        Err(_) => panic!("matching prefix must be authorized"),
    }
}

#[test]
fn truncated_guard_rejects_mismatched_prefix() {
    let signer = AccountId { bytes: vec![0xBB; 32] };
    let address = addr(0xAA);
    let r = EnsureAddressTruncated::ensure_address_origin(&address, RawOrigin::Signed(signer));
    assert!(r.is_err());
}

#[test]
fn truncated_guard_rejects_root_and_no_origin() {
    let address = addr(0xAA);
    assert!(EnsureAddressTruncated::ensure_address_origin(&address, RawOrigin::Root).is_err());
    assert!(EnsureAddressTruncated::ensure_address_origin(&address, RawOrigin::NoOrigin).is_err());
}

#[test]
fn truncated_try_hands_the_principal_back() {
    let signer = AccountId { bytes: vec![0xBB; 32] };
    let address = addr(0xAA);
    match EnsureAddressTruncated::try_address_origin(&address, RawOrigin::Signed(signer)) {
        Err(RawOrigin::Signed(who)) => assert_eq!(who.bytes, vec![0xBB; 32]),
        _ => panic!("the rejected principal must come back unchanged"),
    }
}

#[test]
fn root_guard_accepts_root_only() {
    let address = addr(0x01);
    assert!(EnsureAddressRoot::ensure_address_origin(&address, RawOrigin::Root).is_ok());
    let signer = AccountId { bytes: vec![0x01; 32] };
    assert!(EnsureAddressRoot::ensure_address_origin(&address, RawOrigin::Signed(signer)).is_err());
}

#[test]
fn never_guard_rejects_everything() {
    let address = addr(0x01);
    assert!(EnsureAddressNever::ensure_address_origin(&address, RawOrigin::Root).is_err());
    let signer = AccountId { bytes: vec![0x01; 32] };
    assert!(
        EnsureAddressNever::ensure_address_origin(&address, RawOrigin::Signed(signer)).is_err()
    );
}

#[test]
fn call_origin_policies_decide_as_their_guards() {
    let address = addr(0xAA);
    assert!(check_call_origin(CallOriginPolicy::RootOnly, &address, RawOrigin::Root).is_ok());
    assert!(check_call_origin(CallOriginPolicy::Never, &address, RawOrigin::Root).is_err());
    let signer = AccountId { bytes: vec![0xAA; 32] };
    assert!(
        check_call_origin(
            CallOriginPolicy::TruncatedHashMatch,
            &address,
            RawOrigin::Signed(signer)
        )
        .is_ok()
    );
}

#[test]
fn system_chain_id_returns_the_configured_value() {
    let chain_id = SystemChainId { id: 42 };
    assert_eq!(chain_id.get(), 42);
}
