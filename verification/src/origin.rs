//! Origin authorization: policies deciding whether a calling principal may
//! act as, or withdraw from, a given EVM address.

use vstd::prelude::*;
use crate::types::{AccountId, BadOrigin, EvmAddress, RawOrigin, bytes_eq};

verus! {

/// Whether the first 20 bytes of the signer's native identity equal the
/// 20 bytes of the target address.
pub open spec fn truncated_matches(address: Seq<u8>, signer: Seq<u8>) -> bool {
    &&& address.len() == 20
    &&& signer.len() >= 20
    &&& signer.subrange(0, 20) == address
}

/// Whether the truncated-hash policy accepts `origin` for `address`.
pub open spec fn truncated_accepts(address: Seq<u8>, origin: RawOrigin) -> bool {
    match origin {
        RawOrigin::Signed(who) => truncated_matches(address, who.bytes@),
        _ => false,
    }
}

/// Compares the first 20 bytes of `signer` with the 20 address bytes.
fn prefix_matches(address: &EvmAddress, signer: &AccountId) -> (r: bool)
    requires
        address.wf(),
    ensures
        r == truncated_matches(address.bytes@, signer.bytes@),
{
    if signer.bytes.len() < 20 {
        return false;
    }
    let mut i: usize = 0;
    while i < 20
        invariant
            i <= 20,
            address.bytes@.len() == 20,
            signer.bytes@.len() >= 20,
            forall|j: int| 0 <= j < i ==> address.bytes@[j] == signer.bytes@[j],
        decreases 20 - i,
    {
        if address.bytes[i] != signer.bytes[i] {
            proof {
                assert(signer.bytes@.subrange(0, 20)[i as int] != address.bytes@[i as int]);
            }
            return false;
        }
        i = i + 1;
    }
    proof {
        assert(signer.bytes@.subrange(0, 20) =~= address.bytes@);
    }
    true
}

/// Authorizes only the chain's root origin; the success carries no identity.
pub struct EnsureAddressRoot;

impl EnsureAddressRoot {
    /// Accepts exactly the root origin; any other principal is handed back.
    pub fn try_address_origin(_address: &EvmAddress, origin: RawOrigin) -> (r: Result<
        (),
        RawOrigin,
    >)
        ensures
            match r {
                Ok(u) => origin is Root,
                Err(o) => !(origin is Root) && o == origin,
            },
    {
        match origin {
            RawOrigin::Root => Ok(()),
            o => Err(o),
        }
    }

    /// Accepts exactly the root origin, rejecting the rest as `BadOrigin`.
    pub fn ensure_address_origin(address: &EvmAddress, origin: RawOrigin) -> (r: Result<
        (),
        BadOrigin,
    >)
        ensures
            r is Ok <==> origin is Root,
    {
        match Self::try_address_origin(address, origin) {
            Ok(u) => Ok(u),
            Err(_) => Err(BadOrigin),
        }
    }
}

/// Rejects every origin; used to disable a capability for a deployment.
pub struct EnsureAddressNever;

impl EnsureAddressNever {
    /// Hands every principal back unconditionally.
    pub fn try_address_origin(_address: &EvmAddress, origin: RawOrigin) -> (r: Result<
        AccountId,
        RawOrigin,
    >)
        ensures
            r == Result::<AccountId, RawOrigin>::Err(origin),
    {
        Err(origin)
    }

    /// Rejects every principal as `BadOrigin`.
    pub fn ensure_address_origin(_address: &EvmAddress, _origin: RawOrigin) -> (r: Result<
        AccountId,
        BadOrigin,
    >)
        ensures
            r is Err,
    {
        Err(BadOrigin)
    }
}

/// Authorizes a signed principal whose native identity's first 20 bytes are
/// the target address; the success carries the signer's identity.
pub struct EnsureAddressTruncated;

impl EnsureAddressTruncated {
    /// Accepts a signed origin whose identity prefix matches the address,
    /// yielding the signer; any other principal is handed back.
    pub fn try_address_origin(address: &EvmAddress, origin: RawOrigin) -> (r: Result<
        AccountId,
        RawOrigin,
    >)
        requires
            address.wf(),
        ensures
            match r {
                Ok(who) => origin == RawOrigin::Signed(who) && truncated_matches(
                    address.bytes@,
                    who.bytes@,
                ),
                Err(o) => o == origin && !truncated_accepts(address.bytes@, origin),
            },
    {
        match origin {
            RawOrigin::Signed(who) => {
                if prefix_matches(address, &who) {
                    Ok(who)
                } else {
                    Err(RawOrigin::Signed(who))
                }
            },
            o => Err(o),
        }
    }

    /// Accepts exactly the matching signed origins, rejecting the rest as
    /// `BadOrigin`.
    pub fn ensure_address_origin(address: &EvmAddress, origin: RawOrigin) -> (r: Result<
        AccountId,
        BadOrigin,
    >)
        requires
            address.wf(),
        ensures
            match r {
                Ok(who) => origin == RawOrigin::Signed(who) && truncated_matches(
                    address.bytes@,
                    who.bytes@,
                ),
                Err(e) => !truncated_accepts(address.bytes@, origin),
            },
    {
        match Self::try_address_origin(address, origin) {
            Ok(who) => Ok(who),
            Err(_) => Err(BadOrigin),
        }
    }
}

/// Origin policies for the call-capable entry points, where the success
/// value is dropped.
#[derive(Clone, Copy, PartialEq, Eq, Structural)]
pub enum CallOriginPolicy {
    RootOnly,
    Never,
    TruncatedHashMatch,
}

/// Whether the call-origin policy accepts `origin` for `address`.
pub open spec fn call_origin_accepts(
    policy: CallOriginPolicy,
    address: Seq<u8>,
    origin: RawOrigin,
) -> bool {
    match policy {
        CallOriginPolicy::RootOnly => origin is Root,
        CallOriginPolicy::Never => false,
        CallOriginPolicy::TruncatedHashMatch => truncated_accepts(address, origin),
    }
}

/// Runs the configured call-origin check.
pub fn check_call_origin(policy: CallOriginPolicy, address: &EvmAddress, origin: RawOrigin) -> (r:
    Result<(), BadOrigin>)
    requires
        address.wf(),
    ensures
        r is Ok <==> call_origin_accepts(policy, address.bytes@, origin),
{
    match policy {
        CallOriginPolicy::RootOnly => EnsureAddressRoot::ensure_address_origin(address, origin),
        CallOriginPolicy::Never => {
            match EnsureAddressNever::ensure_address_origin(address, origin) {
                Ok(_) => Ok(()),
                Err(e) => Err(e),
            }
        },
        CallOriginPolicy::TruncatedHashMatch => {
            match EnsureAddressTruncated::ensure_address_origin(address, origin) {
                Ok(_) => Ok(()),
                Err(e) => Err(e),
            }
        },
    }
}

/// Origin policies for the withdraw entry point, whose success must carry
/// the destination native identity.
#[derive(Clone, Copy, PartialEq, Eq, Structural)]
pub enum WithdrawOriginPolicy {
    Never,
    TruncatedHashMatch,
}

/// Whether the withdraw-origin policy accepts `origin` for `address`.
pub open spec fn withdraw_origin_accepts(
    policy: WithdrawOriginPolicy,
    address: Seq<u8>,
    origin: RawOrigin,
) -> bool {
    match policy {
        WithdrawOriginPolicy::Never => false,
        WithdrawOriginPolicy::TruncatedHashMatch => truncated_accepts(address, origin),
    }
}

/// The destination identity the withdraw-origin policy yields on success.
pub open spec fn withdraw_origin_destination(
    policy: WithdrawOriginPolicy,
    address: Seq<u8>,
    origin: RawOrigin,
) -> Seq<u8> {
    match origin {
        RawOrigin::Signed(who) => who.bytes@,
        _ => Seq::empty(),
    }
}

/// Runs the configured withdraw-origin check.
pub fn check_withdraw_origin(
    policy: WithdrawOriginPolicy,
    address: &EvmAddress,
    origin: RawOrigin,
) -> (r: Result<AccountId, BadOrigin>)
    requires
        address.wf(),
    ensures
        r is Ok <==> withdraw_origin_accepts(policy, address.bytes@, origin),
        r is Ok ==> r->Ok_0.bytes@ == withdraw_origin_destination(policy, address.bytes@, origin),
{
    match policy {
        WithdrawOriginPolicy::Never => EnsureAddressNever::ensure_address_origin(address, origin),
        WithdrawOriginPolicy::TruncatedHashMatch => EnsureAddressTruncated::ensure_address_origin(
            address,
            origin,
        ),
    }
}

} // verus!
