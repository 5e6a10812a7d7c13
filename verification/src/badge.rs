//! The authorization badge: the depositor's consume-once proof of ownership.
//!
//! Creating an escrow mints exactly one badge, a non-fungible token whose
//! resource address names the escrow it belongs to and whose local
//! identifier is the fixed `DEFAULT_ESCROW_ID`, so outside tooling can refer
//! to it deterministically.  The badge cannot be cloned and has no public
//! constructor: the only way to hold one is to have created an escrow.
//! Whichever of withdraw or cancel succeeds first consumes (burns) it.

use vstd::prelude::*;

verus! {

/// The local identifier every authorization badge is minted with.
pub const DEFAULT_ESCROW_ID: u64 = 1;

/// The data carried by an authorization badge: the resource the depositor
/// offered, recorded for off-band discoverability only — no transition
/// checks it.
#[derive(Clone, Copy, Debug, PartialEq, Eq, Structural)]
pub struct EscrowBadge {
    pub offered_resource: u64,
}

/// A bucket holding one authorization badge.
#[derive(Debug)]
pub struct NonFungibleBucket {
    resource_address: u64,
    local_id: u64,
    data: EscrowBadge,
}

impl NonFungibleBucket {
    /// The resource address of the badge: the escrow's proof-of-ownership
    /// token type.
    pub closed spec fn spec_resource_address(self) -> u64 {
        self.resource_address
    }

    /// The badge's local identifier.
    pub closed spec fn spec_local_id(self) -> u64 {
        self.local_id
    }

    /// The data minted into the badge.
    pub closed spec fn spec_data(self) -> EscrowBadge {
        self.data
    }

    /// Mint one badge.  Only escrow creation calls this.
    pub(crate) fn mint(resource_address: u64, local_id: u64, data: EscrowBadge) -> (b:
        NonFungibleBucket)
        ensures
            b.spec_resource_address() == resource_address,
            b.spec_local_id() == local_id,
            b.spec_data() == data,
    {
        NonFungibleBucket { resource_address, local_id, data }
    }

    /// The resource address of the badge.
    pub fn resource_address(&self) -> (r: u64)
        ensures
            r == self.spec_resource_address(),
    {
        self.resource_address
    }

    /// The badge's local identifier.
    pub fn non_fungible_local_id(&self) -> (r: u64)
        ensures
            r == self.spec_local_id(),
    {
        self.local_id
    }

    /// The data minted into the badge.
    pub fn non_fungible_data(&self) -> (r: EscrowBadge)
        ensures
            r == self.spec_data(),
    {
        self.data
    }

    /// Destroy the badge for good.  The value is consumed, so no later call
    /// can present it again.
    pub(crate) fn burn(self) {
    }
}

} // verus!
