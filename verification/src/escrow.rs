//! The escrow record and its four operations.
//!
//! One record per escrow instance.  Its life is a short path through four
//! states: `Created` (offered full, received empty), then either `Exchanged`
//! (offered empty, received full) followed by `Withdrawn`, or `Cancelled`
//! directly.  Every other move is rejected with the specific condition that
//! failed, and a rejected operation changes nothing and hands every bucket
//! it was given back to the caller.

use vstd::prelude::*;
use crate::assets::Bucket;
use crate::assets::ResourceContents;
use crate::assets::Vault;
use crate::badge::DEFAULT_ESCROW_ID;
use crate::badge::EscrowBadge;
use crate::badge::NonFungibleBucket;
use crate::specifier::contents_match;
use crate::specifier::payment_matches;
use crate::specifier::EscrowResourceSpecifier;

verus! {

/// Why an operation was rejected.  Every failure is a precondition the
/// caller's input or the record's state violated; none is transient.
#[derive(Clone, Copy, Debug, PartialEq, Eq, Structural)]
pub enum EscrowError {
    /// The offered asset has already been drained by an exchange or a
    /// cancellation.
    AlreadySettled,
    /// The payment is not exactly the requested resource, amount or
    /// instance.
    AssetMismatch,
    /// The presented badge is not this escrow's authorization badge.
    AuthorizationMismatch,
    /// Withdrawal was attempted before any exchange paid the escrow.
    NotYetExchanged,
}

/// One escrow instance: what is wanted, what is held, and which badge may
/// settle it.
#[derive(Debug)]
pub struct Escrow {
    requested_resource: EscrowResourceSpecifier,
    offered_resource: Vault,
    requested_resource_vault: Vault,
    escrow_nft: u64,
}

impl Escrow {
    /// The request fixed at creation.
    pub closed spec fn requested(self) -> EscrowResourceSpecifier {
        self.requested_resource
    }

    /// The vault holding the depositor's stake.
    pub closed spec fn offered(self) -> Vault {
        self.offered_resource
    }

    /// The vault holding what an exchange paid in.
    pub closed spec fn received(self) -> Vault {
        self.requested_resource_vault
    }

    /// The resource address of the authorization badge.
    pub closed spec fn badge_address(self) -> u64 {
        self.escrow_nft
    }

    /// The record's invariant, established at creation and preserved by
    /// every operation:
    /// - the request is well formed;
    /// - the receiving vault is bound to the requested resource;
    /// - the offered and received vaults are never both occupied, since the
    ///   one exchange that fills the latter drains the former in the same
    ///   step;
    /// - whatever the receiving vault holds is exactly what was requested.
    pub open spec fn wf(self) -> bool {
        &&& self.requested().wf()
        &&& self.received().resource_address == self.requested().spec_resource_address()
        &&& !(!self.offered().spec_is_empty() && !self.received().spec_is_empty())
        &&& !self.received().spec_is_empty() ==> contents_match(
            self.requested(),
            self.received().resource_address,
            self.received().contents@,
        )
    }

    /// An exchange with `payment` succeeds exactly here: the deposit is
    /// still in place and the payment matches the request precisely.
    pub open spec fn exchange_enabled(self, payment: Bucket) -> bool {
        &&& !self.offered().spec_is_empty()
        &&& payment_matches(self.requested(), payment)
    }

    /// The condition a failing exchange reports, checked in order: a drained
    /// deposit first, then the mismatched payment.
    pub open spec fn exchange_err(self, payment: Bucket) -> EscrowError {
        if self.offered().spec_is_empty() {
            EscrowError::AlreadySettled
        } else {
            EscrowError::AssetMismatch
        }
    }

    /// A withdrawal with a badge of address `badge_addr` succeeds exactly
    /// here: the badge is this escrow's and an exchange has paid in.
    pub open spec fn withdraw_enabled(self, badge_addr: u64) -> bool {
        &&& badge_addr == self.badge_address()
        &&& !self.received().spec_is_empty()
    }

    /// The condition a failing withdrawal reports, checked in order: the
    /// badge first, then the still-unpaid escrow.
    pub open spec fn withdraw_err(self, badge_addr: u64) -> EscrowError {
        if badge_addr != self.badge_address() {
            EscrowError::AuthorizationMismatch
        } else {
            EscrowError::NotYetExchanged
        }
    }

    /// A cancellation with a badge of address `badge_addr` succeeds exactly
    /// here: the badge is this escrow's and the deposit is still in place.
    pub open spec fn cancel_enabled(self, badge_addr: u64) -> bool {
        &&& badge_addr == self.badge_address()
        &&& !self.offered().spec_is_empty()
    }

    /// The condition a failing cancellation reports, checked in order: the
    /// badge first, then the already-drained deposit.
    pub open spec fn cancel_err(self, badge_addr: u64) -> EscrowError {
        if badge_addr != self.badge_address() {
            EscrowError::AuthorizationMismatch
        } else {
            EscrowError::AlreadySettled
        }
    }

    /// Whether the deposit has been drained.
    pub fn is_offered_empty(&self) -> (r: bool)
        ensures
            r == self.offered().spec_is_empty(),
    {
        self.offered_resource.is_empty()
    }

    /// Whether a payment has come in and not yet been withdrawn.
    pub fn is_received_empty(&self) -> (r: bool)
        ensures
            r == self.received().spec_is_empty(),
    {
        self.requested_resource_vault.is_empty()
    }
}

/// The exact effect of a successful exchange: the payment was acceptable,
/// the caller receives the whole deposit, and the payment sits in the
/// receiving vault — both legs in one step.
pub open spec fn exchange_transition(
    pre: Escrow,
    post: Escrow,
    payment: Bucket,
    returned: Bucket,
) -> bool {
    &&& pre.exchange_enabled(payment)
    &&& returned.resource_address == pre.offered().resource_address
    &&& returned.contents@ == pre.offered().contents@
    &&& post.wf()
    &&& post.requested() == pre.requested()
    &&& post.badge_address() == pre.badge_address()
    &&& post.offered().resource_address == pre.offered().resource_address
    &&& post.offered().spec_is_empty()
    &&& post.received().resource_address == pre.received().resource_address
    &&& post.received().contents@ == payment.contents@
    &&& !post.received().spec_is_empty()
}

/// The exact effect of a successful withdrawal by a badge of address
/// `badge_addr`: the caller receives everything an exchange paid in and the
/// receiving vault is left empty for good.
pub open spec fn withdraw_transition(
    pre: Escrow,
    post: Escrow,
    badge_addr: u64,
    returned: Bucket,
) -> bool {
    &&& pre.withdraw_enabled(badge_addr)
    &&& returned.resource_address == pre.received().resource_address
    &&& returned.contents@ == pre.received().contents@
    &&& contents_match(pre.requested(), returned.resource_address, returned.contents@)
    &&& post.wf()
    &&& post.requested() == pre.requested()
    &&& post.badge_address() == pre.badge_address()
    &&& post.offered() == pre.offered()
    &&& post.offered().spec_is_empty()
    &&& post.received().resource_address == pre.received().resource_address
    &&& post.received().spec_is_empty()
}

/// The exact effect of a successful cancellation by a badge of address
/// `badge_addr`: the depositor reclaims the whole deposit and the escrow is
/// finished.
pub open spec fn cancel_transition(
    pre: Escrow,
    post: Escrow,
    badge_addr: u64,
    returned: Bucket,
) -> bool {
    &&& pre.cancel_enabled(badge_addr)
    &&& returned.resource_address == pre.offered().resource_address
    &&& returned.contents@ == pre.offered().contents@
    &&& post.wf()
    &&& post.requested() == pre.requested()
    &&& post.badge_address() == pre.badge_address()
    &&& post.offered().resource_address == pre.offered().resource_address
    &&& post.offered().spec_is_empty()
    &&& post.received() == pre.received()
    &&& post.received().spec_is_empty()
}

impl Escrow {
    /// Open an escrow: lock the depositor's non-empty `offered_resource`
    /// stake, record what is requested in return, and mint the one
    /// authorization badge under `escrow_nft_address` — an identifier the
    /// caller must not have given to any other badge — with the fixed local
    /// id `DEFAULT_ESCROW_ID` and the offered resource recorded as its data.
    /// There are no error paths: every input this accepts produces a record
    /// in the `Created` state.
    pub fn instantiate_escrow(
        requested_resource: EscrowResourceSpecifier,
        offered_resource: Bucket,
        escrow_nft_address: u64,
    ) -> (r: (Escrow, NonFungibleBucket))
        requires
            requested_resource.wf(),
            !offered_resource.spec_is_empty(),
        ensures
            r.0.wf(),
            r.0.requested() == requested_resource,
            r.0.offered().resource_address == offered_resource.resource_address,
            r.0.offered().contents@ == offered_resource.contents@,
            !r.0.offered().spec_is_empty(),
            r.0.received().spec_is_empty(),
            r.0.badge_address() == escrow_nft_address,
            r.1.spec_resource_address() == escrow_nft_address,
            r.1.spec_local_id() == DEFAULT_ESCROW_ID,
            r.1.spec_data() == (EscrowBadge {
                offered_resource: offered_resource.resource_address,
            }),
    {
        let escrow_nft = NonFungibleBucket::mint(
            escrow_nft_address,
            DEFAULT_ESCROW_ID,
            EscrowBadge { offered_resource: offered_resource.resource_address },
        );
        let requested_resource_vault = Vault::new(requested_resource.get_resource_address());
        let escrow = Escrow {
            requested_resource,
            offered_resource: Vault::with_bucket(offered_resource),
            requested_resource_vault,
            escrow_nft: escrow_nft_address,
        };
        (escrow, escrow_nft)
    }

    /// Satisfy the request: any caller whose `bucket_of_resource` is exactly
    /// the requested resource, amount or instance receives the entire
    /// deposit in the same step that their payment enters the escrow.  A
    /// rejected payment comes back unchanged with the condition that failed,
    /// and the record is untouched.
    pub fn exchange(&mut self, bucket_of_resource: Bucket) -> (r: Result<
        Bucket,
        (EscrowError, Bucket),
    >)
        requires
            old(self).wf(),
        ensures
            final(self).wf(),
            r is Ok <==> old(self).exchange_enabled(bucket_of_resource),
            r matches Ok(returned) ==> exchange_transition(
                *old(self),
                *final(self),
                bucket_of_resource,
                returned,
            ),
            r matches Err((e, handed_back)) ==> {
                &&& *final(self) == *old(self)
                &&& handed_back == bucket_of_resource
                &&& e == old(self).exchange_err(bucket_of_resource)
            },
    {
        if self.offered_resource.is_empty() {
            return Err((EscrowError::AlreadySettled, bucket_of_resource));
        }
        if bucket_of_resource.resource_address != self.requested_resource_vault.resource_address {
            return Err((EscrowError::AssetMismatch, bucket_of_resource));
        }
        let pays_exactly = match (&self.requested_resource, &bucket_of_resource.contents) {
            (
                EscrowResourceSpecifier::Fungible { amount, .. },
                ResourceContents::Fungible { amount: paid },
            ) => *paid == *amount,
            (
                EscrowResourceSpecifier::NonFungible { non_fungible_local_id, .. },
                ResourceContents::NonFungible { ids },
            ) => ids.len() == 1 && ids[0] == *non_fungible_local_id,
            _ => false,
        };
        if !pays_exactly {
            return Err((EscrowError::AssetMismatch, bucket_of_resource));
        }
        self.requested_resource_vault.put(bucket_of_resource);
        Ok(self.offered_resource.take_all())
    }

    /// Settle for the depositor after an exchange: a caller presenting this
    /// escrow's badge receives everything the exchange paid in, and the
    /// badge is burned so nothing can ever be presented again.  A rejected
    /// call hands the badge back unchanged with the condition that failed.
    pub fn withdraw_resource(&mut self, escrow_nft: NonFungibleBucket) -> (r: Result<
        Bucket,
        (EscrowError, NonFungibleBucket),
    >)
        requires
            old(self).wf(),
        ensures
            final(self).wf(),
            r is Ok <==> old(self).withdraw_enabled(escrow_nft.spec_resource_address()),
            r matches Ok(returned) ==> withdraw_transition(
                *old(self),
                *final(self),
                escrow_nft.spec_resource_address(),
                returned,
            ),
            r matches Err((e, handed_back)) ==> {
                &&& *final(self) == *old(self)
                &&& handed_back == escrow_nft
                &&& e == old(self).withdraw_err(escrow_nft.spec_resource_address())
            },
    {
        if escrow_nft.resource_address() != self.escrow_nft {
            return Err((EscrowError::AuthorizationMismatch, escrow_nft));
        }
        if self.requested_resource_vault.is_empty() {
            return Err((EscrowError::NotYetExchanged, escrow_nft));
        }
        escrow_nft.burn();
        Ok(self.requested_resource_vault.take_all())
    }

    /// Call the escrow off before anyone exchanges: a caller presenting this
    /// escrow's badge reclaims the whole deposit, and the badge is burned so
    /// nothing can ever be presented again.  A rejected call hands the badge
    /// back unchanged with the condition that failed.
    pub fn cancel_escrow(&mut self, escrow_nft: NonFungibleBucket) -> (r: Result<
        Bucket,
        (EscrowError, NonFungibleBucket),
    >)
        requires
            old(self).wf(),
        ensures
            final(self).wf(),
            r is Ok <==> old(self).cancel_enabled(escrow_nft.spec_resource_address()),
            r matches Ok(returned) ==> cancel_transition(
                *old(self),
                *final(self),
                escrow_nft.spec_resource_address(),
                returned,
            ),
            r matches Err((e, handed_back)) ==> {
                &&& *final(self) == *old(self)
                &&& handed_back == escrow_nft
                &&& e == old(self).cancel_err(escrow_nft.spec_resource_address())
            },
    {
        if escrow_nft.resource_address() != self.escrow_nft {
            return Err((EscrowError::AuthorizationMismatch, escrow_nft));
        }
        if self.offered_resource.is_empty() {
            return Err((EscrowError::AlreadySettled, escrow_nft));
        }
        escrow_nft.burn();
        Ok(self.offered_resource.take_all())
    }
}

} // verus!
