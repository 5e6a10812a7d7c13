//! What the depositor asks for in return: an exact fungible amount of one
//! resource, or one exact unique instance of one resource.

use vstd::prelude::*;
use crate::assets::Bucket;
use crate::assets::ContentsView;

verus! {

/// The requested side of an escrow, fixed at creation.  Exactly one of the
/// two shapes is active, and the resource address is readable in either.
#[derive(Clone, Copy, Debug, PartialEq, Eq, Structural)]
pub enum EscrowResourceSpecifier {
    Fungible { resource_address: u64, amount: u128 },
    NonFungible { resource_address: u64, non_fungible_local_id: u64 },
}

impl EscrowResourceSpecifier {
    /// The resource address, whichever shape is active.
    pub open spec fn spec_resource_address(self) -> u64 {
        match self {
            EscrowResourceSpecifier::Fungible { resource_address, .. } => resource_address,
            EscrowResourceSpecifier::NonFungible { resource_address, .. } => resource_address,
        }
    }

    /// A request is well formed when a fungible amount is positive: asking
    /// for zero of something would make the paid-in side indistinguishable
    /// from an untouched escrow.
    pub open spec fn wf(self) -> bool {
        self matches EscrowResourceSpecifier::Fungible { amount, .. } ==> amount > 0
    }

    /// The resource address, whichever shape is active.
    pub fn get_resource_address(&self) -> (r: u64)
        ensures
            r == self.spec_resource_address(),
    {
        match self {
            EscrowResourceSpecifier::Fungible { resource_address, .. } => *resource_address,
            EscrowResourceSpecifier::NonFungible { resource_address, .. } => *resource_address,
        }
    }
}

/// Whether a quantity at `addr` with contents `c` is exactly what `requested`
/// asks for: the requested resource, and precisely the requested amount or
/// precisely the one requested instance — no over- or underpayment.
pub open spec fn contents_match(
    requested: EscrowResourceSpecifier,
    addr: u64,
    c: ContentsView,
) -> bool {
    match requested {
        EscrowResourceSpecifier::Fungible { resource_address, amount } => {
            &&& addr == resource_address
            &&& c matches ContentsView::Fungible { amount: paid } && paid == amount
        },
        EscrowResourceSpecifier::NonFungible { resource_address, non_fungible_local_id } => {
            &&& addr == resource_address
            &&& c matches ContentsView::NonFungible { ids } && ids.len() == 1
                && ids[0] == non_fungible_local_id
        },
    }
}

/// Whether `payment` is exactly what `requested` asks for.
pub open spec fn payment_matches(requested: EscrowResourceSpecifier, payment: Bucket) -> bool {
    contents_match(requested, payment.resource_address, payment.contents@)
}

} // verus!
