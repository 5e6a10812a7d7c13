//! The asset model: transferable buckets and holding vaults.
//!
//! A resource is identified by a `u64` address.  A quantity of one resource
//! is either fungible (a positive amount, counted in indivisible subunits) or
//! non-fungible (a set of local identifiers, each naming one unique
//! instance).  A `Bucket` is a transferable handle on such a quantity; a
//! `Vault` is a holding slot bound to one resource that can receive buckets
//! and later release its entire contents as a single bucket.  Neither type
//! can be cloned, so a handle changes hands rather than multiplies.

use vstd::prelude::*;

verus! {

/// What a bucket or vault holds: a fungible amount of its resource, or the
/// local identifiers of the unique instances it contains.
#[derive(Debug)]
pub enum ResourceContents {
    Fungible { amount: u128 },
    NonFungible { ids: Vec<u64> },
}

/// The mathematical value of a `ResourceContents`: the same shape with the
/// identifier vector abstracted to a sequence.
#[verifier::ext_equal]
pub enum ContentsView {
    Fungible { amount: u128 },
    NonFungible { ids: Seq<u64> },
}

impl View for ResourceContents {
    type V = ContentsView;

    open spec fn view(&self) -> ContentsView {
        match self {
            ResourceContents::Fungible { amount } => ContentsView::Fungible { amount: *amount },
            ResourceContents::NonFungible { ids } => ContentsView::NonFungible { ids: ids@ },
        }
    }
}

/// Holding nothing: a zero fungible amount or no instance identifiers.
pub open spec fn contents_empty(c: ContentsView) -> bool {
    match c {
        ContentsView::Fungible { amount } => amount == 0,
        ContentsView::NonFungible { ids } => ids.len() == 0,
    }
}

/// A transferable handle on a quantity of one resource.
#[derive(Debug)]
pub struct Bucket {
    pub resource_address: u64,
    pub contents: ResourceContents,
}

impl Bucket {
    /// Holding nothing.
    pub open spec fn spec_is_empty(self) -> bool {
        contents_empty(self.contents@)
    }

    /// A bucket holding `amount` subunits of the fungible resource at
    /// `resource_address`.
    pub fn new_fungible(resource_address: u64, amount: u128) -> (b: Bucket)
        ensures
            b.resource_address == resource_address,
            b.contents@ == (ContentsView::Fungible { amount }),
    {
        Bucket { resource_address, contents: ResourceContents::Fungible { amount } }
    }

    /// A bucket holding the unique instances named by `ids` of the resource
    /// at `resource_address`.
    pub fn new_non_fungible(resource_address: u64, ids: Vec<u64>) -> (b: Bucket)
        ensures
            b.resource_address == resource_address,
            b.contents@ == (ContentsView::NonFungible { ids: ids@ }),
    {
        Bucket { resource_address, contents: ResourceContents::NonFungible { ids } }
    }

    /// Whether the bucket holds nothing.
    pub fn is_empty(&self) -> (r: bool)
        ensures
            r == self.spec_is_empty(),
    {
        match &self.contents {
            ResourceContents::Fungible { amount } => *amount == 0,
            ResourceContents::NonFungible { ids } => ids.len() == 0,
        }
    }
}

/// A holding slot bound to one resource.
#[derive(Debug)]
pub struct Vault {
    pub resource_address: u64,
    pub contents: ResourceContents,
}

impl Vault {
    /// Holding nothing.
    pub open spec fn spec_is_empty(self) -> bool {
        contents_empty(self.contents@)
    }

    /// An empty vault for the resource at `resource_address`.
    pub fn new(resource_address: u64) -> (v: Vault)
        ensures
            v.resource_address == resource_address,
            v.spec_is_empty(),
    {
        Vault { resource_address, contents: ResourceContents::Fungible { amount: 0 } }
    }

    /// A vault seeded with the full contents of `bucket`, bound to the
    /// bucket's resource.
    pub fn with_bucket(bucket: Bucket) -> (v: Vault)
        ensures
            v.resource_address == bucket.resource_address,
            v.contents@ == bucket.contents@,
    {
        Vault { resource_address: bucket.resource_address, contents: bucket.contents }
    }

    /// Whether the vault holds nothing.
    pub fn is_empty(&self) -> (r: bool)
        ensures
            r == self.spec_is_empty(),
    {
        match &self.contents {
            ResourceContents::Fungible { amount } => *amount == 0,
            ResourceContents::NonFungible { ids } => ids.len() == 0,
        }
    }

    /// Deposit a bucket of the vault's resource into a vault that is still
    /// empty.  The escrow fills each of its two vaults at most once, so an
    /// empty slot is the only deposit target it ever needs.
    pub fn put(&mut self, bucket: Bucket)
        requires
            bucket.resource_address == old(self).resource_address,
            old(self).spec_is_empty(),
        ensures
            final(self).resource_address == old(self).resource_address,
            final(self).contents@ == bucket.contents@,
    {
        self.contents = bucket.contents;
    }

    /// Release everything the vault holds as one bucket, leaving the vault
    /// empty.
    pub fn take_all(&mut self) -> (b: Bucket)
        ensures
            b.resource_address == old(self).resource_address,
            b.contents@ == old(self).contents@,
            final(self).resource_address == old(self).resource_address,
            final(self).spec_is_empty(),
    {
        let mut taken = ResourceContents::Fungible { amount: 0 };
        core::mem::swap(&mut self.contents, &mut taken);
        Bucket { resource_address: self.resource_address, contents: taken }
    }
}

} // verus!
