//! A two-party, non-custodial escrow for atomic swaps.
//!
//! A depositor locks an asset together with a description of the asset it
//! wants in return.  Any counterparty holding an exactly matching payment can
//! take the deposit in one atomic step; until that happens the depositor can
//! cancel and reclaim the deposit.  An authorization badge minted at creation
//! is the depositor's only proof of ownership: it is consumed by whichever of
//! withdraw or cancel runs first, so the two settlements are mutually
//! exclusive.

mod assets;
mod badge;
mod escrow;
mod laws;
mod specifier;

pub use assets::Bucket;
pub use assets::ContentsView;
pub use assets::ResourceContents;
pub use assets::Vault;
pub use badge::EscrowBadge;
pub use badge::NonFungibleBucket;
pub use badge::DEFAULT_ESCROW_ID;
pub use escrow::cancel_transition;
pub use escrow::exchange_transition;
pub use escrow::withdraw_transition;
pub use escrow::Escrow;
pub use escrow::EscrowError;
pub use laws::lemma_drained_stays_drained;
pub use laws::lemma_no_cancel_after_exchange;
pub use laws::lemma_one_settlement_available;
pub use laws::lemma_settled_is_final;
pub use laws::lemma_settlements_mutually_exclusive;
pub use laws::settled;
pub use laws::transition;
pub use specifier::contents_match;
pub use specifier::payment_matches;
pub use specifier::EscrowResourceSpecifier;
