//! The observable guarantees of the escrow, exercised on concrete values:
//! the exact-match payment policy, the error reported for each rejected
//! call, and the mutual exclusion of withdrawal and cancellation.

use escrow::Bucket;
use escrow::Escrow;
use escrow::EscrowError;
use escrow::EscrowResourceSpecifier;
use escrow::NonFungibleBucket;
use escrow::ResourceContents;
use escrow::DEFAULT_ESCROW_ID;

const RESOURCE_A: u64 = 11;
const RESOURCE_B: u64 = 12;
const RESOURCE_C: u64 = 13;
const BADGE_ONE: u64 = 101;
const BADGE_TWO: u64 = 102;

fn fungible_amount(bucket: &Bucket) -> u128 {
    match &bucket.contents {
        ResourceContents::Fungible { amount } => *amount,
        ResourceContents::NonFungible { .. } => panic!("expected a fungible bucket"),
    }
}

/// An escrow asking for 10 of resource A against a deposit of 10 of
/// resource B.
fn ten_a_for_ten_b(badge_address: u64) -> (Escrow, NonFungibleBucket) {
    Escrow::instantiate_escrow(
        EscrowResourceSpecifier::Fungible { resource_address: RESOURCE_A, amount: 10 },
        Bucket::new_fungible(RESOURCE_B, 10),
        badge_address,
    )
}

#[test]
fn one_badge_with_fixed_id_after_create() {
    let (escrow_instance, badge) = ten_a_for_ten_b(BADGE_ONE);
    assert_eq!(badge.resource_address(), BADGE_ONE);
    assert_eq!(badge.non_fungible_local_id(), DEFAULT_ESCROW_ID);
    assert_eq!(badge.non_fungible_data().offered_resource, RESOURCE_B);
    assert!(!escrow_instance.is_offered_empty());
    assert!(escrow_instance.is_received_empty());
}

#[test]
fn exact_match_scenario() {
    let (mut escrow_instance, _badge) = ten_a_for_ten_b(BADGE_ONE);

    // An underpayment is rejected and handed back.
    let (error, handed_back) =
        escrow_instance.exchange(Bucket::new_fungible(RESOURCE_A, 5)).unwrap_err();
    assert_eq!(error, EscrowError::AssetMismatch);
    assert_eq!(fungible_amount(&handed_back), 5);

    // The exact amount buys the whole deposit.
    let received = escrow_instance.exchange(Bucket::new_fungible(RESOURCE_A, 10)).unwrap();
    assert_eq!(received.resource_address, RESOURCE_B);
    assert_eq!(fungible_amount(&received), 10);

    // A second exchange finds nothing left to buy.
    let (error, _) = escrow_instance.exchange(Bucket::new_fungible(RESOURCE_A, 10)).unwrap_err();
    assert_eq!(error, EscrowError::AlreadySettled);
}

#[test]
fn overpayment_is_rejected() {
    let (mut escrow_instance, _badge) = ten_a_for_ten_b(BADGE_ONE);
    let (error, handed_back) =
        escrow_instance.exchange(Bucket::new_fungible(RESOURCE_A, 11)).unwrap_err();
    assert_eq!(error, EscrowError::AssetMismatch);
    assert_eq!(fungible_amount(&handed_back), 11);
    assert!(!escrow_instance.is_offered_empty());
}

#[test]
fn wrong_resource_is_rejected() {
    let (mut escrow_instance, _badge) = ten_a_for_ten_b(BADGE_ONE);
    let (error, _) = escrow_instance.exchange(Bucket::new_fungible(RESOURCE_C, 10)).unwrap_err();
    assert_eq!(error, EscrowError::AssetMismatch);
}

#[test]
fn unique_instance_scenario() {
    let (mut escrow_instance, _badge) = Escrow::instantiate_escrow(
        EscrowResourceSpecifier::NonFungible {
            resource_address: RESOURCE_C,
            non_fungible_local_id: 7,
        },
        Bucket::new_fungible(RESOURCE_B, 10),
        BADGE_ONE,
    );

    // The wrong instance of the right resource is rejected.
    let (error, _) =
        escrow_instance.exchange(Bucket::new_non_fungible(RESOURCE_C, vec![8])).unwrap_err();
    assert_eq!(error, EscrowError::AssetMismatch);

    // A bundle that merely contains the requested instance is rejected too:
    // the payment must be exactly the one instance.
    let (error, _) =
        escrow_instance.exchange(Bucket::new_non_fungible(RESOURCE_C, vec![7, 8])).unwrap_err();
    assert_eq!(error, EscrowError::AssetMismatch);

    // Exactly the requested instance succeeds.
    let received =
        escrow_instance.exchange(Bucket::new_non_fungible(RESOURCE_C, vec![7])).unwrap();
    assert_eq!(received.resource_address, RESOURCE_B);
    assert_eq!(fungible_amount(&received), 10);
}

#[test]
fn foreign_badge_is_rejected() {
    let (mut escrow_one, badge_one) = ten_a_for_ten_b(BADGE_ONE);
    let (mut escrow_two, badge_two) = ten_a_for_ten_b(BADGE_TWO);

    // The other escrow's badge neither withdraws nor cancels here.
    let (error, badge_two) = escrow_one.withdraw_resource(badge_two).unwrap_err();
    assert_eq!(error, EscrowError::AuthorizationMismatch);
    let (error, badge_two) = escrow_one.cancel_escrow(badge_two).unwrap_err();
    assert_eq!(error, EscrowError::AuthorizationMismatch);
    assert!(!escrow_one.is_offered_empty());

    // The rejected badge comes back unharmed and still settles its own
    // escrow.
    let reclaimed = escrow_two.cancel_escrow(badge_two).unwrap();
    assert_eq!(fungible_amount(&reclaimed), 10);
    let reclaimed = escrow_one.cancel_escrow(badge_one).unwrap();
    assert_eq!(fungible_amount(&reclaimed), 10);
}

#[test]
fn cancel_loses_to_exchange() {
    let (mut escrow_instance, badge) = ten_a_for_ten_b(BADGE_ONE);
    escrow_instance.exchange(Bucket::new_fungible(RESOURCE_A, 10)).unwrap();

    // After a successful exchange, cancellation always fails.
    let (error, badge) = escrow_instance.cancel_escrow(badge).unwrap_err();
    assert_eq!(error, EscrowError::AlreadySettled);

    // Withdrawal is the one settlement still open, and it drains the
    // paid-in vault.
    let withdrawn = escrow_instance.withdraw_resource(badge).unwrap();
    assert_eq!(withdrawn.resource_address, RESOURCE_A);
    assert_eq!(fungible_amount(&withdrawn), 10);
    assert!(escrow_instance.is_received_empty());
    assert!(escrow_instance.is_offered_empty());
}

#[test]
fn withdraw_loses_to_cancel() {
    let (mut escrow_instance, badge) = ten_a_for_ten_b(BADGE_ONE);

    // Before any exchange, withdrawal fails and points at cancellation.
    let (error, badge) = escrow_instance.withdraw_resource(badge).unwrap_err();
    assert_eq!(error, EscrowError::NotYetExchanged);

    // Cancellation succeeds once, reclaiming the deposit.
    let reclaimed = escrow_instance.cancel_escrow(badge).unwrap();
    assert_eq!(reclaimed.resource_address, RESOURCE_B);
    assert_eq!(fungible_amount(&reclaimed), 10);

    // The settled escrow is finished: an exchange finds nothing to buy.
    let (error, _) = escrow_instance.exchange(Bucket::new_fungible(RESOURCE_A, 10)).unwrap_err();
    assert_eq!(error, EscrowError::AlreadySettled);
    assert!(escrow_instance.is_offered_empty());
    assert!(escrow_instance.is_received_empty());
}

#[test]
fn withdraw_empties_received_for_good() {
    let (mut escrow_one, badge_one) = ten_a_for_ten_b(BADGE_ONE);
    let (mut escrow_two, badge_two) = ten_a_for_ten_b(BADGE_TWO);
    escrow_one.exchange(Bucket::new_fungible(RESOURCE_A, 10)).unwrap();
    escrow_one.withdraw_resource(badge_one).unwrap();
    assert!(escrow_one.is_received_empty());

    // No badge can withdraw a second time: the rightful badge is burned,
    // and any other is rejected.
    let (error, badge_two) = escrow_one.withdraw_resource(badge_two).unwrap_err();
    assert_eq!(error, EscrowError::AuthorizationMismatch);
    escrow_two.cancel_escrow(badge_two).unwrap();
}
