//! The safety laws of the escrow state machine.
//!
//! The operations' own contracts say what each single call does.  The proofs
//! here say what no sequence of calls can ever do: settle an escrow twice,
//! leave a live escrow unsettleable, or revive a drained vault.  Together
//! with the contracts they give the at-most-once guarantees by induction
//! over any run: every step either is one of the three transitions below or
//! leaves the record unchanged (a rejected call ensures exactly that).

use vstd::prelude::*;
use crate::assets::Bucket;
use crate::escrow::cancel_transition;
use crate::escrow::exchange_transition;
use crate::escrow::withdraw_transition;
use crate::escrow::Escrow;
use crate::escrow::EscrowError;

verus! {

/// One successful operation, any operation: the record moved from `pre` to
/// `post` by an exchange, a withdrawal or a cancellation.  A rejected call
/// leaves the record equal to `pre`, so any run of the machine is a chain of
/// these transitions.
pub open spec fn transition(pre: Escrow, post: Escrow) -> bool {
    ||| exists|payment: Bucket, returned: Bucket|
        exchange_transition(pre, post, payment, returned)
    ||| exists|badge_addr: u64, returned: Bucket|
        withdraw_transition(pre, post, badge_addr, returned)
    ||| exists|badge_addr: u64, returned: Bucket|
        cancel_transition(pre, post, badge_addr, returned)
}

/// Nothing is left to claim or reclaim: both vaults have been drained.
pub open spec fn settled(e: Escrow) -> bool {
    e.offered().spec_is_empty() && e.received().spec_is_empty()
}

/// Withdrawal and cancellation are mutually exclusive: in no state of a
/// well-formed escrow can both succeed, whatever badge is presented —
/// withdrawing needs a paid-in vault, cancelling an untouched deposit, and
/// the one exchange that fills the former drains the latter in the same
/// step.
pub proof fn lemma_settlements_mutually_exclusive(e: Escrow, badge_addr: u64)
    requires
        e.wf(),
    ensures
        !(e.withdraw_enabled(badge_addr) && e.cancel_enabled(badge_addr)),
{
}

/// A live escrow can always be settled: as long as either vault still holds
/// something, the rightful badge makes exactly one of withdrawal and
/// cancellation succeed.  After creation the deposit is in place, and an
/// exchange attempt either fills the paid-in vault or changes nothing, so
/// the depositor is never left with no way out.
pub proof fn lemma_one_settlement_available(e: Escrow, badge_addr: u64)
    requires
        e.wf(),
        !settled(e),
        badge_addr == e.badge_address(),
    ensures
        e.withdraw_enabled(badge_addr) || e.cancel_enabled(badge_addr),
        !(e.withdraw_enabled(badge_addr) && e.cancel_enabled(badge_addr)),
{
}

/// A settled escrow is finished for good: every exchange, withdrawal or
/// cancellation fails, whatever payment or badge is presented, and the
/// failing exchange, like a cancellation by the rightful badge, reports
/// `AlreadySettled`.
pub proof fn lemma_settled_is_final(e: Escrow, payment: Bucket, badge_addr: u64)
    requires
        e.wf(),
        settled(e),
    ensures
        !e.exchange_enabled(payment),
        !e.withdraw_enabled(badge_addr),
        !e.cancel_enabled(badge_addr),
        e.exchange_err(payment) == EscrowError::AlreadySettled,
        badge_addr == e.badge_address() ==> e.cancel_err(badge_addr)
            == EscrowError::AlreadySettled,
{
}

/// Once a successful exchange has filled the paid-in vault, cancellation is
/// lost: it fails in that state and in every later one, and with the
/// rightful badge it always reports `AlreadySettled`.
pub proof fn lemma_no_cancel_after_exchange(e: Escrow, badge_addr: u64)
    requires
        e.wf(),
        !e.received().spec_is_empty(),
    ensures
        !e.cancel_enabled(badge_addr),
        badge_addr == e.badge_address() ==> e.cancel_err(badge_addr)
            == EscrowError::AlreadySettled,
{
}

/// A drained vault stays drained: once the offered vault is empty no
/// transition refills it, the only move still open is the withdrawal, which
/// settles the escrow, and a settled escrow admits no transition at all.
/// With the contracts' unchanged-on-failure clauses this closes the
/// induction: over any run, each vault is drained at most once, so at most
/// one of withdraw and cancel can ever succeed.
pub proof fn lemma_drained_stays_drained(pre: Escrow, post: Escrow)
    requires
        pre.wf(),
        transition(pre, post),
    ensures
        post.wf(),
        pre.offered().spec_is_empty() ==> post.offered().spec_is_empty(),
        pre.offered().spec_is_empty() ==> post.received().spec_is_empty(),
        settled(pre) ==> settled(post),
{
}

} // verus!
