//! The canonical payment-attempt and refund-attempt records and their
//! lifecycle: the status is mutated only by recording one normalized vendor
//! outcome, and a record that reached a terminal status never changes again.

use vstd::prelude::*;

use crate::authorize::AuthorizeOutcome;
use crate::canonical::{AttemptStatus, RefundStatus};

verus! {

/// Whether an attempt status is final: once reached, the attempt is settled
/// and no later vendor response may move it.
pub open spec fn spec_attempt_terminal(s: AttemptStatus) -> bool {
    match s {
        AttemptStatus::Charged => true,
        AttemptStatus::Failure => true,
        AttemptStatus::Voided => true,
        AttemptStatus::Pending
        | AttemptStatus::AuthenticationPending
        | AttemptStatus::AuthenticationFailed
        | AttemptStatus::AuthorizationFailed => false,
    }
}

/// Whether an attempt status is final.
pub fn attempt_is_terminal(s: AttemptStatus) -> (r: bool)
    ensures
        r == spec_attempt_terminal(s),
{
    match s {
        AttemptStatus::Charged => true,
        AttemptStatus::Failure => true,
        AttemptStatus::Voided => true,
        AttemptStatus::Pending
        | AttemptStatus::AuthenticationPending
        | AttemptStatus::AuthenticationFailed
        | AttemptStatus::AuthorizationFailed => false,
    }
}

/// The status an attempt holds after one normalized outcome is recorded:
/// a terminal attempt keeps its status; otherwise the outcome's status
/// override, when present, replaces it.
pub open spec fn spec_record_outcome_status(
    current: AttemptStatus,
    outcome_status: Option<AttemptStatus>,
) -> AttemptStatus {
    if spec_attempt_terminal(current) {
        current
    } else {
        match outcome_status {
            Some(s) => s,
            None => current,
        }
    }
}

/// One attempt to charge a payer.
#[derive(Clone, Debug, PartialEq, Eq)]
pub struct PaymentAttempt {
    pub attempt_id: String,
    /// Amount in minor units of `currency`.
    pub amount: i64,
    pub currency: String,
    /// Correlation key sent to the vendor.
    pub connector_request_reference_id: String,
    pub status: AttemptStatus,
}

impl PaymentAttempt {
    /// Records one normalized authorize outcome: the status moves exactly
    /// when the attempt is not yet terminal and the outcome carries a status
    /// override; everything else about the attempt is untouched. Returns
    /// whether the status moved.
    pub fn record_outcome(&mut self, outcome: &AuthorizeOutcome) -> (moved: bool)
        ensures
            final(self).attempt_id@ == old(self).attempt_id@,
            final(self).amount == old(self).amount,
            final(self).currency@ == old(self).currency@,
            final(self).connector_request_reference_id@ == old(
                self,
            ).connector_request_reference_id@,
            final(self).status == spec_record_outcome_status(old(self).status, outcome.status),
            moved == (!spec_attempt_terminal(old(self).status) && outcome.status is Some),
    {
        if attempt_is_terminal(self.status) {
            return false;
        }
        match outcome.status {
            Some(s) => {
                self.status = s;
                true
            },
            None => false,
        }
    }
}

/// A terminal attempt never moves again, whatever outcome is recorded: the
/// canonical attempt state machine is one-shot.
pub proof fn lemma_terminal_attempt_is_immutable(
    current: AttemptStatus,
    outcome_status: Option<AttemptStatus>,
)
    requires
        spec_attempt_terminal(current),
    ensures
        spec_record_outcome_status(current, outcome_status) == current,
{
}

/// Whether a refund status is final.
pub open spec fn spec_refund_terminal(s: RefundStatus) -> bool {
    match s {
        RefundStatus::Success => true,
        RefundStatus::Failure => true,
        RefundStatus::Pending => false,
    }
}

/// Whether a refund status is final.
pub fn refund_is_terminal(s: RefundStatus) -> (r: bool)
    ensures
        r == spec_refund_terminal(s),
{
    match s {
        RefundStatus::Success => true,
        RefundStatus::Failure => true,
        RefundStatus::Pending => false,
    }
}

/// One refund of an earlier payment attempt.
#[derive(Clone, Debug, PartialEq, Eq)]
pub struct RefundAttempt {
    pub refund_id: String,
    /// The payment attempt this refund belongs to.
    pub attempt_id: String,
    /// Amount in minor units.
    pub amount: i64,
    pub status: RefundStatus,
}

impl RefundAttempt {
    /// Records one normalized refund status: the status moves exactly when
    /// the refund is not yet terminal. Returns whether the status moved.
    pub fn record_status(&mut self, new_status: RefundStatus) -> (moved: bool)
        ensures
            final(self).refund_id@ == old(self).refund_id@,
            final(self).attempt_id@ == old(self).attempt_id@,
            final(self).amount == old(self).amount,
            spec_refund_terminal(old(self).status) ==> final(self).status == old(self).status
                && !moved,
            !spec_refund_terminal(old(self).status) ==> final(self).status == new_status && moved,
    {
        if refund_is_terminal(self.status) {
            return false;
        }
        self.status = new_status;
        true
    }
}

} // verus!
