use paycore::attempt::{PaymentAttempt, RefundAttempt};
use paycore::authorize::parse_authorize_response;
use paycore::canonical::{AttemptStatus, RefundStatus};
use paycore::keystore::merchant_key_store_cache_key;
use paycore::multisafepay::{
    Data, MultisafepayAuthResponse, MultisafepayPaymentStatus, MultisafepayPaymentsResponse,
};

fn fresh_attempt() -> PaymentAttempt {
    PaymentAttempt {
        attempt_id: "att_1".to_string(),
        amount: 1000,
        currency: "EUR".to_string(),
        connector_request_reference_id: "ref_1".to_string(),
        status: AttemptStatus::AuthenticationPending,
    }
}

fn completed_response() -> MultisafepayAuthResponse {
    MultisafepayAuthResponse::PaymentResponse(Box::new(MultisafepayPaymentsResponse {
        success: true,
        data: Data {
            payment_type: None,
            order_id: "ref_1".to_string(),
            currency: None,
            amount: None,
            description: None,
            capture: None,
            payment_url: None,
            status: Some(MultisafepayPaymentStatus::Completed),
            reason: None,
            reason_code: None,
            payment_details: None,
        },
    }))
}

#[test]
fn attempt_moves_once_then_stays_terminal() {
    let mut attempt = fresh_attempt();
    let outcome = parse_authorize_response(completed_response(), 200);
    assert!(attempt.record_outcome(&outcome));
    assert_eq!(attempt.status, AttemptStatus::Charged);

    let mut voided = completed_response();
    if let MultisafepayAuthResponse::PaymentResponse(p) = &mut voided {
        p.data.status = Some(MultisafepayPaymentStatus::Void);
    }
    let late = parse_authorize_response(voided, 200);
    assert!(!attempt.record_outcome(&late));
    assert_eq!(attempt.status, AttemptStatus::Charged);
}

#[test]
fn attempt_keeps_status_when_outcome_has_none() {
    let mut attempt = fresh_attempt();
    let outcome = parse_authorize_response(completed_response(), 200);
    let unchanged = paycore::authorize::AuthorizeOutcome {
        status: None,
        response: outcome.response,
    };
    assert!(!attempt.record_outcome(&unchanged));
    assert_eq!(attempt.status, AttemptStatus::AuthenticationPending);
}

#[test]
fn refund_is_immutable_once_terminal() {
    let mut refund = RefundAttempt {
        refund_id: "ref_9".to_string(),
        attempt_id: "att_1".to_string(),
        amount: 500,
        status: RefundStatus::Pending,
    };
    assert!(refund.record_status(RefundStatus::Success));
    assert_eq!(refund.status, RefundStatus::Success);
    assert!(!refund.record_status(RefundStatus::Failure));
    assert_eq!(refund.status, RefundStatus::Success);
}

#[test]
fn key_store_cache_key_shape() {
    assert_eq!(
        merchant_key_store_cache_key("merchant1"),
        "merchant_key_store_merchant1"
    );
}
