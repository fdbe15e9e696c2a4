//! The Multisafepay refund flow: mapping the canonical refund request to the
//! vendor request body, and normalizing the vendor refund response — for
//! both the initial refund call and the later status poll, whose error
//! handling differs.

use vstd::prelude::*;

use crate::canonical::{
    ErrorResponse, ErrorResponseV, RefundRequestData, RefundsResponseData, RefundsResponseDataV,
};
use crate::multisafepay::{
    populate_error_reason, refund_status_from, spec_attempt_status_for_error_code,
    spec_populate_error_reason, spec_refund_status, MultisafepayRefundRequest,
    MultisafepayRefundRequestV, MultisafepayRefundResponse, RefundResponse, RefundStatus,
};
use crate::text::{i32_to_string, i64_to_string, spec_idec};

verus! {

/// The refund request body built from the canonical refund data.
pub open spec fn spec_build_refund(item: RefundRequestData) -> MultisafepayRefundRequestV {
    MultisafepayRefundRequestV {
        currency: item.currency@,
        amount: item.amount,
        description: item.description.deep_view(),
        refund_order_id: Some(item.refund_id@),
    }
}

/// Maps the canonical refund data to the Multisafepay refund request body.
/// This mapping is total: every canonical refund request has a vendor shape.
pub fn build_refund_request(item: &RefundRequestData) -> (r: MultisafepayRefundRequest)
    ensures
        r.deep_view() == spec_build_refund(*item),
{
    let r = MultisafepayRefundRequest {
        currency: item.currency.clone(),
        amount: item.amount,
        description: item.description.clone(),
        refund_order_id: Some(item.refund_id.clone()),
    };
    proof {
        assert(r.deep_view() =~~= spec_build_refund(*item));
    }
    r
}

/// The vendor refund status of a success-shaped refund response: succeeded
/// when the vendor flag says success, failed otherwise.
pub open spec fn spec_refund_response_status(resp: RefundResponse) -> RefundStatus {
    if resp.success {
        RefundStatus::Succeeded
    } else {
        RefundStatus::Failed
    }
}

/// What a refund response normalizes to: the canonical refund result or the
/// canonical error envelope.
pub type RefundOutcome = Result<RefundsResponseData, ErrorResponse>;

/// Model of a [`RefundOutcome`].
pub type RefundOutcomeV = Result<RefundsResponseDataV, ErrorResponseV>;

/// The normalization of a refund response for the initial refund call: on
/// the error shape, the vendor code and message go through the never-empty
/// envelope and the error-code table supplies the attempt status.
pub open spec fn spec_parse_refund(resp: MultisafepayRefundResponse, http_code: u16) -> (
    RefundOutcomeV
) {
    match resp {
        MultisafepayRefundResponse::RefundResponse(refund_data) => Ok(
            RefundsResponseDataV {
                connector_refund_id: spec_idec(refund_data.data.refund_id as int),
                refund_status: spec_refund_status(spec_refund_response_status(refund_data)),
            },
        ),
        MultisafepayRefundResponse::ErrorResponse(e) => Err(
            spec_populate_error_reason(
                Some(spec_idec(e.error_code as int)),
                Some(e.error_info@),
                Some(e.error_info@),
                http_code,
                spec_attempt_status_for_error_code(e.error_code),
                None,
            ),
        ),
    }
}

/// Normalizes the vendor response to the initial refund call. An error
/// outcome never carries an empty code or message.
pub fn parse_refund_response(response: MultisafepayRefundResponse, http_code: u16) -> (r:
    RefundOutcome)
    ensures
        r matches Ok(d) ==> spec_parse_refund(response, http_code) == Ok::<
            RefundsResponseDataV,
            ErrorResponseV,
        >(d.deep_view()),
        r matches Err(e) ==> spec_parse_refund(response, http_code) == Err::<
            RefundsResponseDataV,
            ErrorResponseV,
        >(e.deep_view()),
        r matches Err(e) ==> e.code@.len() > 0 && e.message@.len() > 0,
{
    match response {
        MultisafepayRefundResponse::RefundResponse(refund_data) => {
            let refund_status = if refund_data.success {
                RefundStatus::Succeeded
            } else {
                RefundStatus::Failed
            };
            Ok(
                RefundsResponseData {
                    connector_refund_id: i64_to_string(refund_data.data.refund_id),
                    refund_status: refund_status_from(refund_status),
                },
            )
        },
        MultisafepayRefundResponse::ErrorResponse(error_response) => {
            let attempt_status = error_response.attempt_status();
            let code = i32_to_string(error_response.error_code);
            Err(
                populate_error_reason(
                    Some(code),
                    Some(error_response.error_info.clone()),
                    Some(error_response.error_info.clone()),
                    http_code,
                    attempt_status,
                    None,
                ),
            )
        },
    }
}

/// The normalization of a refund response for the status poll: the success
/// shape is handled as in the initial call, but the error shape never
/// carries an attempt status.
pub open spec fn spec_parse_refund_sync(resp: MultisafepayRefundResponse, http_code: u16) -> (
    RefundOutcomeV
) {
    match resp {
        MultisafepayRefundResponse::RefundResponse(refund_data) => Ok(
            RefundsResponseDataV {
                connector_refund_id: spec_idec(refund_data.data.refund_id as int),
                refund_status: spec_refund_status(spec_refund_response_status(refund_data)),
            },
        ),
        MultisafepayRefundResponse::ErrorResponse(e) => Err(
            spec_populate_error_reason(
                Some(spec_idec(e.error_code as int)),
                Some(e.error_info@),
                Some(e.error_info@),
                http_code,
                None,
                None,
            ),
        ),
    }
}

/// Normalizes the vendor response to a refund status poll. An error outcome
/// never carries an empty code or message.
pub fn parse_refund_sync_response(response: MultisafepayRefundResponse, http_code: u16) -> (r:
    RefundOutcome)
    ensures
        r matches Ok(d) ==> spec_parse_refund_sync(response, http_code) == Ok::<
            RefundsResponseDataV,
            ErrorResponseV,
        >(d.deep_view()),
        r matches Err(e) ==> spec_parse_refund_sync(response, http_code) == Err::<
            RefundsResponseDataV,
            ErrorResponseV,
        >(e.deep_view()),
        r matches Err(e) ==> e.code@.len() > 0 && e.message@.len() > 0,
{
    match response {
        MultisafepayRefundResponse::RefundResponse(refund_data) => {
            let refund_status = if refund_data.success {
                RefundStatus::Succeeded
            } else {
                RefundStatus::Failed
            };
            Ok(
                RefundsResponseData {
                    connector_refund_id: i64_to_string(refund_data.data.refund_id),
                    refund_status: refund_status_from(refund_status),
                },
            )
        },
        MultisafepayRefundResponse::ErrorResponse(error_response) => {
            let code = i32_to_string(error_response.error_code);
            Err(
                populate_error_reason(
                    Some(code),
                    Some(error_response.error_info.clone()),
                    Some(error_response.error_info.clone()),
                    http_code,
                    None,
                    None,
                ),
            )
        },
    }
}

/// Refund normalization is deterministic: the same vendor refund response
/// always yields the same canonical outcome, for both the initial call and
/// the status poll.
pub proof fn lemma_parse_refund_idempotent(
    a: MultisafepayRefundResponse,
    b: MultisafepayRefundResponse,
    http_code: u16,
)
    requires
        a == b,
    ensures
        spec_parse_refund(a, http_code) == spec_parse_refund(b, http_code),
        spec_parse_refund_sync(a, http_code) == spec_parse_refund_sync(b, http_code),
{
}

} // verus!
