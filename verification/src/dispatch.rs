//! The adapter registry: selecting the adapter for a vendor identifier and
//! invoking its build and parse steps uniformly. The network call between
//! build and parse belongs to the external transport collaborator; the
//! dispatcher only picks and sequences the adapter calls around it.

use vstd::prelude::*;

use crate::authorize::{
    build_authorize_request, parse_authorize_response, spec_build_authorize, spec_parse_authorize,
    AuthorizeOutcome,
};
use crate::canonical::AuthorizeRequest;
use crate::errors::{ConnectorError, ConnectorErrorV};
use crate::multisafepay::{
    MultisafepayAuthResponse, MultisafepayPaymentsRequest, MultisafepayPaymentsRequestV,
};
use crate::text::str_eq;

verus! {

/// The vendors this registry can dispatch to.
#[derive(Clone, Copy, Debug, PartialEq, Eq)]
pub enum ConnectorKind {
    Multisafepay,
}

/// Selects the adapter for a vendor identifier. Dispatch never panics on an
/// unknown identifier: it reports `ConnectorNotFound`.
pub fn connector_by_id(id: &str) -> (r: Result<ConnectorKind, ConnectorError>)
    ensures
        id@ == "multisafepay"@ ==> (r matches Ok(c) && c == ConnectorKind::Multisafepay),
        id@ != "multisafepay"@ ==> (r matches Err(e) && e.deep_view()
            == ConnectorErrorV::ConnectorNotFound),
{
    if str_eq(id, "multisafepay") {
        Ok(ConnectorKind::Multisafepay)
    } else {
        Err(ConnectorError::ConnectorNotFound)
    }
}

/// A vendor request, tagged by the adapter that built it.
#[derive(Clone, Debug, PartialEq, Eq)]
pub enum VendorRequest {
    Multisafepay(MultisafepayPaymentsRequest),
}

/// A vendor authorize response, tagged by the adapter that must parse it.
#[derive(Clone, Debug, PartialEq, Eq)]
pub enum VendorAuthResponse {
    Multisafepay(MultisafepayAuthResponse),
}

/// Builds the authorize request through the selected adapter.
pub fn dispatch_build_authorize(connector: ConnectorKind, item: &AuthorizeRequest) -> (r: Result<
    VendorRequest,
    ConnectorError,
>)
    ensures
        r matches Ok(v) ==> (v matches VendorRequest::Multisafepay(req) && spec_build_authorize(
            *item,
        ) == Ok::<MultisafepayPaymentsRequestV, ConnectorErrorV>(req.deep_view())),
        r matches Err(e) ==> spec_build_authorize(*item) == Err::<
            MultisafepayPaymentsRequestV,
            ConnectorErrorV,
        >(e.deep_view()),
{
    match connector {
        ConnectorKind::Multisafepay => match build_authorize_request(item) {
            Ok(req) => Ok(VendorRequest::Multisafepay(req)),
            Err(e) => Err(e),
        },
    }
}

/// Parses the authorize response through the adapter that sent the request.
pub fn dispatch_parse_authorize(response: VendorAuthResponse, http_code: u16) -> (r:
    AuthorizeOutcome)
    ensures
        response matches VendorAuthResponse::Multisafepay(resp) ==> r.deep_view()
            == spec_parse_authorize(resp, http_code),
{
    match response {
        VendorAuthResponse::Multisafepay(resp) => parse_authorize_response(resp, http_code),
    }
}

} // verus!
