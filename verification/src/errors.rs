//! Error taxonomy of the adapter core.
//!
//! Validation and mapping errors are deterministic for a given input and are
//! returned immediately; only transport errors (owned by the caller's HTTP
//! collaborator, not by this crate) are ever eligible for retry.

use vstd::prelude::*;

verus! {

/// An error produced while mapping a canonical request to a vendor request,
/// or while interpreting vendor-side auxiliary data.
#[derive(Clone, Debug)]
pub enum ConnectorError {
    /// The canonical payment-method variant has no mapping for this vendor.
    NotImplemented(String),
    /// The canonical enum value lies outside the vendor's supported catalog.
    NotSupported { message: String, connector: String },
    /// The canonical request lacked data that the vendor mapping needs.
    MissingRequiredField { field_name: String },
    /// The supplied credentials do not have the shape this vendor expects.
    FailedToObtainAuthType,
    /// Dispatch was attempted for an unknown vendor identifier.
    ConnectorNotFound,
}

/// Mathematical model of a [`ConnectorError`], with strings as `Seq<char>`.
#[verifier::ext_equal]
pub enum ConnectorErrorV {
    NotImplemented(Seq<char>),
    NotSupported { message: Seq<char>, connector: Seq<char> },
    MissingRequiredField { field_name: Seq<char> },
    FailedToObtainAuthType,
    ConnectorNotFound,
}

impl DeepView for ConnectorError {
    type V = ConnectorErrorV;

    open spec fn deep_view(&self) -> ConnectorErrorV {
        match self {
            ConnectorError::NotImplemented(m) => ConnectorErrorV::NotImplemented(m@),
            ConnectorError::NotSupported { message, connector } => ConnectorErrorV::NotSupported {
                message: message@,
                connector: connector@,
            },
            ConnectorError::MissingRequiredField { field_name } => (
                ConnectorErrorV::MissingRequiredField { field_name: field_name@ }
            ),
            ConnectorError::FailedToObtainAuthType => ConnectorErrorV::FailedToObtainAuthType,
            ConnectorError::ConnectorNotFound => ConnectorErrorV::ConnectorNotFound,
        }
    }
}

/// The message a vendor module attaches to `NotImplemented` when a canonical
/// payment-method variant has no mapping for that vendor.
pub open spec fn spec_unimplemented_method_message(connector: Seq<char>) -> Seq<char> {
    "Selected payment method through "@ + connector
}

/// Builds the `NotImplemented` message naming the vendor.
pub fn unimplemented_method_message(connector: &str) -> (r: String)
    ensures
        r@ == spec_unimplemented_method_message(connector@),
{
    let mut s = String::new();
    s.append("Selected payment method through ");
    s.append(connector);
    s
}

} // verus!
