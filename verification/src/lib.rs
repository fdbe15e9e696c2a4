//! A verified core for a payment-orchestration platform.
//!
//! The crate has two parts: a connector-adapter engine that translates a
//! vendor-neutral (canonical) payment request into the Multisafepay wire
//! format and normalizes Multisafepay responses back into canonical results
//! and statuses, and an analytics query builder that compiles vendor-neutral
//! aggregate and window expressions into warehouse SQL text.

pub mod analytics;
pub mod attempt;
pub mod authorize;
pub mod canonical;
pub mod dispatch;
pub mod errors;
pub mod keystore;
pub mod multisafepay;
pub mod profile;
pub mod refunds;
pub mod text;

pub use errors::ConnectorError;
