//! Deploys a worker either to the shared `workers.dev` subdomain namespace
//! (a "zoneless" deploy) or to routes under a customer-owned zone (a "zoned"
//! deploy, delegated to an external route publisher).
//!
//! The crate holds the decision logic of that flow: checking the subdomain
//! precondition, building the publish request, interpreting the response, and
//! synthesising the deployment addresses. The network calls themselves are
//! performed by the caller, which feeds their results back in as plain values.

pub mod digits;
pub mod error;
pub mod zoneless;
pub mod dispatch;
