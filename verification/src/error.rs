//! The error taxonomy of a deploy attempt. Every error is terminal for the
//! attempt: it is surfaced to the caller verbatim, never retried.

use vstd::prelude::*;
use vstd::string::StringExecFns;
use crate::digits::decimal_string;
use crate::digits::spec_decimal;

verus! {

/// Why a deploy attempt failed.
#[derive(Debug)]
pub enum DeployError {
    /// The account has no registered `workers.dev` subdomain, so a zoneless
    /// deploy cannot proceed. User-actionable: a subdomain must be registered
    /// first, via a separate command.
    Precondition,
    /// A network-level failure at one of the HTTP steps, carrying the
    /// transport's own description of what went wrong.
    Transport { detail: String },
    /// The publish endpoint answered with a non-success status, carrying the
    /// numeric status code and the full response body for diagnosis.
    Api { status: u16, body: String },
}

/// Mathematical model of a `DeployError`.
#[verifier::ext_equal]
pub enum ErrorModel {
    Precondition,
    Transport { detail: Seq<char> },
    Api { status: int, body: Seq<char> },
}

impl View for DeployError {
    type V = ErrorModel;

    open spec fn view(&self) -> ErrorModel {
        match self {
            DeployError::Precondition => ErrorModel::Precondition,
            DeployError::Transport { detail } => ErrorModel::Transport { detail: detail@ },
            DeployError::Api { status, body } => ErrorModel::Api {
                status: *status as int,
                body: body@,
            },
        }
    }
}

/// The remediation text shown when no subdomain is registered.
pub open spec fn precondition_message() -> Seq<char> {
    "Before publishing to workers.dev, you must register a subdomain. Please choose a name for your subdomain and run `wrangler subdomain <name>`."@
}

/// The user-facing message of each error: the fixed remediation text for a
/// missing subdomain, the transport's description verbatim, or the status code
/// and response body of a failed API call.
pub open spec fn message_model(e: ErrorModel) -> Seq<char> {
    match e {
        ErrorModel::Precondition => precondition_message(),
        ErrorModel::Transport { detail } => detail,
        ErrorModel::Api { status, body } => "Something went wrong! Status: "@ + spec_decimal(
            status,
        ) + ", Details "@ + body,
    }
}

impl DeployError {
    /// Renders the error for the user, exactly as `message_model` states.
    pub fn message(&self) -> (r: String)
        ensures
            r@ == message_model(self@),
    {
        match self {
            DeployError::Precondition => {
                "Before publishing to workers.dev, you must register a subdomain. Please choose a name for your subdomain and run `wrangler subdomain <name>`.".to_owned()
            },
            DeployError::Transport { detail } => detail.clone(),
            DeployError::Api { status, body } => {
                let mut r: String = "Something went wrong! Status: ".to_owned();
                let status_digits = decimal_string(*status);
                r.append(status_digits.as_str());
                r.append(", Details ");
                r.append(body.as_str());
                proof {
                    assert(r@ =~= message_model(self@));
                }
                r
            },
        }
    }
}

} // verus!
