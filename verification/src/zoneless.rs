//! The zoneless publication protocol: a single linear pass that checks the
//! subdomain precondition, builds the publish request, interprets the
//! response, and synthesises the deployment address.
//!
//! The machine never performs network I/O itself. The caller runs the two
//! blocking HTTP operations (the subdomain lookup and the publish POST) and
//! feeds each result back in as a plain value; every decision in between is
//! made here and verified against the spec-level transition functions.

use vstd::prelude::*;
use vstd::string::StringExecFns;
use crate::digits::spec_decimal;
use crate::error::DeployError;
use crate::error::ErrorModel;
use crate::error::message_model;
use crate::error::precondition_message;

verus! {

/// The publish endpoint for `script_name` under `account_id`.
pub open spec fn publish_url_model(account: Seq<char>, script: Seq<char>) -> Seq<char> {
    "https://api.cloudflare.com/client/v4/accounts/"@ + account + "/workers/scripts/"@ + script
        + "/subdomain"@
}

/// The JSON body that makes the script public on its subdomain. The same body
/// is sent on every attempt, whatever the server's prior state.
pub open spec fn enabled_body_model() -> Seq<char> {
    "{\"enabled\":true}"@
}

/// The content type of the publish request.
pub open spec fn json_content_type() -> Seq<char> {
    "application/json"@
}

/// The externally reachable address of a script deployed on a subdomain.
pub open spec fn worker_address_model(script: Seq<char>, subdomain: Seq<char>) -> Seq<char> {
    "https://"@ + script + "."@ + subdomain + ".workers.dev"@
}

/// The single POST request of the zoneless protocol, ready for a transport
/// to send.
pub struct PublishRequest {
    pub url: String,
    pub content_type: String,
    pub body: String,
}

/// Mathematical model of a `PublishRequest`.
#[verifier::ext_equal]
pub struct RequestModel {
    pub url: Seq<char>,
    pub content_type: Seq<char>,
    pub body: Seq<char>,
}

impl View for PublishRequest {
    type V = RequestModel;

    open spec fn view(&self) -> RequestModel {
        RequestModel { url: self.url@, content_type: self.content_type@, body: self.body@ }
    }
}

/// The one request the protocol ever issues: a POST of `{"enabled":true}` to
/// the script's subdomain endpoint. It depends on the account and script
/// alone.
pub open spec fn publish_request_model(account: Seq<char>, script: Seq<char>) -> RequestModel {
    RequestModel {
        url: publish_url_model(account, script),
        content_type: json_content_type(),
        body: enabled_body_model(),
    }
}

/// The JSON body `{"enabled":true}`, serialized.
pub fn build_subdomain_request() -> (r: String)
    ensures
        r@ == enabled_body_model(),
{
    "{\"enabled\":true}".to_owned()
}

/// The publish endpoint URL for the given account and script.
pub fn build_publish_url(account_id: &str, script_name: &str) -> (r: String)
    ensures
        r@ == publish_url_model(account_id@, script_name@),
{
    let mut r: String = "https://api.cloudflare.com/client/v4/accounts/".to_owned();
    r.append(account_id);
    r.append("/workers/scripts/");
    r.append(script_name);
    r.append("/subdomain");
    proof {
        assert(r@ =~= publish_url_model(account_id@, script_name@));
    }
    r
}

/// The full publish request for the given account and script.
pub fn build_publish_request(account_id: &str, script_name: &str) -> (r: PublishRequest)
    ensures
        r@ == publish_request_model(account_id@, script_name@),
{
    let r = PublishRequest {
        url: build_publish_url(account_id, script_name),
        content_type: "application/json".to_owned(),
        body: build_subdomain_request(),
    };
    proof {
        assert(r@ =~= publish_request_model(account_id@, script_name@));
    }
    r
}

/// The deployment address `https://{script_name}.{subdomain}.workers.dev`.
/// The string is merely formatted, never validated as reachable.
pub fn build_address(script_name: &str, subdomain: &str) -> (r: String)
    ensures
        r@ == worker_address_model(script_name@, subdomain@),
{
    let mut r: String = "https://".to_owned();
    r.append(script_name);
    r.append(".");
    r.append(subdomain);
    r.append(".workers.dev");
    proof {
        assert(r@ =~= worker_address_model(script_name@, subdomain@));
    }
    r
}

/// One invocation of the zoneless protocol, as a state machine. Terminal
/// states are `Succeeded` and `Failed`; no state is ever retried or resumed.
pub enum ZonelessState {
    /// Awaiting the subdomain-registration lookup for the account.
    CheckingSubdomain { account_id: String, script_name: String },
    /// The precondition held: the publish request is built and awaits its
    /// response.
    Requesting { script_name: String, subdomain: String, request: PublishRequest },
    /// The script is publicly reachable at `address`.
    Succeeded { address: String },
    /// The attempt is over; `error` says why.
    Failed { error: DeployError },
}

/// Mathematical model of a `ZonelessState`.
#[verifier::ext_equal]
pub enum StateModel {
    Checking { account: Seq<char>, script: Seq<char> },
    Requesting { script: Seq<char>, subdomain: Seq<char>, request: RequestModel },
    Succeeded { address: Seq<char> },
    Failed { error: ErrorModel },
}

impl View for ZonelessState {
    type V = StateModel;

    open spec fn view(&self) -> StateModel {
        match self {
            ZonelessState::CheckingSubdomain { account_id, script_name } => StateModel::Checking {
                account: account_id@,
                script: script_name@,
            },
            ZonelessState::Requesting { script_name, subdomain, request } => StateModel::Requesting {
                script: script_name@,
                subdomain: subdomain@,
                request: request@,
            },
            ZonelessState::Succeeded { address } => StateModel::Succeeded { address: address@ },
            ZonelessState::Failed { error } => StateModel::Failed { error: error@ },
        }
    }
}

/// The model of a subdomain lookup's outcome: the registered name, `None`
/// when nothing is registered, or a transport failure's description.
pub open spec fn lookup_model(lookup: Result<Option<String>, String>) -> Result<
    Option<Seq<char>>,
    Seq<char>,
> {
    match lookup {
        Ok(Some(name)) => Ok(Some(name@)),
        Ok(None) => Ok(None),
        Err(detail) => Err(detail@),
    }
}

/// The model of the publish call's outcome: status code and full body text,
/// or a transport failure's description (a failure to read the body counts
/// as one too).
pub open spec fn response_model(response: Result<(u16, String), String>) -> Result<
    (int, Seq<char>),
    Seq<char>,
> {
    match response {
        Ok((status, body)) => Ok((status as int, body@)),
        Err(detail) => Err(detail@),
    }
}

/// Any 2xx status is success.
pub open spec fn is_success_status(status: int) -> bool {
    200 <= status < 300
}

/// How the machine reacts to the subdomain lookup. A missing registration is
/// fatal before any publish request exists; a registered name moves the
/// machine to `Requesting`, with the one request the protocol ever sends.
/// A machine not awaiting the lookup ignores the event.
pub open spec fn spec_on_lookup(
    state: StateModel,
    lookup: Result<Option<Seq<char>>, Seq<char>>,
) -> StateModel {
    match state {
        StateModel::Checking { account, script } => match lookup {
            Ok(Some(name)) => StateModel::Requesting {
                script: script,
                subdomain: name,
                request: publish_request_model(account, script),
            },
            Ok(None) => StateModel::Failed { error: ErrorModel::Precondition },
            Err(detail) => StateModel::Failed { error: ErrorModel::Transport { detail } },
        },
        _ => state,
    }
}

/// How the machine reacts to the publish response. A 2xx status succeeds
/// with the synthesised address; any other status fails with the status and
/// body; a transport failure fails with its description. A machine not
/// awaiting the response ignores the event.
pub open spec fn spec_on_response(
    state: StateModel,
    response: Result<(int, Seq<char>), Seq<char>>,
) -> StateModel {
    match state {
        StateModel::Requesting { script, subdomain, request } => match response {
            Ok((status, body)) => if is_success_status(status) {
                StateModel::Succeeded { address: worker_address_model(script, subdomain) }
            } else {
                StateModel::Failed { error: ErrorModel::Api { status, body } }
            },
            Err(detail) => StateModel::Failed { error: ErrorModel::Transport { detail } },
        },
        _ => state,
    }
}

/// Begins a zoneless publication for the given account and script.
pub fn start_zoneless(account_id: String, script_name: String) -> (r: ZonelessState)
    ensures
        r@ == (StateModel::Checking { account: account_id@, script: script_name@ }),
{
    ZonelessState::CheckingSubdomain { account_id, script_name }
}

/// Feeds the subdomain lookup's outcome to the machine, exactly as
/// `spec_on_lookup` states.
pub fn on_subdomain_lookup(state: ZonelessState, lookup: Result<Option<String>, String>) -> (r:
    ZonelessState)
    ensures
        r@ == spec_on_lookup(state@, lookup_model(lookup)),
{
    let ghost s0 = state@;
    let ghost l0 = lookup_model(lookup);
    let r = match state {
        ZonelessState::CheckingSubdomain { account_id, script_name } => match lookup {
            Ok(Some(name)) => {
                let request = build_publish_request(account_id.as_str(), script_name.as_str());
                ZonelessState::Requesting { script_name, subdomain: name, request }
            },
            Ok(None) => ZonelessState::Failed { error: DeployError::Precondition },
            Err(detail) => ZonelessState::Failed { error: DeployError::Transport { detail } },
        },
        other => other,
    };
    proof {
        assert(r@ =~= spec_on_lookup(s0, l0));
    }
    r
}

/// Feeds the publish call's outcome to the machine, exactly as
/// `spec_on_response` states.
pub fn on_publish_response(state: ZonelessState, response: Result<(u16, String), String>) -> (r:
    ZonelessState)
    ensures
        r@ == spec_on_response(state@, response_model(response)),
{
    let ghost s0 = state@;
    let ghost r0 = response_model(response);
    let r = match state {
        ZonelessState::Requesting { script_name, subdomain, request: _ } => match response {
            Ok((status, body)) => {
                if 200 <= status && status < 300 {
                    let address = build_address(script_name.as_str(), subdomain.as_str());
                    ZonelessState::Succeeded { address }
                } else {
                    ZonelessState::Failed { error: DeployError::Api { status, body } }
                }
            },
            Err(detail) => ZonelessState::Failed { error: DeployError::Transport { detail } },
        },
        other => other,
    };
    proof {
        assert(r@ =~= spec_on_response(s0, r0));
    }
    r
}

/// When the subdomain lookup answers `None`, the deploy fails at once with
/// the precondition error — whose message is the fixed remediation text —
/// and the machine never reaches the requesting state, so no publish request
/// ever comes into being.
pub proof fn lemma_unregistered_subdomain_fails(account: Seq<char>, script: Seq<char>)
    ensures
        ({
            let after = spec_on_lookup(StateModel::Checking { account, script }, Ok(None));
            &&& after == (StateModel::Failed { error: ErrorModel::Precondition })
            &&& !(after is Requesting)
            &&& message_model(ErrorModel::Precondition) == precondition_message()
        }),
{
}

/// When the subdomain lookup answers `Some(name)` and the publish call
/// answers a success status, the machine ends in `Succeeded` with the
/// address `https://{script}.{name}.workers.dev`.
pub proof fn lemma_registered_success_address(
    account: Seq<char>,
    script: Seq<char>,
    name: Seq<char>,
    status: int,
    body: Seq<char>,
)
    requires
        is_success_status(status),
    ensures
        ({
            let after_lookup = spec_on_lookup(
                StateModel::Checking { account, script },
                Ok(Some(name)),
            );
            let after_response = spec_on_response(after_lookup, Ok((status, body)));
            after_response == (StateModel::Succeeded {
                address: worker_address_model(script, name),
            })
        }),
{
}

/// A non-success response fails the deploy with an API error carrying the
/// status code and the response body verbatim; the error's message contains
/// the decimal status code and ends with the body.
pub proof fn lemma_api_error_reported(
    script: Seq<char>,
    subdomain: Seq<char>,
    request: RequestModel,
    status: int,
    body: Seq<char>,
)
    requires
        !is_success_status(status),
        status >= 0,
    ensures
        ({
            let after = spec_on_response(
                StateModel::Requesting { script, subdomain, request },
                Ok((status, body)),
            );
            let message = message_model(ErrorModel::Api { status, body });
            &&& after == (StateModel::Failed { error: ErrorModel::Api { status, body } })
            &&& message == "Something went wrong! Status: "@ + spec_decimal(status) + ", Details "@
                + body
            &&& message.subrange(30, 30 + spec_decimal(status).len() as int) == spec_decimal(
                status,
            )
            &&& message.subrange(message.len() - body.len(), message.len() as int) == body
        }),
{
    reveal_strlit("Something went wrong! Status: ");
    reveal_strlit(", Details ");
    let message = message_model(ErrorModel::Api { status, body });
    assert(message.subrange(30, 30 + spec_decimal(status).len() as int) =~= spec_decimal(status));
    assert(message.subrange(message.len() - body.len(), message.len() as int) =~= body);
}

/// Zoneless publication is declaratively idempotent: the machine builds the
/// same request whatever the server's prior state, and two runs over the
/// same inputs that both get a success response end in the same state, with
/// identical addresses.
pub proof fn lemma_zoneless_idempotent(
    account: Seq<char>,
    script: Seq<char>,
    name: Seq<char>,
    status1: int,
    body1: Seq<char>,
    status2: int,
    body2: Seq<char>,
)
    requires
        is_success_status(status1),
        is_success_status(status2),
    ensures
        ({
            let start = StateModel::Checking { account, script };
            let first = spec_on_response(
                spec_on_lookup(start, Ok(Some(name))),
                Ok((status1, body1)),
            );
            let second = spec_on_response(
                spec_on_lookup(start, Ok(Some(name))),
                Ok((status2, body2)),
            );
            &&& first == second
            &&& first == (StateModel::Succeeded { address: worker_address_model(script, name) })
        }),
{
}

} // verus!
