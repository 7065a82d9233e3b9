//! The deploy dispatcher: selects a publication strategy from the deploy
//! target's variant and normalises the delegate's outcome into the list of
//! human-readable deployment addresses.

use vstd::prelude::*;
use vstd::pervasive::unreached;
use crate::error::DeployError;
use crate::error::ErrorModel;
use crate::zoneless::StateModel;
use crate::zoneless::is_success_status;
use crate::zoneless::spec_on_lookup;
use crate::zoneless::spec_on_response;
use crate::zoneless::worker_address_model;

verus! {

/// Where a deploy goes: the shared `workers.dev` subdomain namespace, or
/// routes under a customer-owned zone. Exactly one variant is active per
/// deploy invocation, and the selection is immutable for the call.
pub enum DeployTarget {
    /// A zoneless deploy: publish the script on the account's registered
    /// subdomain.
    Zoneless { account_id: String, script_name: String },
    /// A zoned deploy: publish to routes under the given zone. The route
    /// data itself is owned by the external route publisher.
    Zoned { zone_id: String },
}

/// Mathematical model of a `DeployTarget`.
#[verifier::ext_equal]
pub enum TargetModel {
    Zoneless { account: Seq<char>, script: Seq<char> },
    Zoned { zone: Seq<char> },
}

impl View for DeployTarget {
    type V = TargetModel;

    open spec fn view(&self) -> TargetModel {
        match self {
            DeployTarget::Zoneless { account_id, script_name } => TargetModel::Zoneless {
                account: account_id@,
                script: script_name@,
            },
            DeployTarget::Zoned { zone_id } => TargetModel::Zoned { zone: zone_id@ },
        }
    }
}

/// What the selected delegate produced, handed back by the caller that ran
/// it.
pub enum DelegateOutcome {
    /// The zoneless publisher's outcome: a single deployment address.
    Zoneless { result: Result<String, DeployError> },
    /// The route publisher's outcome: its published routes, each already
    /// rendered to its canonical string form, in the publisher's order.
    Zoned { result: Result<Vec<String>, DeployError> },
}

/// Mathematical model of a `DelegateOutcome`.
#[verifier::ext_equal]
pub enum OutcomeModel {
    Zoneless { result: Result<Seq<char>, ErrorModel> },
    Zoned { result: Result<Seq<Seq<char>>, ErrorModel> },
}

impl View for DelegateOutcome {
    type V = OutcomeModel;

    open spec fn view(&self) -> OutcomeModel {
        match self {
            DelegateOutcome::Zoneless { result: Ok(address) } => OutcomeModel::Zoneless {
                result: Ok(address@),
            },
            DelegateOutcome::Zoneless { result: Err(e) } => OutcomeModel::Zoneless {
                result: Err(e@),
            },
            DelegateOutcome::Zoned { result: Ok(routes) } => OutcomeModel::Zoned {
                result: Ok(routes.deep_view()),
            },
            DelegateOutcome::Zoned { result: Err(e) } => OutcomeModel::Zoned { result: Err(e@) },
        }
    }
}

/// Whether the outcome came from the delegate that the target selects.
pub open spec fn outcome_fits_target(target: TargetModel, outcome: OutcomeModel) -> bool {
    target is Zoneless <==> outcome is Zoneless
}

/// What the dispatcher returns: the zoneless address wrapped as a one-element
/// sequence; the route publisher's rendered routes unchanged, in its order;
/// any delegate error verbatim.
pub open spec fn spec_worker(outcome: OutcomeModel) -> Result<Seq<Seq<char>>, ErrorModel> {
    match outcome {
        OutcomeModel::Zoneless { result: Ok(address) } => Ok(seq![address]),
        OutcomeModel::Zoneless { result: Err(e) } => Err(e),
        OutcomeModel::Zoned { result: Ok(routes) } => Ok(routes),
        OutcomeModel::Zoned { result: Err(e) } => Err(e),
    }
}

/// The model of the dispatcher's result.
pub open spec fn published_model(r: Result<Vec<String>, DeployError>) -> Result<
    Seq<Seq<char>>,
    ErrorModel,
> {
    match r {
        Ok(addresses) => Ok(addresses.deep_view()),
        Err(e) => Err(e@),
    }
}

/// Publishes a worker to its deploy target. The caller runs the delegate the
/// target selects (the zoneless publisher, or the external route publisher)
/// and hands its outcome in; this function normalises it exactly as
/// `spec_worker` states, surfacing any delegate error verbatim.
pub fn worker(target: &DeployTarget, outcome: DelegateOutcome) -> (r: Result<
    Vec<String>,
    DeployError,
>)
    requires
        outcome_fits_target(target@, outcome@),
    ensures
        published_model(r) == spec_worker(outcome@),
{
    let ghost o0 = outcome@;
    let r: Result<Vec<String>, DeployError> = match target {
        DeployTarget::Zoneless { .. } => match outcome {
            DelegateOutcome::Zoneless { result: Ok(address) } => {
                let mut addresses: Vec<String> = Vec::new();
                addresses.push(address);
                Ok(addresses)
            },
            DelegateOutcome::Zoneless { result: Err(e) } => Err(e),
            DelegateOutcome::Zoned { .. } => unreached(),
        },
        DeployTarget::Zoned { .. } => match outcome {
            DelegateOutcome::Zoned { result: Ok(routes) } => Ok(routes),
            DelegateOutcome::Zoned { result: Err(e) } => Err(e),
            DelegateOutcome::Zoneless { .. } => unreached(),
        },
    };
    proof {
        match &r {
            Ok(addresses) => {
                assert(addresses.deep_view() =~= spec_worker(o0)->Ok_0);
            },
            Err(_) => {},
        }
    }
    r
}

/// End to end, the happy zoneless path: a registered subdomain and a
/// success response drive the machine to `Succeeded`, and the dispatcher
/// returns exactly one address, `https://{script}.{name}.workers.dev`.
pub proof fn lemma_publish_zoneless_success(
    account: Seq<char>,
    script: Seq<char>,
    name: Seq<char>,
    status: int,
    body: Seq<char>,
)
    requires
        is_success_status(status),
    ensures
        ({
            let after_lookup = spec_on_lookup(
                StateModel::Checking { account, script },
                Ok(Some(name)),
            );
            let after_response = spec_on_response(after_lookup, Ok((status, body)));
            let address = worker_address_model(script, name);
            &&& after_response == (StateModel::Succeeded { address })
            &&& spec_worker(OutcomeModel::Zoneless { result: Ok(address) }) matches Ok(published)
                && published.len() == 1 && published[0] == address
        }),
{
}

/// Every delegate error surfaces verbatim: the dispatcher neither
/// reinterprets nor recovers it. In particular a missing subdomain
/// registration ends the deploy with the precondition error itself.
pub proof fn lemma_delegate_errors_propagate(e: ErrorModel)
    ensures
        spec_worker(OutcomeModel::Zoneless { result: Err(e) }) == Result::<
            Seq<Seq<char>>,
            ErrorModel,
        >::Err(e),
        spec_worker(OutcomeModel::Zoned { result: Err(e) }) == Result::<
            Seq<Seq<char>>,
            ErrorModel,
        >::Err(e),
{
}

/// The zoned result is handed through unchanged: the returned sequence has
/// the route publisher's length and order, each element that route's
/// rendered string form.
pub proof fn lemma_zoned_routes_preserved(routes: Seq<Seq<char>>)
    ensures
        spec_worker(OutcomeModel::Zoned { result: Ok(routes) }) == Result::<
            Seq<Seq<char>>,
            ErrorModel,
        >::Ok(routes),
{
}

} // verus!
