use worker_deploy::digits::decimal_string;
use worker_deploy::dispatch::DelegateOutcome;
use worker_deploy::dispatch::DeployTarget;
use worker_deploy::dispatch::worker;
use worker_deploy::error::DeployError;
use worker_deploy::zoneless::ZonelessState;
use worker_deploy::zoneless::build_address;
use worker_deploy::zoneless::build_publish_url;
use worker_deploy::zoneless::build_subdomain_request;
use worker_deploy::zoneless::on_publish_response;
use worker_deploy::zoneless::on_subdomain_lookup;
use worker_deploy::zoneless::start_zoneless;

fn run_zoneless(
    account_id: &str,
    script_name: &str,
    lookup: Result<Option<String>, String>,
    response: Result<(u16, String), String>,
) -> ZonelessState {
    let state = start_zoneless(account_id.to_string(), script_name.to_string());
    let state = on_subdomain_lookup(state, lookup);
    match state {
        ZonelessState::Requesting { .. } => on_publish_response(state, response),
        other => other,
    }
}

#[test]
fn zoneless_success_example() {
    let state = run_zoneless(
        "acct1",
        "my-worker",
        Ok(Some("myteam".to_string())),
        Ok((200, "{\"success\":true}".to_string())),
    );
    match state {
        ZonelessState::Succeeded { address } => {
            assert_eq!(address, "https://my-worker.myteam.workers.dev");
        }
        _ => panic!("expected a successful deploy"),
    }
}

#[test]
fn zoneless_success_through_worker() {
    let target = DeployTarget::Zoneless {
        account_id: "acct1".to_string(),
        script_name: "my-worker".to_string(),
    };
    let outcome = DelegateOutcome::Zoneless {
        result: Ok("https://my-worker.myteam.workers.dev".to_string()),
    };
    let published = worker(&target, outcome).unwrap();
    assert_eq!(published, vec!["https://my-worker.myteam.workers.dev".to_string()]);
}

#[test]
fn zoneless_unregistered_subdomain() {
    let state = start_zoneless("acct1".to_string(), "my-worker".to_string());
    let state = on_subdomain_lookup(state, Ok(None));
    match state {
        ZonelessState::Failed { error: DeployError::Precondition } => {}
        _ => panic!("expected the precondition failure"),
    }
}

#[test]
fn precondition_message_names_remediation() {
    let message = DeployError::Precondition.message();
    assert!(message.contains("wrangler subdomain <name>"));
    assert_eq!(
        message,
        "Before publishing to workers.dev, you must register a subdomain. \
         Please choose a name for your subdomain and run `wrangler subdomain <name>`."
    );
}

#[test]
fn unregistered_subdomain_issues_no_publish_request() {
    // The machine goes straight from the lookup to the terminal failure:
    // it never holds a publish request that a transport could send.
    let state = start_zoneless("acct1".to_string(), "my-worker".to_string());
    let state = on_subdomain_lookup(state, Ok(None));
    assert!(!matches!(state, ZonelessState::Requesting { .. }));
    assert!(matches!(state, ZonelessState::Failed { .. }));
}

#[test]
fn publish_request_is_built_from_account_and_script() {
    let state = start_zoneless("acct1".to_string(), "my-worker".to_string());
    let state = on_subdomain_lookup(state, Ok(Some("myteam".to_string())));
    match state {
        ZonelessState::Requesting { request, subdomain, .. } => {
            assert_eq!(subdomain, "myteam");
            assert_eq!(
                request.url,
                "https://api.cloudflare.com/client/v4/accounts/acct1/workers/scripts/my-worker/subdomain"
            );
            assert_eq!(request.content_type, "application/json");
            assert_eq!(request.body, "{\"enabled\":true}");
        }
        _ => panic!("expected the requesting state"),
    }
}

#[test]
fn zoneless_api_error() {
    let state = run_zoneless(
        "acct1",
        "my-worker",
        Ok(Some("myteam".to_string())),
        Ok((403, "forbidden".to_string())),
    );
    match state {
        ZonelessState::Failed { error } => {
            match &error {
                DeployError::Api { status, body } => {
                    assert_eq!(*status, 403);
                    assert_eq!(body, "forbidden");
                }
                _ => panic!("expected the API error"),
            }
            let message = error.message();
            assert!(message.contains("403"));
            assert!(message.contains("forbidden"));
            assert_eq!(message, "Something went wrong! Status: 403, Details forbidden");
        }
        _ => panic!("expected a failed deploy"),
    }
}

#[test]
fn status_boundaries() {
    for status in [200u16, 204, 299] {
        let state = run_zoneless(
            "acct1",
            "my-worker",
            Ok(Some("myteam".to_string())),
            Ok((status, String::new())),
        );
        assert!(matches!(state, ZonelessState::Succeeded { .. }), "status {status}");
    }
    for status in [199u16, 300, 404, 500] {
        let state = run_zoneless(
            "acct1",
            "my-worker",
            Ok(Some("myteam".to_string())),
            Ok((status, String::new())),
        );
        assert!(
            matches!(state, ZonelessState::Failed { error: DeployError::Api { .. } }),
            "status {status}"
        );
    }
}

#[test]
fn zoneless_lookup_transport_error() {
    let state = start_zoneless("acct1".to_string(), "my-worker".to_string());
    let state = on_subdomain_lookup(state, Err("connection refused".to_string()));
    match state {
        ZonelessState::Failed { error } => {
            match &error {
                DeployError::Transport { detail } => assert_eq!(detail, "connection refused"),
                _ => panic!("expected the transport error"),
            }
            assert_eq!(error.message(), "connection refused");
        }
        _ => panic!("expected a failed deploy"),
    }
}

#[test]
fn zoneless_publish_transport_error() {
    let state = run_zoneless(
        "acct1",
        "my-worker",
        Ok(Some("myteam".to_string())),
        Err("timed out reading the body".to_string()),
    );
    match state {
        ZonelessState::Failed { error: DeployError::Transport { detail } } => {
            assert_eq!(detail, "timed out reading the body");
        }
        _ => panic!("expected the transport error"),
    }
}

#[test]
fn zoneless_idempotent_repeat() {
    // The server is already enabled; both runs send the same request and
    // both succeed with an identical address.
    let first = run_zoneless(
        "acct1",
        "my-worker",
        Ok(Some("myteam".to_string())),
        Ok((200, "{\"success\":true}".to_string())),
    );
    let second = run_zoneless(
        "acct1",
        "my-worker",
        Ok(Some("myteam".to_string())),
        Ok((200, "{\"success\":true,\"already\":true}".to_string())),
    );
    match (first, second) {
        (
            ZonelessState::Succeeded { address: first_address },
            ZonelessState::Succeeded { address: second_address },
        ) => {
            assert_eq!(first_address, second_address);
            assert_eq!(first_address, "https://my-worker.myteam.workers.dev");
        }
        _ => panic!("expected both deploys to succeed"),
    }
}

#[test]
fn terminal_state_ignores_late_events() {
    let state = start_zoneless("acct1".to_string(), "my-worker".to_string());
    let state = on_subdomain_lookup(state, Ok(None));
    let state = on_publish_response(state, Ok((200, String::new())));
    assert!(matches!(
        state,
        ZonelessState::Failed { error: DeployError::Precondition }
    ));
}

#[test]
fn zoned_routes_preserved() {
    let target = DeployTarget::Zoned { zone_id: "zone1".to_string() };
    let routes = vec![
        "example.com/*".to_string(),
        "staging.example.com/api/*".to_string(),
        "example.com/admin".to_string(),
    ];
    let outcome = DelegateOutcome::Zoned { result: Ok(routes.clone()) };
    let published = worker(&target, outcome).unwrap();
    assert_eq!(published, routes);
}

#[test]
fn zoned_error_propagates() {
    let target = DeployTarget::Zoned { zone_id: "zone1".to_string() };
    let outcome = DelegateOutcome::Zoned {
        result: Err(DeployError::Api { status: 500, body: "server error".to_string() }),
    };
    match worker(&target, outcome) {
        Err(DeployError::Api { status, body }) => {
            assert_eq!(status, 500);
            assert_eq!(body, "server error");
        }
        _ => panic!("expected the delegate's error verbatim"),
    }
}

#[test]
fn zoneless_error_propagates_through_worker() {
    let target = DeployTarget::Zoneless {
        account_id: "acct1".to_string(),
        script_name: "my-worker".to_string(),
    };
    let outcome = DelegateOutcome::Zoneless { result: Err(DeployError::Precondition) };
    match worker(&target, outcome) {
        Err(DeployError::Precondition) => {}
        _ => panic!("expected the precondition error verbatim"),
    }
}

#[test]
fn builders_format_exactly() {
    assert_eq!(
        build_publish_url("acct1", "my-worker"),
        "https://api.cloudflare.com/client/v4/accounts/acct1/workers/scripts/my-worker/subdomain"
    );
    assert_eq!(build_subdomain_request(), "{\"enabled\":true}");
    assert_eq!(build_address("my-worker", "myteam"), "https://my-worker.myteam.workers.dev");
}

#[test]
fn decimal_rendering() {
    assert_eq!(decimal_string(0), "0");
    assert_eq!(decimal_string(7), "7");
    assert_eq!(decimal_string(10), "10");
    assert_eq!(decimal_string(200), "200");
    assert_eq!(decimal_string(403), "403");
    assert_eq!(decimal_string(65535), "65535");
}
