use replicator::client::{classify, CallOutcome, GqlResponse, GraphQLError};
use replicator::config::Config;
use replicator::digits::u64_to_string;
use replicator::identity::generate;
use replicator::level::{next_level, parse_level, MAX_LEVEL};
use replicator::payload::{build_attach_payload, build_create_payload, build_domain_payload};
use replicator::workflow::{begin, run_with, step, WorkflowAction, WorkflowState};

use std::collections::HashSet;

fn test_config() -> Config {
    Config {
        token: "tok_secret".to_string(),
        project_id: "prj_1".to_string(),
        environment_id: "env_1".to_string(),
        repo_owner: "octo".to_string(),
        repo_name: "widgets".to_string(),
        branch: "main".to_string(),
        level_input: Some("2".to_string()),
    }
}

fn delivered(data: Option<&str>, errors: Option<Vec<&str>>) -> CallOutcome {
    CallOutcome::Delivered(GqlResponse {
        data: data.map(|s| s.to_string()),
        errors: errors.map(|v| v.into_iter().map(|s| s.to_string()).collect()),
    })
}

#[test]
fn next_level_increments_numeric_input() {
    assert_eq!(next_level(Some("0")), 1);
    assert_eq!(next_level(Some("5")), 6);
    assert_eq!(next_level(Some("2147483647")), 2_147_483_648);
}

#[test]
fn next_level_defaults_to_one() {
    assert_eq!(next_level(None), 1);
    assert_eq!(next_level(Some("")), 1);
    assert_eq!(next_level(Some("abc")), 1);
    assert_eq!(next_level(Some("1x")), 1);
    assert_eq!(next_level(Some("-3")), 1);
    assert_eq!(next_level(Some("99999999999999999999")), 1);
}

#[test]
fn parse_level_reads_digits_and_caps() {
    assert_eq!(parse_level(Some("0")), 0);
    assert_eq!(parse_level(Some("41")), 41);
    assert_eq!(parse_level(Some("2147483647")), MAX_LEVEL);
    assert_eq!(parse_level(Some("2147483648")), 0);
    assert_eq!(parse_level(None), 0);
}

#[test]
fn decimal_rendering_exact() {
    assert_eq!(u64_to_string(0), "0");
    assert_eq!(u64_to_string(7), "7");
    assert_eq!(u64_to_string(10), "10");
    assert_eq!(u64_to_string(1234567890), "1234567890");
}

#[test]
fn rendered_level_reads_back() {
    for n in [0u32, 1, 9, 10, 41, 2147483647] {
        assert_eq!(parse_level(Some(&u64_to_string(n as u64))), n);
    }
}

#[test]
fn generated_tokens_do_not_collide() {
    let mut seen = HashSet::new();
    for _ in 0..1000 {
        let identity = generate(0);
        assert!(seen.insert(identity.token.clone()), "token generated twice");
    }
}

#[test]
fn generated_token_has_fixed_length() {
    let identity = generate(3);
    assert_eq!(identity.token.chars().count(), 21);
}

#[test]
fn generated_name_derives_from_token_and_next_level() {
    let identity = generate(4);
    assert_eq!(identity.name, format!("{}_level_{}", identity.token, 5));
}

#[test]
fn backend_errors_take_precedence_over_data() {
    let outcome = delivered(Some("svc_9"), Some(vec!["boom"]));
    match classify(outcome) {
        Err(GraphQLError::BackendFailure(msgs)) => assert_eq!(msgs, vec!["boom"]),
        other => panic!("expected a backend failure, got {:?}", describe(&other)),
    }
}

#[test]
fn backend_error_messages_are_joined_in_order() {
    let outcome = delivered(None, Some(vec!["first ", "second"]));
    match classify(outcome) {
        Err(e) => {
            assert!(matches!(e, GraphQLError::BackendFailure(_)));
            assert_eq!(e.message(), "first second");
        },
        other => panic!("expected a backend failure, got {:?}", describe(&other)),
    }
}

#[test]
fn empty_error_list_is_not_a_failure() {
    let outcome = delivered(Some("svc_1"), Some(vec![]));
    match classify(outcome) {
        Ok(d) => assert_eq!(d, "svc_1"),
        other => panic!("expected data, got {:?}", describe(&other)),
    }
}

#[test]
fn delivered_response_without_data_is_transport_failure() {
    let outcome = delivered(None, None);
    assert!(matches!(
        classify(outcome),
        Err(GraphQLError::TransportFailure(_))
    ));
}

#[test]
fn transport_error_classifies_as_transport_failure() {
    let outcome = CallOutcome::TransportError("connection refused".to_string());
    match classify(outcome) {
        Err(GraphQLError::TransportFailure(m)) => assert_eq!(m, "connection refused"),
        other => panic!("expected a transport failure, got {:?}", describe(&other)),
    }
}

#[test]
fn error_message_is_surfaced_unchanged() {
    let e = GraphQLError::BackendFailure(vec!["project not found".to_string()]);
    assert_eq!(e.message(), "project not found");
    let t = GraphQLError::TransportFailure("timed out".to_string());
    assert_eq!(t.message(), "timed out");
}

#[test]
fn create_payload_fields_exact() {
    let cfg = test_config();
    let identity = generate(2);
    let p = build_create_payload(&cfg, &identity, 3);
    assert_eq!(p.project_id, "prj_1");
    assert_eq!(p.environment_id.as_deref(), Some("env_1"));
    assert_eq!(p.name.as_deref(), Some(identity.name.as_str()));
    assert!(p.branch.is_none());
    assert!(p.source.is_none());
    assert_eq!(p.variables.len(), 2);
    assert_eq!(p.variables[0].0, "LEVEL");
    assert_eq!(p.variables[0].1, "3");
    assert_eq!(p.variables[1].0, "RAILWAY_TOKEN");
    assert_eq!(p.variables[1].1, "tok_secret");
}

#[test]
fn create_payload_accepts_empty_configuration() {
    let cfg = Config {
        token: String::new(),
        project_id: String::new(),
        environment_id: String::new(),
        repo_owner: String::new(),
        repo_name: String::new(),
        branch: String::new(),
        level_input: None,
    };
    let identity = generate(0);
    let p = build_create_payload(&cfg, &identity, 1);
    assert_eq!(p.project_id, "");
    assert_eq!(p.environment_id.as_deref(), Some(""));
    assert_eq!(p.variables[1].1, "");
}

#[test]
fn attach_payload_joins_owner_and_repo() {
    let cfg = test_config();
    let p = build_attach_payload(&cfg, &"svc_7".to_string());
    assert_eq!(p.service_id, "svc_7");
    assert_eq!(p.repo.as_deref(), Some("octo/widgets"));
    assert_eq!(p.branch.as_deref(), Some("main"));
    assert!(p.image.is_none());
}

#[test]
fn attach_payload_with_unset_source_binding() {
    let mut cfg = test_config();
    cfg.repo_owner = String::new();
    cfg.repo_name = String::new();
    cfg.branch = String::new();
    let p = build_attach_payload(&cfg, &"svc_7".to_string());
    assert_eq!(p.repo.as_deref(), Some("/"));
    assert_eq!(p.branch.as_deref(), Some(""));
}

#[test]
fn domain_payload_fields_exact() {
    let cfg = test_config();
    let p = build_domain_payload(&cfg, &"svc_7".to_string());
    assert_eq!(p.service_id, "svc_7");
    assert_eq!(p.environment_id, "env_1");
}

#[test]
fn begin_builds_creation_payload_from_configuration() {
    let cfg = test_config();
    let (payload, identity) = begin(&cfg);
    assert_eq!(payload.name.as_deref(), Some(identity.name.as_str()));
    assert!(identity.name.ends_with("_level_3"));
    assert_eq!(payload.variables[0].1, "3");
}

#[test]
fn step_from_start_requests_attachment() {
    let cfg = test_config();
    let (state, action) = step(WorkflowState::Start, delivered(Some("svc_123"), None), &cfg);
    match state {
        WorkflowState::Created { service_id } => assert_eq!(service_id, "svc_123"),
        _ => panic!("expected the created state"),
    }
    match action {
        Some(WorkflowAction::SendAttach(p)) => assert_eq!(p.service_id, "svc_123"),
        _ => panic!("expected an attachment request"),
    }
}

#[test]
fn step_from_failed_requests_nothing() {
    let cfg = test_config();
    let failed = WorkflowState::Failed {
        error: GraphQLError::BackendFailure(vec!["boom".to_string()]),
    };
    let (state, action) = step(failed, delivered(Some("svc_123"), None), &cfg);
    assert!(action.is_none());
    match state {
        WorkflowState::Failed {
            error: GraphQLError::BackendFailure(msgs),
        } => assert_eq!(msgs, vec!["boom"]),
        _ => panic!("expected the failure to be kept"),
    }
}

#[test]
fn scenario_all_calls_succeed() {
    let cfg = test_config();
    let outcomes = vec![
        delivered(Some("svc_123"), None),
        delivered(Some("svc_123"), None),
        delivered(Some("svc123.example.app"), None),
    ];
    let (result, calls) = run_with(&cfg, outcomes);
    assert_eq!(result.ok().as_deref(), Some("svc123.example.app"));
    assert_eq!(calls, 3);
}

#[test]
fn scenario_creation_fails_fast() {
    let cfg = test_config();
    let outcomes = vec![
        delivered(None, Some(vec!["project not found"])),
        delivered(Some("svc_123"), None),
        delivered(Some("svc123.example.app"), None),
    ];
    let (result, calls) = run_with(&cfg, outcomes);
    assert_eq!(calls, 1, "no call after the failed creation");
    match result {
        Err(e) => {
            assert!(matches!(e, GraphQLError::BackendFailure(_)));
            assert!(e.message().contains("project not found"));
        },
        _ => panic!("expected a backend failure"),
    }
}

#[test]
fn scenario_attachment_transport_error_stops_run() {
    let cfg = test_config();
    let outcomes = vec![
        delivered(Some("svc_abc"), None),
        CallOutcome::TransportError("connection reset".to_string()),
        delivered(Some("never.reached.app"), None),
    ];
    let (result, calls) = run_with(&cfg, outcomes);
    assert_eq!(calls, 2, "the domain call never occurs");
    assert!(matches!(result, Err(GraphQLError::TransportFailure(_))));
}

fn describe(r: &Result<String, GraphQLError>) -> String {
    match r {
        Ok(d) => format!("Ok({})", d),
        Err(GraphQLError::TransportFailure(m)) => format!("TransportFailure({})", m),
        Err(GraphQLError::BackendFailure(msgs)) => format!("BackendFailure({})", msgs.join(", ")),
    }
}
