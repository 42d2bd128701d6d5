use pact_verifier_nif::dispatch::{
    conclude_verification, prepare_verification, verify_provider, VerificationEngine,
    VerificationRequest,
};
use pact_verifier_nif::engine::{FilterInfo, PactSource};
use pact_verifier_nif::host::{
    ExFilterInfo, ExHttpRequestProviderStateExecutor, ExPactSource, ExProviderInfo,
    ExVerificationOptions,
};
use std::collections::HashMap;

fn sample_provider() -> ExProviderInfo {
    ExProviderInfo {
        name: "order-service".to_string(),
        protocol: "http".to_string(),
        host: "localhost".to_string(),
        port: Some(8080),
        path: "/".to_string(),
        transports: vec![],
    }
}

fn sample_options() -> ExVerificationOptions {
    ExVerificationOptions {
        disable_ssl_verification: false,
        request_timeout: 30000,
        custom_headers: HashMap::new(),
        coloured_output: false,
        no_pacts_is_error: true,
        exit_on_first_failure: false,
        run_last_failed_only: false,
    }
}

fn sample_state_executor() -> ExHttpRequestProviderStateExecutor {
    ExHttpRequestProviderStateExecutor {
        state_change_url: Some("http://localhost:8080/state".to_string()),
        state_change_teardown: true,
        state_change_body: true,
        retries: 3,
    }
}

/// An engine stub that records what it was handed and replies as told.
struct StubEngine {
    reply: Result<bool, String>,
    seen_provider_name: Option<String>,
    seen_source_count: usize,
    calls: usize,
}

impl StubEngine {
    fn replying(reply: Result<bool, String>) -> StubEngine {
        StubEngine { reply, seen_provider_name: None, seen_source_count: 0, calls: 0 }
    }
}

impl VerificationEngine for StubEngine {
    fn verify(&mut self, request: VerificationRequest) -> Result<bool, String> {
        self.calls += 1;
        self.seen_provider_name = Some(request.provider.name.clone());
        self.seen_source_count = request.sources.len();
        self.reply.clone()
    }
}

/// Scenario: an engine failure is raised under the stable tag with the
/// engine's message kept verbatim.
#[test]
fn scenario_engine_error_raises_with_stable_tag() {
    let mut engine = StubEngine::replying(Err("timeout".to_string()));
    let outcome = verify_provider(
        &mut engine,
        sample_provider(),
        vec![ExPactSource::File("pact.json".to_string())],
        ExFilterInfo::NoFilter,
        vec![],
        sample_options(),
        None,
        sample_state_executor(),
        None,
    );
    match outcome {
        Err(raised) => {
            assert_eq!(raised.tag, "invalid_interaction_builder_reference");
            assert!(raised.message.contains("timeout"));
        }
        Ok(_) => panic!("an engine error must raise, not return"),
    }
    assert_eq!(engine.calls, 1);
}

/// Scenario: a verification that ran and failed is a normal `false` return,
/// not an error.
#[test]
fn scenario_failed_verification_returns_false() {
    let mut engine = StubEngine::replying(Ok(false));
    let outcome = verify_provider(
        &mut engine,
        sample_provider(),
        vec![],
        ExFilterInfo::NoFilter,
        vec![],
        sample_options(),
        None,
        sample_state_executor(),
        None,
    );
    assert_eq!(outcome.ok(), Some(false));
}

#[test]
fn passed_verification_returns_true() {
    let mut engine = StubEngine::replying(Ok(true));
    let outcome = verify_provider(
        &mut engine,
        sample_provider(),
        vec![],
        ExFilterInfo::NoFilter,
        vec!["web-app".to_string()],
        sample_options(),
        None,
        sample_state_executor(),
        None,
    );
    assert_eq!(outcome.ok(), Some(true));
}

#[test]
fn engine_receives_the_adapted_values() {
    let mut engine = StubEngine::replying(Ok(true));
    let _ = verify_provider(
        &mut engine,
        sample_provider(),
        vec![
            ExPactSource::File("a.json".to_string()),
            ExPactSource::Dir("pacts/".to_string()),
        ],
        ExFilterInfo::NoFilter,
        vec![],
        sample_options(),
        None,
        sample_state_executor(),
        None,
    );
    assert_eq!(engine.seen_provider_name, Some("order-service".to_string()));
    assert_eq!(engine.seen_source_count, 2);
}

#[test]
fn conclude_keeps_both_booleans_and_the_message() {
    assert_eq!(conclude_verification(Ok(true)).ok(), Some(true));
    assert_eq!(conclude_verification(Ok(false)).ok(), Some(false));
    let raised = conclude_verification(Err("broker unreachable".to_string())).unwrap_err();
    assert_eq!(raised.tag, "invalid_interaction_builder_reference");
    assert_eq!(raised.message, "broker unreachable");
}

#[test]
fn prepare_bundles_every_input() {
    let request = prepare_verification(
        sample_provider(),
        vec![ExPactSource::String("{}".to_string())],
        ExFilterInfo::Description("GET /orders".to_string()),
        vec!["web-app".to_string(), "mobile-app".to_string()],
        sample_options(),
        None,
        sample_state_executor(),
        None,
    );
    assert_eq!(request.provider.name, "order-service");
    assert_eq!(request.sources.len(), 1);
    assert!(matches!(&request.sources[0], PactSource::String(raw) if raw == "{}"));
    assert!(matches!(&request.filter, FilterInfo::Description(d) if d == "GET /orders"));
    assert_eq!(request.consumers, vec!["web-app".to_string(), "mobile-app".to_string()]);
    assert!(request.options.request_filter.is_none());
    assert_eq!(request.options.request_timeout, 30000);
    assert!(request.publish.is_none());
    assert_eq!(request.state_executor.state_change_url, Some(
        "http://localhost:8080/state".to_string(),
    ));
    assert_eq!(request.state_executor.retries, 3);
    assert!(request.metrics.is_none());
}
