use pact_verifier_nif::adapt::{
    adapt_auth_option, adapt_filter_ids, adapt_links, adapt_selectors, adapt_sources,
    adapt_transports,
};
use pact_verifier_nif::engine::{
    ConsumerVersionSelector, FilterById, FilterInfo, HttpAuth, HttpRequest, Link, OptionalBody,
    PactSource, ProviderInfo, ProviderTransport, PublishOptions, VerificationMetrics,
    VerificationOptions,
};
use pact_verifier_nif::host::{
    ExConsumerVersionSelector, ExFilterById, ExFilterInfo, ExHttpAuth, ExHttpRequest, ExLink,
    ExPactSource, ExProviderInfo, ExProviderTransport, ExPublishOptions, ExTokenAuth,
    ExUserAuth, ExVerificationMetrics, ExVerificationOptions,
};
use std::collections::HashMap;

fn sample_link() -> ExLink {
    ExLink {
        name: "pb:publish".to_string(),
        href: Some("https://broker.example/publish".to_string()),
        templated: true,
        title: None,
    }
}

fn sample_selector() -> ExConsumerVersionSelector {
    ExConsumerVersionSelector {
        consumer: Some("web-app".to_string()),
        tag: Some("prod".to_string()),
        fallback_tag: None,
        latest: Some(true),
        deployed_or_released: None,
        deployed: Some(false),
        released: None,
        environment: Some("production".to_string()),
        main_branch: None,
        branch: Some("main".to_string()),
        matching_branch: Some(true),
        fallback_branch: None,
    }
}

/// Scenario: a fully populated provider record plus a file source adapts
/// with zero field loss.
#[test]
fn scenario_provider_info_and_file_source_lossless() {
    let host = ExProviderInfo {
        name: "order-service".to_string(),
        protocol: "http".to_string(),
        host: "localhost".to_string(),
        port: Some(8080),
        path: "/".to_string(),
        transports: vec![],
    };
    let engine: ProviderInfo = ProviderInfo::from_host(host);
    assert_eq!(engine.name, "order-service");
    assert_eq!(engine.protocol, "http");
    assert_eq!(engine.host, "localhost");
    assert_eq!(engine.port, Some(8080));
    assert_eq!(engine.path, "/");
    assert_eq!(engine.transports.len(), 0);

    let sources = adapt_sources(vec![ExPactSource::File("pact.json".to_string())]);
    assert_eq!(sources.len(), 1);
    match &sources[0] {
        PactSource::File(path) => assert_eq!(path, "pact.json"),
        _ => panic!("file source adapted to a different variant"),
    }
}

/// Scenario: a URL source with a bearer token keeps the token value under
/// the token variant.
#[test]
fn scenario_url_source_with_token_auth() {
    let host = ExPactSource::Url(
        "https://pact.example/p".to_string(),
        Some(ExHttpAuth::Token(ExTokenAuth { value: "abc".to_string() })),
    );
    match PactSource::from_host(host) {
        PactSource::URL(url, Some(HttpAuth::Token(value))) => {
            assert_eq!(url, "https://pact.example/p");
            assert_eq!(value, "abc");
        }
        _ => panic!("url source adapted to a different shape"),
    }
}

/// Scenario: a filter of one interaction description selects exactly that
/// one interaction by description.
#[test]
fn scenario_filter_by_one_description() {
    let host = ExFilterInfo::InteractionIds(vec![ExFilterById::InteractionDesc(
        "desc1".to_string(),
    )]);
    match FilterInfo::from_host(host) {
        FilterInfo::InteractionIds(ids) => {
            assert_eq!(ids.len(), 1);
            match &ids[0] {
                FilterById::InteractionDesc(desc) => assert_eq!(desc, "desc1"),
                _ => panic!("description filter adapted to a different variant"),
            }
        }
        _ => panic!("interaction-ids filter adapted to a different variant"),
    }
}

#[test]
fn provider_transport_keeps_every_field() {
    let engine = ProviderTransport::from_host(ExProviderTransport {
        transport: "grpc".to_string(),
        port: Some(50051),
        path: Some("/svc".to_string()),
        scheme: Some("tcp".to_string()),
    });
    assert_eq!(engine.transport, "grpc");
    assert_eq!(engine.port, Some(50051));
    assert_eq!(engine.path, Some("/svc".to_string()));
    assert_eq!(engine.scheme, Some("tcp".to_string()));
}

#[test]
fn transports_list_keeps_order() {
    let list = adapt_transports(vec![
        ExProviderTransport {
            transport: "http".to_string(),
            port: Some(80),
            path: None,
            scheme: None,
        },
        ExProviderTransport {
            transport: "https".to_string(),
            port: Some(443),
            path: None,
            scheme: None,
        },
    ]);
    assert_eq!(list.len(), 2);
    assert_eq!(list[0].transport, "http");
    assert_eq!(list[1].transport, "https");
}

#[test]
fn auth_user_arm() {
    match HttpAuth::from_host(ExHttpAuth::User(ExUserAuth {
        username: "alice".to_string(),
        password: Some("s3cret".to_string()),
    })) {
        HttpAuth::User(username, password) => {
            assert_eq!(username, "alice");
            assert_eq!(password, Some("s3cret".to_string()));
        }
        _ => panic!("user credential adapted to a different variant"),
    }
}

#[test]
fn auth_token_arm() {
    match HttpAuth::from_host(ExHttpAuth::Token(ExTokenAuth { value: "tok".to_string() })) {
        HttpAuth::Token(value) => assert_eq!(value, "tok"),
        _ => panic!("token credential adapted to a different variant"),
    }
}

#[test]
fn auth_none_arm_and_absent_auth() {
    assert!(matches!(
        HttpAuth::from_host(ExHttpAuth::NoAuth),
        HttpAuth::NoAuth
    ));
    assert!(adapt_auth_option(None).is_none());
}

#[test]
fn source_unknown_arm() {
    assert!(matches!(
        PactSource::from_host(ExPactSource::Unknown),
        PactSource::Unknown
    ));
}

#[test]
fn source_dir_arm() {
    match PactSource::from_host(ExPactSource::Dir("pacts/".to_string())) {
        PactSource::Dir(path) => assert_eq!(path, "pacts/"),
        _ => panic!("dir source adapted to a different variant"),
    }
}

#[test]
fn source_broker_url_arm() {
    let host = ExPactSource::BrokerUrl(
        "https://broker.example".to_string(),
        "order-service".to_string(),
        None,
        vec![sample_link()],
    );
    match PactSource::from_host(host) {
        PactSource::BrokerUrl(url, provider, auth, links) => {
            assert_eq!(url, "https://broker.example");
            assert_eq!(provider, "order-service");
            assert!(auth.is_none());
            assert_eq!(links.len(), 1);
            assert_eq!(links[0].name, "pb:publish");
            assert_eq!(links[0].href, Some("https://broker.example/publish".to_string()));
            assert!(links[0].templated);
            assert_eq!(links[0].title, None);
        }
        _ => panic!("broker-url source adapted to a different variant"),
    }
}

#[test]
fn source_broker_with_dynamic_configuration_arm() {
    let host = ExPactSource::BrokerWithDynamicConfiguration {
        provider_name: "order-service".to_string(),
        broker_url: "https://broker.example".to_string(),
        enable_pending: true,
        include_wip_pacts_since: Some("2020-01-01".to_string()),
        provider_tags: vec!["prod".to_string(), "main".to_string()],
        provider_branch: Some("main".to_string()),
        selectors: vec![sample_selector()],
        auth: Some(ExHttpAuth::User(ExUserAuth {
            username: "broker-user".to_string(),
            password: None,
        })),
        links: vec![],
    };
    match PactSource::from_host(host) {
        PactSource::BrokerWithDynamicConfiguration {
            provider_name,
            broker_url,
            enable_pending,
            include_wip_pacts_since,
            provider_tags,
            provider_branch,
            selectors,
            auth,
            links,
        } => {
            assert_eq!(provider_name, "order-service");
            assert_eq!(broker_url, "https://broker.example");
            assert!(enable_pending);
            assert_eq!(include_wip_pacts_since, Some("2020-01-01".to_string()));
            assert_eq!(provider_tags, vec!["prod".to_string(), "main".to_string()]);
            assert_eq!(provider_branch, Some("main".to_string()));
            assert_eq!(selectors.len(), 1);
            let s: &ConsumerVersionSelector = &selectors[0];
            assert_eq!(s.consumer, Some("web-app".to_string()));
            assert_eq!(s.tag, Some("prod".to_string()));
            assert_eq!(s.fallback_tag, None);
            assert_eq!(s.latest, Some(true));
            assert_eq!(s.deployed_or_released, None);
            assert_eq!(s.deployed, Some(false));
            assert_eq!(s.released, None);
            assert_eq!(s.environment, Some("production".to_string()));
            assert_eq!(s.main_branch, None);
            assert_eq!(s.branch, Some("main".to_string()));
            assert_eq!(s.matching_branch, Some(true));
            assert_eq!(s.fallback_branch, None);
            match auth {
                Some(HttpAuth::User(username, password)) => {
                    assert_eq!(username, "broker-user");
                    assert_eq!(password, None);
                }
                _ => panic!("broker auth adapted to a different shape"),
            }
            assert!(links.is_empty());
        }
        _ => panic!("dynamic broker source adapted to a different variant"),
    }
}

#[test]
fn source_string_arm() {
    match PactSource::from_host(ExPactSource::String("{\"consumer\":{}}".to_string())) {
        PactSource::String(raw) => assert_eq!(raw, "{\"consumer\":{}}"),
        _ => panic!("string source adapted to a different variant"),
    }
}

#[test]
fn source_webhook_callback_url_arm() {
    let host = ExPactSource::WebhookCallbackUrl {
        pact_url: "https://broker.example/pact/1".to_string(),
        broker_url: "https://broker.example".to_string(),
        auth: Some(ExHttpAuth::Token(ExTokenAuth { value: "hook".to_string() })),
    };
    match PactSource::from_host(host) {
        PactSource::WebhookCallbackUrl { pact_url, broker_url, auth } => {
            assert_eq!(pact_url, "https://broker.example/pact/1");
            assert_eq!(broker_url, "https://broker.example");
            assert!(matches!(auth, Some(HttpAuth::Token(v)) if v == "hook"));
        }
        _ => panic!("webhook source adapted to a different variant"),
    }
}

#[test]
fn filter_by_id_and_key_arms() {
    match FilterById::from_host(ExFilterById::InteractionId("id-1".to_string())) {
        FilterById::InteractionId(id) => assert_eq!(id, "id-1"),
        _ => panic!("id filter adapted to a different variant"),
    }
    match FilterById::from_host(ExFilterById::InteractionKey("key-1".to_string())) {
        FilterById::InteractionKey(key) => assert_eq!(key, "key-1"),
        _ => panic!("key filter adapted to a different variant"),
    }
    let ids = adapt_filter_ids(vec![
        ExFilterById::InteractionId("a".to_string()),
        ExFilterById::InteractionDesc("b".to_string()),
    ]);
    assert_eq!(ids.len(), 2);
    assert!(matches!(&ids[0], FilterById::InteractionId(a) if a == "a"));
    assert!(matches!(&ids[1], FilterById::InteractionDesc(b) if b == "b"));
}

#[test]
fn filter_info_all_scalar_arms() {
    assert!(matches!(
        FilterInfo::from_host(ExFilterInfo::NoFilter),
        FilterInfo::NoFilter
    ));
    assert!(matches!(
        FilterInfo::from_host(ExFilterInfo::Description("GET /orders".to_string())),
        FilterInfo::Description(d) if d == "GET /orders"
    ));
    assert!(matches!(
        FilterInfo::from_host(ExFilterInfo::State("an order exists".to_string())),
        FilterInfo::State(s) if s == "an order exists"
    ));
    match FilterInfo::from_host(ExFilterInfo::DescriptionAndState(
        "GET /orders".to_string(),
        "an order exists".to_string(),
    )) {
        FilterInfo::DescriptionAndState(d, s) => {
            assert_eq!(d, "GET /orders");
            assert_eq!(s, "an order exists");
        }
        _ => panic!("description-and-state filter adapted to a different variant"),
    }
}

#[test]
fn publish_options_keep_every_field() {
    let engine = PublishOptions::from_host(ExPublishOptions {
        provider_version: Some("1.2.3".to_string()),
        build_url: Some("https://ci.example/build/7".to_string()),
        provider_tags: vec!["prod".to_string()],
        provider_branch: None,
    });
    assert_eq!(engine.provider_version, Some("1.2.3".to_string()));
    assert_eq!(engine.build_url, Some("https://ci.example/build/7".to_string()));
    assert_eq!(engine.provider_tags, vec!["prod".to_string()]);
    assert_eq!(engine.provider_branch, None);
}

#[test]
fn metrics_keep_every_field() {
    let engine = VerificationMetrics::from_host(ExVerificationMetrics {
        test_framework: "exunit".to_string(),
        app_name: "pact_elixir".to_string(),
        app_version: "2.0.0".to_string(),
    });
    assert_eq!(engine.test_framework, "exunit");
    assert_eq!(engine.app_name, "pact_elixir");
    assert_eq!(engine.app_version, "2.0.0");
}

#[test]
fn options_keep_fields_and_leave_filter_unset() {
    let mut headers = HashMap::new();
    headers.insert("x-request-id".to_string(), "42".to_string());
    headers.insert("x-tenant".to_string(), "acme".to_string());
    let engine = VerificationOptions::from_host(ExVerificationOptions {
        disable_ssl_verification: true,
        request_timeout: 5000,
        custom_headers: headers.clone(),
        coloured_output: false,
        no_pacts_is_error: true,
        exit_on_first_failure: false,
        run_last_failed_only: true,
    });
    assert!(engine.request_filter.is_none());
    assert!(engine.disable_ssl_verification);
    assert_eq!(engine.request_timeout, 5000);
    assert_eq!(engine.custom_headers, headers);
    assert!(!engine.coloured_output);
    assert!(engine.no_pacts_is_error);
    assert!(!engine.exit_on_first_failure);
    assert!(engine.run_last_failed_only);
}

#[test]
fn request_to_engine_keeps_core_and_defaults_the_rest() {
    let mut query = HashMap::new();
    query.insert("status".to_string(), vec![Some("open".to_string()), None]);
    let mut headers = HashMap::new();
    headers.insert("accept".to_string(), vec!["application/json".to_string()]);
    let engine = HttpRequest::from_host(ExHttpRequest {
        method: "GET".to_string(),
        path: "/orders".to_string(),
        query: Some(query.clone()),
        headers: Some(headers.clone()),
    });
    assert_eq!(engine.method, "GET");
    assert_eq!(engine.path, "/orders");
    assert_eq!(engine.query, Some(query));
    assert_eq!(engine.headers, Some(headers));
    assert!(matches!(engine.body, OptionalBody::Empty));
    assert!(engine.matching_rules.rules.is_empty());
    assert!(engine.generators.generators.is_empty());
}

#[test]
fn request_round_trip_recovers_the_core() {
    let engine = HttpRequest::from_host(ExHttpRequest {
        method: "POST".to_string(),
        path: "/orders/1".to_string(),
        query: None,
        headers: None,
    });
    let back = ExHttpRequest::from_engine(engine);
    assert_eq!(back.method, "POST");
    assert_eq!(back.path, "/orders/1");
    assert_eq!(back.query, None);
    assert_eq!(back.headers, None);
}

#[test]
fn links_and_selectors_lists_keep_order_and_fields() {
    let links = adapt_links(vec![sample_link(), ExLink {
        name: "pb:self".to_string(),
        href: None,
        templated: false,
        title: Some("self".to_string()),
    }]);
    assert_eq!(links.len(), 2);
    let first: &Link = &links[0];
    assert_eq!(first.name, "pb:publish");
    assert_eq!(links[1].title, Some("self".to_string()));

    let selectors = adapt_selectors(vec![sample_selector()]);
    assert_eq!(selectors.len(), 1);
    assert_eq!(selectors[0].environment, Some("production".to_string()));
}

#[test]
fn empty_lists_adapt_to_empty_lists() {
    assert!(adapt_sources(vec![]).is_empty());
    assert!(adapt_transports(vec![]).is_empty());
    assert!(adapt_links(vec![]).is_empty());
    assert!(adapt_selectors(vec![]).is_empty());
    assert!(adapt_filter_ids(vec![]).is_empty());
}

#[test]
fn url_source_without_auth_stays_without_auth() {
    match PactSource::from_host(ExPactSource::Url("https://pact.example/p".to_string(), None)) {
        PactSource::URL(url, auth) => {
            assert_eq!(url, "https://pact.example/p");
            assert!(auth.is_none());
        }
        _ => panic!("url source adapted to a different variant"),
    }
}

#[test]
fn request_from_engine_keeps_query_and_headers() {
    let mut query = HashMap::new();
    query.insert("status".to_string(), vec![Some("open".to_string())]);
    let engine = HttpRequest::from_host(ExHttpRequest {
        method: "GET".to_string(),
        path: "/orders".to_string(),
        query: Some(query.clone()),
        headers: None,
    });
    let back = ExHttpRequest::from_engine(engine);
    assert_eq!(back.query, Some(query));
    assert_eq!(back.headers, None);
}
