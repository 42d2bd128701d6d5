//! Mathematical model of the values that cross the bridge.
//!
//! Every host-facing record or tagged union and its engine-facing
//! counterpart view into one of the types below, so "the adapter loses
//! nothing" can be said as plain equality of views.

use vstd::prelude::*;

verus! {

/// One reachable endpoint of the provider.
#[verifier::ext_equal]
pub struct TransportModel {
    pub transport: Seq<char>,
    pub port: Option<u16>,
    pub path: Option<Seq<char>>,
    pub scheme: Option<Seq<char>>,
}

/// Identity and location of the system under verification.
#[verifier::ext_equal]
pub struct ProviderInfoModel {
    pub name: Seq<char>,
    pub protocol: Seq<char>,
    pub host: Seq<char>,
    pub port: Option<u16>,
    pub path: Seq<char>,
    pub transports: Seq<TransportModel>,
}

/// Credential for broker or provider calls: a closed three-variant union.
#[verifier::ext_equal]
pub enum AuthModel {
    User { username: Seq<char>, password: Option<Seq<char>> },
    Token(Seq<char>),
    NoAuth,
}

/// A broker hypermedia link.
#[verifier::ext_equal]
pub struct LinkModel {
    pub name: Seq<char>,
    pub href: Option<Seq<char>>,
    pub templated: bool,
    pub title: Option<Seq<char>>,
}

/// Broker query refinement: twelve independent optional fields.
#[verifier::ext_equal]
pub struct SelectorModel {
    pub consumer: Option<Seq<char>>,
    pub tag: Option<Seq<char>>,
    pub fallback_tag: Option<Seq<char>>,
    pub latest: Option<bool>,
    pub deployed_or_released: Option<bool>,
    pub deployed: Option<bool>,
    pub released: Option<bool>,
    pub environment: Option<Seq<char>>,
    pub main_branch: Option<bool>,
    pub branch: Option<Seq<char>>,
    pub matching_branch: Option<bool>,
    pub fallback_branch: Option<Seq<char>>,
}

/// Origin of one or more recorded contracts: a closed eight-variant union.
#[verifier::ext_equal]
pub enum SourceModel {
    Unknown,
    File(Seq<char>),
    Dir(Seq<char>),
    Url(Seq<char>, Option<AuthModel>),
    BrokerUrl(Seq<char>, Seq<char>, Option<AuthModel>, Seq<LinkModel>),
    BrokerWithDynamicConfiguration {
        provider_name: Seq<char>,
        broker_url: Seq<char>,
        enable_pending: bool,
        include_wip_pacts_since: Option<Seq<char>>,
        provider_tags: Seq<Seq<char>>,
        provider_branch: Option<Seq<char>>,
        selectors: Seq<SelectorModel>,
        auth: Option<AuthModel>,
        links: Seq<LinkModel>,
    },
    String(Seq<char>),
    WebhookCallbackUrl {
        pact_url: Seq<char>,
        broker_url: Seq<char>,
        auth: Option<AuthModel>,
    },
}

/// Interaction selection by identifier: a closed three-variant union.
#[verifier::ext_equal]
pub enum FilterByIdModel {
    InteractionId(Seq<char>),
    InteractionKey(Seq<char>),
    InteractionDesc(Seq<char>),
}

/// Interaction selection predicate: a closed five-variant union.
#[verifier::ext_equal]
pub enum FilterModel {
    NoFilter,
    Description(Seq<char>),
    State(Seq<char>),
    DescriptionAndState(Seq<char>, Seq<char>),
    InteractionIds(Seq<FilterByIdModel>),
}

/// How and whether verification results are published.
#[verifier::ext_equal]
pub struct PublishModel {
    pub provider_version: Option<Seq<char>>,
    pub build_url: Option<Seq<char>>,
    pub provider_tags: Seq<Seq<char>>,
    pub provider_branch: Option<Seq<char>>,
}

/// Optional telemetry metadata attached to a call.
#[verifier::ext_equal]
pub struct MetricsModel {
    pub test_framework: Seq<char>,
    pub app_name: Seq<char>,
    pub app_version: Seq<char>,
}

/// The part of an outgoing request that the bridge exchanges with the host:
/// method, path, query and headers. Body, matching rules and generators are
/// engine-side content the bridge never carries (a documented gap).
#[verifier::ext_equal]
pub struct RequestModel {
    pub method: Seq<char>,
    pub path: Seq<char>,
    pub query: Option<Map<Seq<char>, Seq<Option<Seq<char>>>>>,
    pub headers: Option<Map<Seq<char>, Seq<Seq<char>>>>,
}

/// Per-call verification behaviour as the host states it.
#[verifier::ext_equal]
pub struct OptionsModel {
    pub disable_ssl_verification: bool,
    pub request_timeout: u64,
    pub custom_headers: Map<Seq<char>, Seq<char>>,
    pub coloured_output: bool,
    pub no_pacts_is_error: bool,
    pub exit_on_first_failure: bool,
    pub run_last_failed_only: bool,
}

/// How provider state changes are invoked by the engine.
#[verifier::ext_equal]
pub struct StateExecutorModel {
    pub state_change_url: Option<Seq<char>>,
    pub state_change_teardown: bool,
    pub state_change_body: bool,
    pub retries: u8,
}

} // verus!
