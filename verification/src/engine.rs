//! Engine-facing domain types.
//!
//! These mirror, field for field, the shapes the verification engine takes.
//! The engine itself is an external collaborator that the bridge hands these
//! values to; the bridge never reads them back except for the outgoing
//! request scaffolding. Each type views into `crate::model`, the same model
//! the host-facing types use, which is what lets the adapter promise
//! lossless conversion.

use vstd::prelude::*;

use crate::model::{
    AuthModel, FilterByIdModel, FilterModel, LinkModel, MetricsModel, ProviderInfoModel,
    PublishModel, RequestModel, SelectorModel, SourceModel, StateExecutorModel, TransportModel,
};
use std::collections::HashMap;

verus! {

/// Identity and location of the system under verification, engine shape.
/// Legacy `protocol`/`port`/`path` and the newer `transports` coexist;
/// precedence between them is the engine's decision.
pub struct ProviderInfo {
    pub name: String,
    pub protocol: String,
    pub host: String,
    pub port: Option<u16>,
    pub path: String,
    pub transports: Vec<ProviderTransport>,
}

impl DeepView for ProviderInfo {
    type V = ProviderInfoModel;

    open spec fn deep_view(&self) -> ProviderInfoModel {
        ProviderInfoModel {
            name: self.name.deep_view(),
            protocol: self.protocol.deep_view(),
            host: self.host.deep_view(),
            port: self.port,
            path: self.path.deep_view(),
            transports: self.transports.deep_view(),
        }
    }
}

/// One reachable endpoint of the provider, engine shape.
pub struct ProviderTransport {
    pub transport: String,
    pub port: Option<u16>,
    pub path: Option<String>,
    pub scheme: Option<String>,
}

impl DeepView for ProviderTransport {
    type V = TransportModel;

    open spec fn deep_view(&self) -> TransportModel {
        TransportModel {
            transport: self.transport.deep_view(),
            port: self.port,
            path: self.path.deep_view(),
            scheme: self.scheme.deep_view(),
        }
    }
}

/// Credential for broker or provider calls, engine shape: the user variant
/// carries its two fields positionally.
pub enum HttpAuth {
    User(String, Option<String>),
    Token(String),
    NoAuth,
}

impl DeepView for HttpAuth {
    type V = AuthModel;

    open spec fn deep_view(&self) -> AuthModel {
        match self {
            HttpAuth::User(username, password) => AuthModel::User {
                username: username.deep_view(),
                password: password.deep_view(),
            },
            HttpAuth::Token(value) => AuthModel::Token(value.deep_view()),
            HttpAuth::NoAuth => AuthModel::NoAuth,
        }
    }
}

/// A broker hypermedia link, engine shape.
pub struct Link {
    pub name: String,
    pub href: Option<String>,
    pub templated: bool,
    pub title: Option<String>,
}

impl DeepView for Link {
    type V = LinkModel;

    open spec fn deep_view(&self) -> LinkModel {
        LinkModel {
            name: self.name.deep_view(),
            href: self.href.deep_view(),
            templated: self.templated,
            title: self.title.deep_view(),
        }
    }
}

/// Broker query refinement, engine shape.
pub struct ConsumerVersionSelector {
    pub consumer: Option<String>,
    pub tag: Option<String>,
    pub fallback_tag: Option<String>,
    pub latest: Option<bool>,
    pub deployed_or_released: Option<bool>,
    pub deployed: Option<bool>,
    pub released: Option<bool>,
    pub environment: Option<String>,
    pub main_branch: Option<bool>,
    pub branch: Option<String>,
    pub matching_branch: Option<bool>,
    pub fallback_branch: Option<String>,
}

impl DeepView for ConsumerVersionSelector {
    type V = SelectorModel;

    open spec fn deep_view(&self) -> SelectorModel {
        SelectorModel {
            consumer: self.consumer.deep_view(),
            tag: self.tag.deep_view(),
            fallback_tag: self.fallback_tag.deep_view(),
            latest: self.latest,
            deployed_or_released: self.deployed_or_released,
            deployed: self.deployed,
            released: self.released,
            environment: self.environment.deep_view(),
            main_branch: self.main_branch,
            branch: self.branch.deep_view(),
            matching_branch: self.matching_branch,
            fallback_branch: self.fallback_branch.deep_view(),
        }
    }
}

/// Origin of one or more recorded contracts, engine shape.
pub enum PactSource {
    Unknown,
    File(String),
    Dir(String),
    URL(String, Option<HttpAuth>),
    BrokerUrl(String, String, Option<HttpAuth>, Vec<Link>),
    BrokerWithDynamicConfiguration {
        provider_name: String,
        broker_url: String,
        enable_pending: bool,
        include_wip_pacts_since: Option<String>,
        provider_tags: Vec<String>,
        provider_branch: Option<String>,
        selectors: Vec<ConsumerVersionSelector>,
        auth: Option<HttpAuth>,
        links: Vec<Link>,
    },
    String(String),
    WebhookCallbackUrl {
        pact_url: String,
        broker_url: String,
        auth: Option<HttpAuth>,
    },
}

impl DeepView for PactSource {
    type V = SourceModel;

    open spec fn deep_view(&self) -> SourceModel {
        match self {
            PactSource::Unknown => SourceModel::Unknown,
            PactSource::File(p) => SourceModel::File(p.deep_view()),
            PactSource::Dir(p) => SourceModel::Dir(p.deep_view()),
            PactSource::URL(url, auth) => SourceModel::Url(url.deep_view(), auth.deep_view()),
            PactSource::BrokerUrl(url, provider, auth, links) => SourceModel::BrokerUrl(
                url.deep_view(),
                provider.deep_view(),
                auth.deep_view(),
                links.deep_view(),
            ),
            PactSource::BrokerWithDynamicConfiguration {
                provider_name,
                broker_url,
                enable_pending,
                include_wip_pacts_since,
                provider_tags,
                provider_branch,
                selectors,
                auth,
                links,
            } => SourceModel::BrokerWithDynamicConfiguration {
                provider_name: provider_name.deep_view(),
                broker_url: broker_url.deep_view(),
                enable_pending: *enable_pending,
                include_wip_pacts_since: include_wip_pacts_since.deep_view(),
                provider_tags: provider_tags.deep_view(),
                provider_branch: provider_branch.deep_view(),
                selectors: selectors.deep_view(),
                auth: auth.deep_view(),
                links: links.deep_view(),
            },
            PactSource::String(raw) => SourceModel::String(raw.deep_view()),
            PactSource::WebhookCallbackUrl { pact_url, broker_url, auth } => {
                SourceModel::WebhookCallbackUrl {
                    pact_url: pact_url.deep_view(),
                    broker_url: broker_url.deep_view(),
                    auth: auth.deep_view(),
                }
            },
        }
    }
}

/// Interaction selection by identifier, engine shape.
pub enum FilterById {
    InteractionId(String),
    InteractionKey(String),
    InteractionDesc(String),
}

impl DeepView for FilterById {
    type V = FilterByIdModel;

    open spec fn deep_view(&self) -> FilterByIdModel {
        match self {
            FilterById::InteractionId(id) => FilterByIdModel::InteractionId(id.deep_view()),
            FilterById::InteractionKey(key) => FilterByIdModel::InteractionKey(key.deep_view()),
            FilterById::InteractionDesc(desc) => FilterByIdModel::InteractionDesc(
                desc.deep_view(),
            ),
        }
    }
}

/// Interaction selection predicate, engine shape.
pub enum FilterInfo {
    NoFilter,
    Description(String),
    State(String),
    DescriptionAndState(String, String),
    InteractionIds(Vec<FilterById>),
}

impl DeepView for FilterInfo {
    type V = FilterModel;

    open spec fn deep_view(&self) -> FilterModel {
        match self {
            FilterInfo::NoFilter => FilterModel::NoFilter,
            FilterInfo::Description(d) => FilterModel::Description(d.deep_view()),
            FilterInfo::State(s) => FilterModel::State(s.deep_view()),
            FilterInfo::DescriptionAndState(d, s) => FilterModel::DescriptionAndState(
                d.deep_view(),
                s.deep_view(),
            ),
            FilterInfo::InteractionIds(ids) => FilterModel::InteractionIds(ids.deep_view()),
        }
    }
}

/// How and whether verification results are published, engine shape.
pub struct PublishOptions {
    pub provider_version: Option<String>,
    pub build_url: Option<String>,
    pub provider_tags: Vec<String>,
    pub provider_branch: Option<String>,
}

impl DeepView for PublishOptions {
    type V = PublishModel;

    open spec fn deep_view(&self) -> PublishModel {
        PublishModel {
            provider_version: self.provider_version.deep_view(),
            build_url: self.build_url.deep_view(),
            provider_tags: self.provider_tags.deep_view(),
            provider_branch: self.provider_branch.deep_view(),
        }
    }
}

/// Optional telemetry metadata, engine shape.
pub struct VerificationMetrics {
    pub test_framework: String,
    pub app_name: String,
    pub app_version: String,
}

impl DeepView for VerificationMetrics {
    type V = MetricsModel;

    open spec fn deep_view(&self) -> MetricsModel {
        MetricsModel {
            test_framework: self.test_framework.deep_view(),
            app_name: self.app_name.deep_view(),
            app_version: self.app_version.deep_view(),
        }
    }
}

/// A request body as the engine holds it. The bridge never fills a body:
/// conversions from the host always produce `Empty`.
pub enum OptionalBody {
    Missing,
    Empty,
    Null,
    Present(Vec<u8>),
}

/// The body part of the engine request model.
#[verifier::ext_equal]
pub enum BodyModel {
    Missing,
    Empty,
    Null,
    Present(Seq<u8>),
}

impl DeepView for OptionalBody {
    type V = BodyModel;

    open spec fn deep_view(&self) -> BodyModel {
        match self {
            OptionalBody::Missing => BodyModel::Missing,
            OptionalBody::Empty => BodyModel::Empty,
            OptionalBody::Null => BodyModel::Null,
            OptionalBody::Present(bytes) => BodyModel::Present(bytes.deep_view()),
        }
    }
}

/// Matching rules attached to a request, held at the granularity the bridge
/// uses: named categories with their rendered rules. The bridge only ever
/// hands the engine the empty collection.
pub struct MatchingRules {
    pub rules: Vec<(String, String)>,
}

impl DeepView for MatchingRules {
    type V = Seq<(Seq<char>, Seq<char>)>;

    open spec fn deep_view(&self) -> Seq<(Seq<char>, Seq<char>)> {
        self.rules.deep_view()
    }
}

/// Generators attached to a request, held at the granularity the bridge
/// uses. The bridge only ever hands the engine the empty collection.
pub struct Generators {
    pub generators: Vec<(String, String)>,
}

impl DeepView for Generators {
    type V = Seq<(Seq<char>, Seq<char>)>;

    open spec fn deep_view(&self) -> Seq<(Seq<char>, Seq<char>)> {
        self.generators.deep_view()
    }
}

/// An outgoing request as the engine holds it: the host-exchangeable core
/// plus body, matching rules and generators, which the bridge leaves empty.
pub struct HttpRequest {
    pub method: String,
    pub path: String,
    pub query: Option<HashMap<String, Vec<Option<String>>>>,
    pub headers: Option<HashMap<String, Vec<String>>>,
    pub body: OptionalBody,
    pub matching_rules: MatchingRules,
    pub generators: Generators,
}

/// The engine request model: the shared core plus the engine-only parts.
#[verifier::ext_equal]
pub struct EngineRequestModel {
    pub core: RequestModel,
    pub body: BodyModel,
    pub matching_rules: Seq<(Seq<char>, Seq<char>)>,
    pub generators: Seq<(Seq<char>, Seq<char>)>,
}

impl DeepView for HttpRequest {
    type V = EngineRequestModel;

    open spec fn deep_view(&self) -> EngineRequestModel {
        EngineRequestModel {
            core: RequestModel {
                method: self.method.deep_view(),
                path: self.path.deep_view(),
                query: self.query.deep_view(),
                headers: self.headers.deep_view(),
            },
            body: self.body.deep_view(),
            matching_rules: self.matching_rules.deep_view(),
            generators: self.generators.deep_view(),
        }
    }
}

/// The request-filter hook the engine accepts on its options. The hook is
/// intentionally unimplemented in this layer: the adapter always leaves the
/// option unset, and absence means every request passes through unmodified.
pub struct RequestFilterHook {}

/// Per-call verification behaviour, engine shape: the host-stated fields
/// plus the request-filter slot this layer leaves empty.
pub struct VerificationOptions {
    pub request_filter: Option<RequestFilterHook>,
    pub disable_ssl_verification: bool,
    pub request_timeout: u64,
    pub custom_headers: HashMap<String, String>,
    pub coloured_output: bool,
    pub no_pacts_is_error: bool,
    pub exit_on_first_failure: bool,
    pub run_last_failed_only: bool,
}

/// The engine options model: the host-stated fields plus whether a request
/// filter is configured.
#[verifier::ext_equal]
pub struct EngineOptionsModel {
    pub request_filter_configured: bool,
    pub disable_ssl_verification: bool,
    pub request_timeout: u64,
    pub custom_headers: Map<Seq<char>, Seq<char>>,
    pub coloured_output: bool,
    pub no_pacts_is_error: bool,
    pub exit_on_first_failure: bool,
    pub run_last_failed_only: bool,
}

impl DeepView for VerificationOptions {
    type V = EngineOptionsModel;

    open spec fn deep_view(&self) -> EngineOptionsModel {
        EngineOptionsModel {
            request_filter_configured: self.request_filter is Some,
            disable_ssl_verification: self.disable_ssl_verification,
            request_timeout: self.request_timeout,
            custom_headers: self.custom_headers.deep_view(),
            coloured_output: self.coloured_output,
            no_pacts_is_error: self.no_pacts_is_error,
            exit_on_first_failure: self.exit_on_first_failure,
            run_last_failed_only: self.run_last_failed_only,
        }
    }
}

/// How provider state changes are invoked, engine shape.
pub struct HttpRequestProviderStateExecutor {
    pub state_change_url: Option<String>,
    pub state_change_teardown: bool,
    pub state_change_body: bool,
    pub retries: u8,
}

impl DeepView for HttpRequestProviderStateExecutor {
    type V = StateExecutorModel;

    open spec fn deep_view(&self) -> StateExecutorModel {
        StateExecutorModel {
            state_change_url: self.state_change_url.deep_view(),
            state_change_teardown: self.state_change_teardown,
            state_change_body: self.state_change_body,
            retries: self.retries,
        }
    }
}

} // verus!
