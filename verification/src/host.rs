//! Host-facing records and tagged unions.
//!
//! These are the exact shapes the host runtime exchanges with the bridge.
//! Each type views into the shared model of `crate::model`, so the adapter
//! in `crate::adapt` can promise losslessness as view equality.

use vstd::prelude::*;

use crate::model::{
    AuthModel, FilterByIdModel, FilterModel, LinkModel, MetricsModel, OptionsModel,
    ProviderInfoModel, PublishModel, RequestModel, SelectorModel, SourceModel,
    StateExecutorModel, TransportModel,
};
use std::collections::HashMap;

verus! {

/// Identity and location of the system under verification. The `protocol`,
/// `port` and `path` fields are the legacy channel; `transports` is the new
/// one. Both are carried verbatim: precedence between them is decided by the
/// engine, not by the bridge.
pub struct ExProviderInfo {
    pub name: String,
    pub protocol: String,
    pub host: String,
    pub port: Option<u16>,
    pub path: String,
    pub transports: Vec<ExProviderTransport>,
}

impl DeepView for ExProviderInfo {
    type V = ProviderInfoModel;

    open spec fn deep_view(&self) -> ProviderInfoModel {
        ProviderInfoModel {
            name: self.name.deep_view(),
            protocol: self.protocol.deep_view(),
            host: self.host.deep_view(),
            port: self.port,
            path: self.path.deep_view(),
            transports: self.transports.deep_view(),
        }
    }
}

/// One reachable endpoint of the provider.
pub struct ExProviderTransport {
    pub transport: String,
    pub port: Option<u16>,
    pub path: Option<String>,
    pub scheme: Option<String>,
}

impl DeepView for ExProviderTransport {
    type V = TransportModel;

    open spec fn deep_view(&self) -> TransportModel {
        TransportModel {
            transport: self.transport.deep_view(),
            port: self.port,
            path: self.path.deep_view(),
            scheme: self.scheme.deep_view(),
        }
    }
}

/// Credential for broker or provider calls. A closed union: decoding an
/// out-of-set value is the host decoder's failure, never a default here.
pub enum ExHttpAuth {
    User(ExUserAuth),
    Token(ExTokenAuth),
    NoAuth,
}

impl DeepView for ExHttpAuth {
    type V = AuthModel;

    open spec fn deep_view(&self) -> AuthModel {
        match self {
            ExHttpAuth::User(u) => AuthModel::User {
                username: u.username.deep_view(),
                password: u.password.deep_view(),
            },
            ExHttpAuth::Token(t) => AuthModel::Token(t.value.deep_view()),
            ExHttpAuth::NoAuth => AuthModel::NoAuth,
        }
    }
}

/// Username-and-password credential.
pub struct ExUserAuth {
    pub username: String,
    pub password: Option<String>,
}

/// Bearer-token credential.
pub struct ExTokenAuth {
    pub value: String,
}

/// A broker hypermedia link.
pub struct ExLink {
    pub name: String,
    pub href: Option<String>,
    pub templated: bool,
    pub title: Option<String>,
}

impl DeepView for ExLink {
    type V = LinkModel;

    open spec fn deep_view(&self) -> LinkModel {
        LinkModel {
            name: self.name.deep_view(),
            href: self.href.deep_view(),
            templated: self.templated,
            title: self.title.deep_view(),
        }
    }
}

/// Broker query refinement. All twelve fields are optional: absence means
/// "unconstrained", never "false".
pub struct ExConsumerVersionSelector {
    pub consumer: Option<String>,
    pub tag: Option<String>,
    pub fallback_tag: Option<String>,
    pub latest: Option<bool>,
    pub deployed_or_released: Option<bool>,
    pub deployed: Option<bool>,
    pub released: Option<bool>,
    pub environment: Option<String>,
    pub main_branch: Option<bool>,
    pub branch: Option<String>,
    pub matching_branch: Option<bool>,
    pub fallback_branch: Option<String>,
}

impl DeepView for ExConsumerVersionSelector {
    type V = SelectorModel;

    open spec fn deep_view(&self) -> SelectorModel {
        SelectorModel {
            consumer: self.consumer.deep_view(),
            tag: self.tag.deep_view(),
            fallback_tag: self.fallback_tag.deep_view(),
            latest: self.latest,
            deployed_or_released: self.deployed_or_released,
            deployed: self.deployed,
            released: self.released,
            environment: self.environment.deep_view(),
            main_branch: self.main_branch,
            branch: self.branch.deep_view(),
            matching_branch: self.matching_branch,
            fallback_branch: self.fallback_branch.deep_view(),
        }
    }
}

/// Origin of one or more recorded contracts. A closed eight-variant union;
/// each call supplies a list of these.
pub enum ExPactSource {
    Unknown,
    File(String),
    Dir(String),
    Url(String, Option<ExHttpAuth>),
    BrokerUrl(String, String, Option<ExHttpAuth>, Vec<ExLink>),
    BrokerWithDynamicConfiguration {
        provider_name: String,
        broker_url: String,
        enable_pending: bool,
        include_wip_pacts_since: Option<String>,
        provider_tags: Vec<String>,
        provider_branch: Option<String>,
        selectors: Vec<ExConsumerVersionSelector>,
        auth: Option<ExHttpAuth>,
        links: Vec<ExLink>,
    },
    String(String),
    WebhookCallbackUrl {
        pact_url: String,
        broker_url: String,
        auth: Option<ExHttpAuth>,
    },
}

impl DeepView for ExPactSource {
    type V = SourceModel;

    open spec fn deep_view(&self) -> SourceModel {
        match self {
            ExPactSource::Unknown => SourceModel::Unknown,
            ExPactSource::File(p) => SourceModel::File(p.deep_view()),
            ExPactSource::Dir(p) => SourceModel::Dir(p.deep_view()),
            ExPactSource::Url(url, auth) => SourceModel::Url(url.deep_view(), auth.deep_view()),
            ExPactSource::BrokerUrl(url, provider, auth, links) => SourceModel::BrokerUrl(
                url.deep_view(),
                provider.deep_view(),
                auth.deep_view(),
                links.deep_view(),
            ),
            ExPactSource::BrokerWithDynamicConfiguration {
                provider_name,
                broker_url,
                enable_pending,
                include_wip_pacts_since,
                provider_tags,
                provider_branch,
                selectors,
                auth,
                links,
            } => SourceModel::BrokerWithDynamicConfiguration {
                provider_name: provider_name.deep_view(),
                broker_url: broker_url.deep_view(),
                enable_pending: *enable_pending,
                include_wip_pacts_since: include_wip_pacts_since.deep_view(),
                provider_tags: provider_tags.deep_view(),
                provider_branch: provider_branch.deep_view(),
                selectors: selectors.deep_view(),
                auth: auth.deep_view(),
                links: links.deep_view(),
            },
            ExPactSource::String(raw) => SourceModel::String(raw.deep_view()),
            ExPactSource::WebhookCallbackUrl { pact_url, broker_url, auth } => {
                SourceModel::WebhookCallbackUrl {
                    pact_url: pact_url.deep_view(),
                    broker_url: broker_url.deep_view(),
                    auth: auth.deep_view(),
                }
            },
        }
    }
}

/// Interaction selection by identifier. A closed three-variant union.
pub enum ExFilterById {
    InteractionId(String),
    InteractionKey(String),
    InteractionDesc(String),
}

impl DeepView for ExFilterById {
    type V = FilterByIdModel;

    open spec fn deep_view(&self) -> FilterByIdModel {
        match self {
            ExFilterById::InteractionId(id) => FilterByIdModel::InteractionId(id.deep_view()),
            ExFilterById::InteractionKey(key) => FilterByIdModel::InteractionKey(key.deep_view()),
            ExFilterById::InteractionDesc(desc) => FilterByIdModel::InteractionDesc(
                desc.deep_view(),
            ),
        }
    }
}

/// Interaction selection predicate. A closed five-variant union.
pub enum ExFilterInfo {
    NoFilter,
    Description(String),
    State(String),
    DescriptionAndState(String, String),
    InteractionIds(Vec<ExFilterById>),
}

impl DeepView for ExFilterInfo {
    type V = FilterModel;

    open spec fn deep_view(&self) -> FilterModel {
        match self {
            ExFilterInfo::NoFilter => FilterModel::NoFilter,
            ExFilterInfo::Description(d) => FilterModel::Description(d.deep_view()),
            ExFilterInfo::State(s) => FilterModel::State(s.deep_view()),
            ExFilterInfo::DescriptionAndState(d, s) => FilterModel::DescriptionAndState(
                d.deep_view(),
                s.deep_view(),
            ),
            ExFilterInfo::InteractionIds(ids) => FilterModel::InteractionIds(ids.deep_view()),
        }
    }
}

/// How and whether verification results are published. Present on a call
/// only when publishing is requested.
pub struct ExPublishOptions {
    pub provider_version: Option<String>,
    pub build_url: Option<String>,
    pub provider_tags: Vec<String>,
    pub provider_branch: Option<String>,
}

impl DeepView for ExPublishOptions {
    type V = PublishModel;

    open spec fn deep_view(&self) -> PublishModel {
        PublishModel {
            provider_version: self.provider_version.deep_view(),
            build_url: self.build_url.deep_view(),
            provider_tags: self.provider_tags.deep_view(),
            provider_branch: self.provider_branch.deep_view(),
        }
    }
}

/// Optional telemetry metadata, attached to the call only if supplied.
pub struct ExVerificationMetrics {
    pub test_framework: String,
    pub app_name: String,
    pub app_version: String,
}

impl DeepView for ExVerificationMetrics {
    type V = MetricsModel;

    open spec fn deep_view(&self) -> MetricsModel {
        MetricsModel {
            test_framework: self.test_framework.deep_view(),
            app_name: self.app_name.deep_view(),
            app_version: self.app_version.deep_view(),
        }
    }
}

/// The host-exchangeable part of an outgoing request, kept as scaffolding
/// for a future request-filtering callback. Body, matching rules and
/// generators are intentionally not carried: they default to empty on any
/// round trip (a documented gap, not a silent drop).
pub struct ExHttpRequest {
    pub method: String,
    pub path: String,
    pub query: Option<HashMap<String, Vec<Option<String>>>>,
    pub headers: Option<HashMap<String, Vec<String>>>,
}

impl DeepView for ExHttpRequest {
    type V = RequestModel;

    open spec fn deep_view(&self) -> RequestModel {
        RequestModel {
            method: self.method.deep_view(),
            path: self.path.deep_view(),
            query: self.query.deep_view(),
            headers: self.headers.deep_view(),
        }
    }
}

/// Per-call verification behaviour as the host states it. The engine side
/// additionally carries a request-filter hook, which this layer leaves
/// unset (see `crate::engine::VerificationOptions`).
pub struct ExVerificationOptions {
    pub disable_ssl_verification: bool,
    pub request_timeout: u64,
    pub custom_headers: HashMap<String, String>,
    pub coloured_output: bool,
    pub no_pacts_is_error: bool,
    pub exit_on_first_failure: bool,
    pub run_last_failed_only: bool,
}

impl DeepView for ExVerificationOptions {
    type V = OptionsModel;

    open spec fn deep_view(&self) -> OptionsModel {
        OptionsModel {
            disable_ssl_verification: self.disable_ssl_verification,
            request_timeout: self.request_timeout,
            custom_headers: self.custom_headers.deep_view(),
            coloured_output: self.coloured_output,
            no_pacts_is_error: self.no_pacts_is_error,
            exit_on_first_failure: self.exit_on_first_failure,
            run_last_failed_only: self.run_last_failed_only,
        }
    }
}

/// How provider state changes are invoked: configuration for the engine's
/// state-setup callback, carried through unchanged.
pub struct ExHttpRequestProviderStateExecutor {
    pub state_change_url: Option<String>,
    pub state_change_teardown: bool,
    pub state_change_body: bool,
    pub retries: u8,
}

impl DeepView for ExHttpRequestProviderStateExecutor {
    type V = StateExecutorModel;

    open spec fn deep_view(&self) -> StateExecutorModel {
        StateExecutorModel {
            state_change_url: self.state_change_url.deep_view(),
            state_change_teardown: self.state_change_teardown,
            state_change_body: self.state_change_body,
            retries: self.retries,
        }
    }
}

} // verus!
