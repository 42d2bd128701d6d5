//! The domain model adapter: total, lossless, field-exact conversion of
//! every host-facing value into its engine-facing shape, and of the outgoing
//! request scaffolding back.
//!
//! Every conversion promises that the deep view of its result equals the
//! deep view of its input, over the shared model of `crate::model`: no field
//! is dropped, renamed or defaulted. The two exceptions are stated exactly:
//! the engine request gains an empty body, empty matching rules and empty
//! generators (`request_to_engine`), and the engine options gain an unset
//! request-filter slot (`options_to_engine`).

use vstd::prelude::*;

use crate::engine::{
    BodyModel, ConsumerVersionSelector, EngineOptionsModel, EngineRequestModel, FilterById,
    FilterInfo, Generators, HttpAuth, HttpRequest, HttpRequestProviderStateExecutor, Link,
    MatchingRules, OptionalBody, PactSource, ProviderInfo, ProviderTransport, PublishOptions,
    VerificationMetrics, VerificationOptions,
};
use crate::host::{
    ExConsumerVersionSelector, ExFilterById, ExFilterInfo, ExHttpAuth, ExHttpRequest, ExLink,
    ExPactSource, ExProviderInfo, ExProviderTransport, ExPublishOptions, ExTokenAuth, ExUserAuth,
    ExVerificationMetrics, ExVerificationOptions, ExHttpRequestProviderStateExecutor,
};
use crate::model::{OptionsModel, RequestModel};

verus! {

/// What the adapter does to an outgoing request on its way to the engine:
/// the host-exchangeable core is kept exactly, and the parts this layer does
/// not carry are the empty ones.
pub open spec fn request_to_engine(core: RequestModel) -> EngineRequestModel {
    EngineRequestModel {
        core,
        body: BodyModel::Empty,
        matching_rules: Seq::empty(),
        generators: Seq::empty(),
    }
}

/// What the adapter does to an engine request on its way back to the host:
/// the host-exchangeable core is kept exactly, and the engine-only parts are
/// left behind.
pub open spec fn request_to_host(request: EngineRequestModel) -> RequestModel {
    request.core
}

/// What the adapter does to the per-call options: every host-stated field is
/// kept exactly, and the request-filter slot is left unset.
pub open spec fn options_to_engine(options: OptionsModel) -> EngineOptionsModel {
    EngineOptionsModel {
        request_filter_configured: false,
        disable_ssl_verification: options.disable_ssl_verification,
        request_timeout: options.request_timeout,
        custom_headers: options.custom_headers,
        coloured_output: options.coloured_output,
        no_pacts_is_error: options.no_pacts_is_error,
        exit_on_first_failure: options.exit_on_first_failure,
        run_last_failed_only: options.run_last_failed_only,
    }
}

impl ProviderTransport {
    /// Adapt one provider transport, losslessly.
    pub fn from_host(value: ExProviderTransport) -> (r: Self)
        ensures
            r.deep_view() == value.deep_view(),
    {
        let ExProviderTransport { transport, port, path, scheme } = value;
        ProviderTransport { transport, port, path, scheme }
    }
}

/// One element-wise adaptation step of a list conversion: `x` is the next
/// host element, `y` its adapted engine value, `out` the prefix converted so
/// far. Establishes that the prefix extended by `y` still mirrors `orig`.
proof fn lemma_adapt_step<S: DeepView, T: DeepView<V = S::V>>(
    orig: Seq<S::V>,
    out: Seq<T>,
    y: T,
    k: int,
)
    requires
        0 <= k < orig.len(),
        Seq::new(out.len(), |i: int| out[i].deep_view()) =~= orig.take(k),
        out.len() == k,
        y.deep_view() == orig[k],
    ensures
        Seq::new(out.push(y).len(), |i: int| out.push(y)[i].deep_view()) =~= orig.take(k + 1),
{
    let extended = out.push(y);
    assert forall|i: int| 0 <= i < extended.len() implies extended[i].deep_view() == orig.take(
        k + 1,
    )[i] by {
        if i < k {
            assert(Seq::new(out.len(), |j: int| out[j].deep_view())[i] == orig.take(k)[i]);
        }
    }
}

/// Adapt an ordered list of provider transports, preserving order and every
/// element exactly.
pub fn adapt_transports(value: Vec<ExProviderTransport>) -> (r: Vec<ProviderTransport>)
    ensures
        r.deep_view() == value.deep_view(),
{
    let ghost orig = value.deep_view();
    let mut rest = value;
    let mut out: Vec<ProviderTransport> = Vec::new();
    while rest.len() > 0
        invariant
            out@.len() + rest@.len() == orig.len(),
            out.deep_view() =~= orig.take(out@.len() as int),
            rest.deep_view() =~= orig.skip(out@.len() as int),
        decreases rest.len(),
    {
        let ghost k = out@.len() as int;
        let ghost prev_rest = rest@;
        let ghost prev_out = out@;
        let x = rest.remove(0);
        proof {
            assert(prev_rest[0].deep_view() == orig.skip(k)[0]);
            assert(x.deep_view() == orig[k]);
            assert forall|i: int| 0 <= i < rest.deep_view().len() implies rest.deep_view()[i]
                == orig.skip(k + 1)[i] by {
                assert(rest@[i] == prev_rest.remove(0)[i]);
                assert(prev_rest[i + 1].deep_view() == orig.skip(k)[i + 1]);
            }
            assert(rest.deep_view() =~= orig.skip(k + 1));
        }
        let y = ProviderTransport::from_host(x);
        out.push(y);
        proof {
            lemma_adapt_step::<ExProviderTransport, ProviderTransport>(orig, prev_out, y, k);
            assert(out.deep_view() =~= orig.take(k + 1));
        }
    }
    proof {
        assert(out.deep_view() =~= orig);
    }
    out
}

impl ProviderInfo {
    /// Adapt the provider identity, losslessly: the legacy protocol, port
    /// and path channel and the transports list are both carried verbatim.
    pub fn from_host(value: ExProviderInfo) -> (r: Self)
        ensures
            r.deep_view() == value.deep_view(),
    {
        let ExProviderInfo { name, protocol, host, port, path, transports } = value;
        ProviderInfo {
            name,
            protocol,
            host,
            port,
            path,
            transports: adapt_transports(transports),
        }
    }
}

impl HttpAuth {
    /// Adapt one credential, losslessly: each of the three variants has
    /// exactly one conversion arm.
    pub fn from_host(value: ExHttpAuth) -> (r: Self)
        ensures
            r.deep_view() == value.deep_view(),
    {
        match value {
            ExHttpAuth::User(ExUserAuth { username, password }) => {
                HttpAuth::User(username, password)
            },
            ExHttpAuth::Token(ExTokenAuth { value: token }) => HttpAuth::Token(token),
            ExHttpAuth::NoAuth => HttpAuth::NoAuth,
        }
    }
}

/// Adapt an optional credential: absence converts to absence, never to an
/// error or a default.
pub fn adapt_auth_option(value: Option<ExHttpAuth>) -> (r: Option<HttpAuth>)
    ensures
        r.deep_view() == value.deep_view(),
{
    match value {
        Some(auth) => Some(HttpAuth::from_host(auth)),
        None => None,
    }
}

impl Link {
    /// Adapt one broker hypermedia link, losslessly.
    pub fn from_host(value: ExLink) -> (r: Self)
        ensures
            r.deep_view() == value.deep_view(),
    {
        let ExLink { name, href, templated, title } = value;
        Link { name, href, templated, title }
    }
}

/// Adapt an ordered list of broker links, preserving order and every element
/// exactly.
pub fn adapt_links(value: Vec<ExLink>) -> (r: Vec<Link>)
    ensures
        r.deep_view() == value.deep_view(),
{
    let ghost orig = value.deep_view();
    let mut rest = value;
    let mut out: Vec<Link> = Vec::new();
    while rest.len() > 0
        invariant
            out@.len() + rest@.len() == orig.len(),
            out.deep_view() =~= orig.take(out@.len() as int),
            rest.deep_view() =~= orig.skip(out@.len() as int),
        decreases rest.len(),
    {
        let ghost k = out@.len() as int;
        let ghost prev_rest = rest@;
        let ghost prev_out = out@;
        let x = rest.remove(0);
        proof {
            assert(prev_rest[0].deep_view() == orig.skip(k)[0]);
            assert(x.deep_view() == orig[k]);
            assert forall|i: int| 0 <= i < rest.deep_view().len() implies rest.deep_view()[i]
                == orig.skip(k + 1)[i] by {
                assert(rest@[i] == prev_rest.remove(0)[i]);
                assert(prev_rest[i + 1].deep_view() == orig.skip(k)[i + 1]);
            }
            assert(rest.deep_view() =~= orig.skip(k + 1));
        }
        let y = Link::from_host(x);
        out.push(y);
        proof {
            lemma_adapt_step::<ExLink, Link>(orig, prev_out, y, k);
            assert(out.deep_view() =~= orig.take(k + 1));
        }
    }
    proof {
        assert(out.deep_view() =~= orig);
    }
    out
}

impl ConsumerVersionSelector {
    /// Adapt one broker query selector, losslessly: all twelve optional
    /// fields are carried, and absence stays absence.
    pub fn from_host(value: ExConsumerVersionSelector) -> (r: Self)
        ensures
            r.deep_view() == value.deep_view(),
    {
        let ExConsumerVersionSelector {
            consumer,
            tag,
            fallback_tag,
            latest,
            deployed_or_released,
            deployed,
            released,
            environment,
            main_branch,
            branch,
            matching_branch,
            fallback_branch,
        } = value;
        ConsumerVersionSelector {
            consumer,
            tag,
            fallback_tag,
            latest,
            deployed_or_released,
            deployed,
            released,
            environment,
            main_branch,
            branch,
            matching_branch,
            fallback_branch,
        }
    }
}

/// Adapt an ordered list of broker query selectors, preserving order and
/// every element exactly.
pub fn adapt_selectors(
    value: Vec<ExConsumerVersionSelector>,
) -> (r: Vec<ConsumerVersionSelector>)
    ensures
        r.deep_view() == value.deep_view(),
{
    let ghost orig = value.deep_view();
    let mut rest = value;
    let mut out: Vec<ConsumerVersionSelector> = Vec::new();
    while rest.len() > 0
        invariant
            out@.len() + rest@.len() == orig.len(),
            out.deep_view() =~= orig.take(out@.len() as int),
            rest.deep_view() =~= orig.skip(out@.len() as int),
        decreases rest.len(),
    {
        let ghost k = out@.len() as int;
        let ghost prev_rest = rest@;
        let ghost prev_out = out@;
        let x = rest.remove(0);
        proof {
            assert(prev_rest[0].deep_view() == orig.skip(k)[0]);
            assert(x.deep_view() == orig[k]);
            assert forall|i: int| 0 <= i < rest.deep_view().len() implies rest.deep_view()[i]
                == orig.skip(k + 1)[i] by {
                assert(rest@[i] == prev_rest.remove(0)[i]);
                assert(prev_rest[i + 1].deep_view() == orig.skip(k)[i + 1]);
            }
            assert(rest.deep_view() =~= orig.skip(k + 1));
        }
        let y = ConsumerVersionSelector::from_host(x);
        out.push(y);
        proof {
            lemma_adapt_step::<ExConsumerVersionSelector, ConsumerVersionSelector>(orig, prev_out, y, k);
            assert(out.deep_view() =~= orig.take(k + 1));
        }
    }
    proof {
        assert(out.deep_view() =~= orig);
    }
    out
}

impl PactSource {
    /// Adapt one contract source, losslessly: each of the eight variants has
    /// exactly one conversion arm, with no catch-all.
    pub fn from_host(value: ExPactSource) -> (r: Self)
        ensures
            r.deep_view() == value.deep_view(),
    {
        match value {
            ExPactSource::Unknown => PactSource::Unknown,
            ExPactSource::File(path) => PactSource::File(path),
            ExPactSource::Dir(path) => PactSource::Dir(path),
            ExPactSource::Url(url, auth) => PactSource::URL(url, adapt_auth_option(auth)),
            ExPactSource::BrokerUrl(url, provider, auth, links) => PactSource::BrokerUrl(
                url,
                provider,
                adapt_auth_option(auth),
                adapt_links(links),
            ),
            ExPactSource::BrokerWithDynamicConfiguration {
                provider_name,
                broker_url,
                enable_pending,
                include_wip_pacts_since,
                provider_tags,
                provider_branch,
                selectors,
                auth,
                links,
            } => PactSource::BrokerWithDynamicConfiguration {
                provider_name,
                broker_url,
                enable_pending,
                include_wip_pacts_since,
                provider_tags,
                provider_branch,
                selectors: adapt_selectors(selectors),
                auth: adapt_auth_option(auth),
                links: adapt_links(links),
            },
            ExPactSource::String(raw) => PactSource::String(raw),
            ExPactSource::WebhookCallbackUrl { pact_url, broker_url, auth } => {
                PactSource::WebhookCallbackUrl {
                    pact_url,
                    broker_url,
                    auth: adapt_auth_option(auth),
                }
            },
        }
    }
}

/// Adapt the ordered list of contract sources a call supplies, preserving
/// order and every element exactly.
pub fn adapt_sources(value: Vec<ExPactSource>) -> (r: Vec<PactSource>)
    ensures
        r.deep_view() == value.deep_view(),
{
    let ghost orig = value.deep_view();
    let mut rest = value;
    let mut out: Vec<PactSource> = Vec::new();
    while rest.len() > 0
        invariant
            out@.len() + rest@.len() == orig.len(),
            out.deep_view() =~= orig.take(out@.len() as int),
            rest.deep_view() =~= orig.skip(out@.len() as int),
        decreases rest.len(),
    {
        let ghost k = out@.len() as int;
        let ghost prev_rest = rest@;
        let ghost prev_out = out@;
        let x = rest.remove(0);
        proof {
            assert(prev_rest[0].deep_view() == orig.skip(k)[0]);
            assert(x.deep_view() == orig[k]);
            assert forall|i: int| 0 <= i < rest.deep_view().len() implies rest.deep_view()[i]
                == orig.skip(k + 1)[i] by {
                assert(rest@[i] == prev_rest.remove(0)[i]);
                assert(prev_rest[i + 1].deep_view() == orig.skip(k)[i + 1]);
            }
            assert(rest.deep_view() =~= orig.skip(k + 1));
        }
        let y = PactSource::from_host(x);
        out.push(y);
        proof {
            lemma_adapt_step::<ExPactSource, PactSource>(orig, prev_out, y, k);
            assert(out.deep_view() =~= orig.take(k + 1));
        }
    }
    proof {
        assert(out.deep_view() =~= orig);
    }
    out
}

impl FilterById {
    /// Adapt one interaction-identifier filter, losslessly: each of the
    /// three variants has exactly one conversion arm.
    pub fn from_host(value: ExFilterById) -> (r: Self)
        ensures
            r.deep_view() == value.deep_view(),
    {
        match value {
            ExFilterById::InteractionId(id) => FilterById::InteractionId(id),
            ExFilterById::InteractionKey(key) => FilterById::InteractionKey(key),
            ExFilterById::InteractionDesc(desc) => FilterById::InteractionDesc(desc),
        }
    }
}

/// Adapt an ordered list of interaction-identifier filters, preserving order
/// and every element exactly.
pub fn adapt_filter_ids(value: Vec<ExFilterById>) -> (r: Vec<FilterById>)
    ensures
        r.deep_view() == value.deep_view(),
{
    let ghost orig = value.deep_view();
    let mut rest = value;
    let mut out: Vec<FilterById> = Vec::new();
    while rest.len() > 0
        invariant
            out@.len() + rest@.len() == orig.len(),
            out.deep_view() =~= orig.take(out@.len() as int),
            rest.deep_view() =~= orig.skip(out@.len() as int),
        decreases rest.len(),
    {
        let ghost k = out@.len() as int;
        let ghost prev_rest = rest@;
        let ghost prev_out = out@;
        let x = rest.remove(0);
        proof {
            assert(prev_rest[0].deep_view() == orig.skip(k)[0]);
            assert(x.deep_view() == orig[k]);
            assert forall|i: int| 0 <= i < rest.deep_view().len() implies rest.deep_view()[i]
                == orig.skip(k + 1)[i] by {
                assert(rest@[i] == prev_rest.remove(0)[i]);
                assert(prev_rest[i + 1].deep_view() == orig.skip(k)[i + 1]);
            }
            assert(rest.deep_view() =~= orig.skip(k + 1));
        }
        let y = FilterById::from_host(x);
        out.push(y);
        proof {
            lemma_adapt_step::<ExFilterById, FilterById>(orig, prev_out, y, k);
            assert(out.deep_view() =~= orig.take(k + 1));
        }
    }
    proof {
        assert(out.deep_view() =~= orig);
    }
    out
}

impl FilterInfo {
    /// Adapt one interaction selection predicate, losslessly: each of the
    /// five variants has exactly one conversion arm, with no catch-all.
    pub fn from_host(value: ExFilterInfo) -> (r: Self)
        ensures
            r.deep_view() == value.deep_view(),
    {
        match value {
            ExFilterInfo::NoFilter => FilterInfo::NoFilter,
            ExFilterInfo::Description(description) => FilterInfo::Description(description),
            ExFilterInfo::State(state) => FilterInfo::State(state),
            ExFilterInfo::DescriptionAndState(description, state) => {
                FilterInfo::DescriptionAndState(description, state)
            },
            ExFilterInfo::InteractionIds(ids) => FilterInfo::InteractionIds(
                adapt_filter_ids(ids),
            ),
        }
    }
}

impl PublishOptions {
    /// Adapt the publish options, losslessly.
    pub fn from_host(value: ExPublishOptions) -> (r: Self)
        ensures
            r.deep_view() == value.deep_view(),
    {
        let ExPublishOptions { provider_version, build_url, provider_tags, provider_branch } =
            value;
        PublishOptions { provider_version, build_url, provider_tags, provider_branch }
    }
}

/// Adapt the optional publish options: absent stays absent.
pub fn adapt_publish_option(value: Option<ExPublishOptions>) -> (r: Option<PublishOptions>)
    ensures
        r.deep_view() == value.deep_view(),
{
    match value {
        Some(publish) => Some(PublishOptions::from_host(publish)),
        None => None,
    }
}

impl VerificationMetrics {
    /// Adapt the telemetry metadata, losslessly.
    pub fn from_host(value: ExVerificationMetrics) -> (r: Self)
        ensures
            r.deep_view() == value.deep_view(),
    {
        let ExVerificationMetrics { test_framework, app_name, app_version } = value;
        VerificationMetrics { test_framework, app_name, app_version }
    }
}

/// Adapt the optional telemetry metadata: attached only if supplied.
pub fn adapt_metrics_option(
    value: Option<ExVerificationMetrics>,
) -> (r: Option<VerificationMetrics>)
    ensures
        r.deep_view() == value.deep_view(),
{
    match value {
        Some(metrics) => Some(VerificationMetrics::from_host(metrics)),
        None => None,
    }
}

impl VerificationOptions {
    /// Adapt the per-call options. Every host-stated field is carried
    /// exactly; the request-filter hook is intentionally left unset, so
    /// every outgoing request passes through unmodified.
    pub fn from_host(value: ExVerificationOptions) -> (r: Self)
        ensures
            r.deep_view() == options_to_engine(value.deep_view()),
    {
        let ExVerificationOptions {
            disable_ssl_verification,
            request_timeout,
            custom_headers,
            coloured_output,
            no_pacts_is_error,
            exit_on_first_failure,
            run_last_failed_only,
        } = value;
        VerificationOptions {
            request_filter: None,
            disable_ssl_verification,
            request_timeout,
            custom_headers,
            coloured_output,
            no_pacts_is_error,
            exit_on_first_failure,
            run_last_failed_only,
        }
    }
}

impl HttpRequestProviderStateExecutor {
    /// Adapt the provider-state executor configuration, losslessly. It
    /// drives the engine's state-setup callback, not this bridge.
    pub fn from_host(value: ExHttpRequestProviderStateExecutor) -> (r: Self)
        ensures
            r.deep_view() == value.deep_view(),
    {
        let ExHttpRequestProviderStateExecutor {
            state_change_url,
            state_change_teardown,
            state_change_body,
            retries,
        } = value;
        HttpRequestProviderStateExecutor {
            state_change_url,
            state_change_teardown,
            state_change_body,
            retries,
        }
    }
}

impl HttpRequest {
    /// Adapt an outgoing request towards the engine. The host-exchangeable
    /// core is kept exactly; body, matching rules and generators become
    /// empty, the documented lossy exception of this layer.
    pub fn from_host(value: ExHttpRequest) -> (r: Self)
        ensures
            r.deep_view() == request_to_engine(value.deep_view()),
    {
        let ExHttpRequest { method, path, query, headers } = value;
        let r = HttpRequest {
            method,
            path,
            query,
            headers,
            body: OptionalBody::Empty,
            matching_rules: MatchingRules { rules: Vec::new() },
            generators: Generators { generators: Vec::new() },
        };
        proof {
            assert(r.matching_rules.deep_view() =~= Seq::<(Seq<char>, Seq<char>)>::empty());
            assert(r.generators.deep_view() =~= Seq::<(Seq<char>, Seq<char>)>::empty());
            assert(r.deep_view() =~= request_to_engine(value.deep_view()));
        }
        r
    }
}

impl ExHttpRequest {
    /// Adapt an outgoing request back to its host-exchangeable shape: the
    /// core is kept exactly, and the engine-only parts are left behind.
    pub fn from_engine(value: HttpRequest) -> (r: Self)
        ensures
            r.deep_view() == request_to_host(value.deep_view()),
    {
        let HttpRequest { method, path, query, headers, .. } = value;
        ExHttpRequest { method, path, query, headers }
    }
}

} // verus!
