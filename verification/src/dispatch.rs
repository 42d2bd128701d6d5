//! The dispatch entry point and the error translator.
//!
//! One call is prepared by adapting every host value to its engine shape,
//! handed to the engine, and concluded by translating the engine's outcome:
//! `Ok(true)` when all selected interactions verified, `Ok(false)` when
//! verification ran but some interaction failed (a normal negative result,
//! not an error), and a raised error with the one stable tag for any failure
//! the engine reports. The engine's long-running, blocking work itself is an
//! external collaborator: the host glue must run it on a worker reserved for
//! blocking calls, never inline on a shared scheduler thread.

use vstd::prelude::*;
use vstd::string::StringExecFns;

use crate::adapt::{
    adapt_metrics_option, adapt_publish_option, adapt_sources, options_to_engine,
};
use crate::engine::{
    EngineOptionsModel, FilterInfo, HttpRequestProviderStateExecutor, PactSource, ProviderInfo,
    PublishOptions, VerificationMetrics, VerificationOptions,
};
use crate::host::{
    ExFilterInfo, ExHttpRequestProviderStateExecutor, ExPactSource, ExProviderInfo,
    ExPublishOptions, ExVerificationMetrics, ExVerificationOptions,
};
use crate::model::{
    FilterModel, MetricsModel, ProviderInfoModel, PublishModel, SourceModel, StateExecutorModel,
};

verus! {

/// Everything one verification call hands the engine, adapted and bundled.
pub struct VerificationRequest {
    pub provider: ProviderInfo,
    pub sources: Vec<PactSource>,
    pub filter: FilterInfo,
    pub consumers: Vec<String>,
    pub options: VerificationOptions,
    pub publish: Option<PublishOptions>,
    pub state_executor: HttpRequestProviderStateExecutor,
    pub metrics: Option<VerificationMetrics>,
}

/// The model of a bundled request.
#[verifier::ext_equal]
pub struct VerificationRequestModel {
    pub provider: ProviderInfoModel,
    pub sources: Seq<SourceModel>,
    pub filter: FilterModel,
    pub consumers: Seq<Seq<char>>,
    pub options: EngineOptionsModel,
    pub publish: Option<PublishModel>,
    pub state_executor: StateExecutorModel,
    pub metrics: Option<MetricsModel>,
}

impl DeepView for VerificationRequest {
    type V = VerificationRequestModel;

    open spec fn deep_view(&self) -> VerificationRequestModel {
        VerificationRequestModel {
            provider: self.provider.deep_view(),
            sources: self.sources.deep_view(),
            filter: self.filter.deep_view(),
            consumers: self.consumers.deep_view(),
            options: self.options.deep_view(),
            publish: self.publish.deep_view(),
            state_executor: self.state_executor.deep_view(),
            metrics: self.metrics.deep_view(),
        }
    }
}

/// Build the engine-facing request from the host-supplied values: every
/// entity is adapted losslessly, the consumer list is carried verbatim, and
/// the request-filter slot of the options is left unset.
pub fn prepare_verification(
    provider_info: ExProviderInfo,
    source: Vec<ExPactSource>,
    filter: ExFilterInfo,
    consumers: Vec<String>,
    verification_options: ExVerificationOptions,
    publish_options: Option<ExPublishOptions>,
    provider_state_executor: ExHttpRequestProviderStateExecutor,
    metrics_data: Option<ExVerificationMetrics>,
) -> (r: VerificationRequest)
    ensures
        r.deep_view().provider == provider_info.deep_view(),
        r.deep_view().sources == source.deep_view(),
        r.deep_view().filter == filter.deep_view(),
        r.deep_view().consumers == consumers.deep_view(),
        r.deep_view().options == options_to_engine(verification_options.deep_view()),
        r.deep_view().publish == publish_options.deep_view(),
        r.deep_view().state_executor == provider_state_executor.deep_view(),
        r.deep_view().metrics == metrics_data.deep_view(),
{
    VerificationRequest {
        provider: ProviderInfo::from_host(provider_info),
        sources: adapt_sources(source),
        filter: FilterInfo::from_host(filter),
        consumers,
        options: VerificationOptions::from_host(verification_options),
        publish: adapt_publish_option(publish_options),
        state_executor: HttpRequestProviderStateExecutor::from_host(provider_state_executor),
        metrics: adapt_metrics_option(metrics_data),
    }
}

/// An error raised to the host. Whatever the underlying engine failure, the
/// tag is the one constant of `raised_tag`; callers that need to distinguish
/// causes must parse the message, which is the rendered engine error.
pub struct RaisedError {
    pub tag: String,
    pub message: String,
}

/// The one tag every engine failure is raised under.
pub open spec fn raised_tag() -> Seq<char> {
    "invalid_interaction_builder_reference"@
}

/// Translate the engine's outcome for the host. `Ok` passes through exactly:
/// `false` is a normal negative result, never an error. `Err` becomes a
/// raised error, if and only if the engine failed, whose message is the
/// engine's (already rendered) failure and whose tag is the one constant.
pub fn conclude_verification(outcome: Result<bool, String>) -> (r: Result<bool, RaisedError>)
    ensures
        r is Ok <==> outcome is Ok,
        (outcome matches Ok(passed) ==> r matches Ok(p) && p == passed),
        (outcome matches Err(message) ==> r matches Err(e) && e.message == message
            && e.tag@ == raised_tag()),
{
    match outcome {
        Ok(passed) => Ok(passed),
        Err(message) => Err(
            RaisedError {
                tag: String::from_str("invalid_interaction_builder_reference"),
                message,
            },
        ),
    }
}

/// The verification engine, as the bridge sees it: one synchronous,
/// long-running call that either reports whether all selected interactions
/// verified or fails with a rendered error. Implementations perform blocking
/// network I/O; nothing is assumed of what they return.
pub trait VerificationEngine {
    /// Run one verification to completion or failure.
    fn verify(&mut self, request: VerificationRequest) -> Result<bool, String>;
}

/// The single externally callable operation: adapt all inputs, run the
/// engine, translate the outcome. Nothing is assumed of the engine, so the
/// contract states what holds whatever it reported: a raised error always
/// carries the stable tag. Which outcome comes back for which input is the
/// engine's affair; the exact translation is the contract of
/// `conclude_verification`, and the exact adaptation that of
/// `prepare_verification`.
pub fn verify_provider<E: VerificationEngine>(
    engine: &mut E,
    provider_info: ExProviderInfo,
    source: Vec<ExPactSource>,
    filter: ExFilterInfo,
    consumers: Vec<String>,
    verification_options: ExVerificationOptions,
    publish_options: Option<ExPublishOptions>,
    provider_state_executor: ExHttpRequestProviderStateExecutor,
    metrics_data: Option<ExVerificationMetrics>,
) -> (r: Result<bool, RaisedError>)
    ensures
        (r matches Err(e) ==> e.tag@ == raised_tag()),
{
    let request = prepare_verification(
        provider_info,
        source,
        filter,
        consumers,
        verification_options,
        publish_options,
        provider_state_executor,
        metrics_data,
    );
    let outcome = engine.verify(request);
    conclude_verification(outcome)
}

} // verus!
