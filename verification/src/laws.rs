//! The laws of the adapter, proved once for all values.
//!
//! Losslessness of each single conversion is already that conversion's
//! contract (its result's deep view equals its input's). The proofs here
//! state what holds across conversions: round trips recover the original,
//! and equal views force corresponding variants of the closed unions, so no
//! conversion arm can coerce one variant into another or fall through to a
//! default.

use vstd::prelude::*;

use crate::adapt::{options_to_engine, request_to_engine, request_to_host};
use crate::engine::{
    BodyModel, EngineRequestModel, FilterById, FilterInfo, HttpAuth, PactSource,
};
use crate::host::{ExFilterById, ExFilterInfo, ExHttpAuth, ExPactSource};
use crate::model::{OptionsModel, RequestModel};

verus! {

/// Round trip of the outgoing request scaffolding: a host request adapted to
/// the engine and back is recovered exactly.
pub proof fn lemma_request_round_trip(core: RequestModel)
    ensures
        request_to_host(request_to_engine(core)) == core,
{
}

/// Round trip in the other direction: an engine request carried to the host
/// and back keeps its core exactly, while body, matching rules and
/// generators come back empty — the documented lossy exception of this
/// layer, never a silent drop of anything else.
pub proof fn lemma_engine_request_round_trip(request: EngineRequestModel)
    ensures
        request_to_engine(request_to_host(request)) == (EngineRequestModel {
            core: request.core,
            body: BodyModel::Empty,
            matching_rules: Seq::empty(),
            generators: Seq::empty(),
        }),
{
}

/// The options adaptation loses nothing: two host option records that adapt
/// to the same engine options were equal to begin with, so every host-stated
/// field is recoverable from what the engine receives.
pub proof fn lemma_options_lossless(a: OptionsModel, b: OptionsModel)
    requires
        options_to_engine(a) == options_to_engine(b),
    ensures
        a == b,
{
}

/// Exhaustiveness of the credential union: when a host credential and an
/// engine credential agree on their views — as the adapter guarantees — they
/// are the same variant of the closed three-variant union.
pub proof fn lemma_auth_arms(h: ExHttpAuth, e: HttpAuth)
    requires
        e.deep_view() == h.deep_view(),
    ensures
        h is User <==> e is User,
        h is Token <==> e is Token,
        h is NoAuth <==> e is NoAuth,
{
}

/// Exhaustiveness of the contract-source union: equal views force the same
/// variant of the closed eight-variant union, for every variant.
pub proof fn lemma_source_arms(h: ExPactSource, e: PactSource)
    requires
        e.deep_view() == h.deep_view(),
    ensures
        h is Unknown <==> e is Unknown,
        h is File <==> e is File,
        h is Dir <==> e is Dir,
        h is Url <==> e is URL,
        h is BrokerUrl <==> e is BrokerUrl,
        h is BrokerWithDynamicConfiguration <==> e is BrokerWithDynamicConfiguration,
        h is String <==> e is String,
        h is WebhookCallbackUrl <==> e is WebhookCallbackUrl,
{
}

/// Exhaustiveness of the interaction-identifier union: equal views force the
/// same variant of the closed three-variant union.
pub proof fn lemma_filter_by_id_arms(h: ExFilterById, e: FilterById)
    requires
        e.deep_view() == h.deep_view(),
    ensures
        h is InteractionId <==> e is InteractionId,
        h is InteractionKey <==> e is InteractionKey,
        h is InteractionDesc <==> e is InteractionDesc,
{
}

/// Exhaustiveness of the filter union: equal views force the same variant of
/// the closed five-variant union.
pub proof fn lemma_filter_arms(h: ExFilterInfo, e: FilterInfo)
    requires
        e.deep_view() == h.deep_view(),
    ensures
        h is NoFilter <==> e is NoFilter,
        h is Description <==> e is Description,
        h is State <==> e is State,
        h is DescriptionAndState <==> e is DescriptionAndState,
        h is InteractionIds <==> e is InteractionIds,
{
}

} // verus!
