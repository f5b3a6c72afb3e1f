//! The transform pipeline: validate, route, then try the routed candidates in
//! order until one adapter accepts the request and builds its payload.
use vstd::prelude::*;

use crate::adapters::{Adapter, AdapterKey, AdapterRegistry, GeminiChatAdapter, OllamaChatAdapter,
    OpenAiChatAdapter, ProviderAdapter, flatten_failure};
use crate::canonical::{CanonicalEnvelope, Violation, blank_text, envelope_violations,
    is_valid_envelope, is_validation_error, validate_envelope, flag_if};
use crate::routing::{clone_text, exclusions, is_usable, lemma_exclusions_upto, route_availability_first,
    usable_providers};
use crate::types::{AdapterVersion, Capability, Diagnostics, ErrorCode, ErrorDetails, OmniError,
    ProviderId, ProviderMap, ProviderReason, ReasonClass, ReasonCode, ReasonDetail, TransformResult};

verus! {

/// The reason recorded for a candidate without a registered adapter.
pub open spec fn missing_registration(p: ProviderId) -> ProviderReason {
    ProviderReason {
        class: ReasonClass::ConfigError,
        code: ReasonCode::MissingAdapterRegistration,
        retryable: false,
        detail: ReasonDetail::MissingAdapter { provider: p },
    }
}

/// The reason recorded for a candidate whose payload build failed with `e`.
pub open spec fn build_failure(e: OmniError) -> ProviderReason {
    ProviderReason {
        class: ReasonClass::AdapterFailure,
        code: ReasonCode::PayloadBuildError,
        retryable: true,
        detail: ReasonDetail::BuildFailed { error_code: e.code, message: e.message },
    }
}

/// Whether a candidate served by `a` accepts the request and builds a payload.
pub open spec fn accepts(a: Option<Adapter>, req: crate::canonical::ChatRequest) -> bool {
    a matches Some(x) && x.support(req).supported && !x.build_fails(req)
}

/// The reason, if any, recorded for candidate `p` served by `a` that does
/// not accept the request.
pub open spec fn skip_reason(
    p: ProviderId,
    a: Option<Adapter>,
    req: crate::canonical::ChatRequest,
) -> Option<ProviderReason> {
    match a {
        None => Some(missing_registration(p)),
        Some(x) => if !x.support(req).supported {
            x.support(req).reason
        } else if x.build_fails(req) {
            Some(build_failure(flatten_failure()))
        } else {
            None
        },
    }
}

/// The message of the exhaustion error.
pub open spec fn exhaustion_message() -> &'static str {
    "No configured providers are currently available"
}

/// `e` is the retryable no-provider-available error that embeds the
/// attempted providers and the reason table.
pub open spec fn is_exhaustion_error(
    e: OmniError,
    attempted: Seq<ProviderId>,
    reasons: Map<ProviderId, ProviderReason>,
) -> bool {
    &&& e.code == ErrorCode::NoProviderAvailable
    &&& e.message == exhaustion_message()
    &&& e.details matches ErrorDetails::Exhausted { attempted_providers: a, reasons: m } && a@
        == attempted && m@ == reasons
    &&& e.retryable
}

/// Dispatches canonical requests to provider adapters.
pub struct TransformEngine {
    registry: AdapterRegistry,
    default_adapter_version: AdapterVersion,
}

impl TransformEngine {
    /// The adapter that serves provider `p` for chat at the engine's version.
    pub closed spec fn adapter_for(&self, p: ProviderId) -> Option<Adapter> {
        let k = (p, Capability::Chat, self.default_adapter_version.0@);
        if self.registry@.contains_key(k) {
            Some(self.registry@[k])
        } else {
            None
        }
    }

    /// Routed candidate `i` of the envelope accepts its request.
    pub open spec fn accepts_at(&self, env: CanonicalEnvelope, i: int) -> bool {
        accepts(self.adapter_for(usable_providers(env.provider)[i]), env.request)
    }

    /// Some routed candidate of the envelope accepts its request.
    pub open spec fn some_accepts(&self, env: CanonicalEnvelope) -> bool {
        exists|i: int| 0 <= i < usable_providers(env.provider).len() && self.accepts_at(env, i)
    }

    /// The reason table after the first `n` routed candidates were tried.
    pub open spec fn reasons_after(&self, env: CanonicalEnvelope, n: int) -> Map<
        ProviderId,
        ProviderReason,
    >
        decreases n,
    {
        if n <= 0 {
            exclusions(env.provider)
        } else {
            let m = self.reasons_after(env, n - 1);
            let p = usable_providers(env.provider)[n - 1];
            match skip_reason(p, self.adapter_for(p), env.request) {
                Some(r) => m.insert(p, r),
                None => m,
            }
        }
    }

    /// `r` reports that candidate `k` won: it is the first that accepts.
    pub open spec fn is_success_at(&self, env: CanonicalEnvelope, r: TransformResult, k: int) -> bool {
        let cands = usable_providers(env.provider);
        &&& 0 <= k < cands.len()
        &&& self.accepts_at(env, k)
        &&& forall|j: int| 0 <= j < k ==> !self.accepts_at(env, j)
        &&& r.ok
        &&& r.selected_provider == Some(cands[k])
        &&& r.provider_payload matches Some(p) && self.adapter_for(cands[k])->Some_0.is_payload(
            env.request,
            p,
        )
        &&& r.fallback_candidates@ == cands.subrange(k + 1, cands.len() as int)
        &&& r.warnings@.len() == 0
        &&& r.diagnostics.dropped_fields@.len() == 0
        &&& r.diagnostics.coercions@.len() == 0
        &&& r.diagnostics.mapping_trace@.len() == 0
        &&& r.diagnostics.attempted_providers@ == cands.take(k + 1)
        &&& r.diagnostics.provider_reasons@ == self.reasons_after(env, k)
        &&& r.error is None
    }

    /// `r` reports that every routed candidate was tried and none accepted.
    pub open spec fn is_exhausted(&self, env: CanonicalEnvelope, r: TransformResult) -> bool {
        let cands = usable_providers(env.provider);
        let reasons = self.reasons_after(env, cands.len() as int);
        &&& !r.ok
        &&& r.selected_provider is None
        &&& r.provider_payload is None
        &&& r.fallback_candidates@.len() == 0
        &&& r.warnings@.len() == 0
        &&& r.diagnostics.dropped_fields@.len() == 0
        &&& r.diagnostics.coercions@.len() == 0
        &&& r.diagnostics.mapping_trace@.len() == 0
        &&& r.diagnostics.attempted_providers@ == cands
        &&& r.diagnostics.provider_reasons@ == reasons
        &&& r.error matches Some(e) && is_exhaustion_error(e, cands, reasons)
    }

    /// `r` reports that the envelope failed validation.
    pub open spec fn is_rejected(&self, env: CanonicalEnvelope, r: TransformResult) -> bool {
        &&& !r.ok
        &&& r.selected_provider is None
        &&& r.provider_payload is None
        &&& r.fallback_candidates@.len() == 0
        &&& r.warnings@.len() == 0
        &&& r.diagnostics.is_empty()
        &&& r.error matches Some(e) && is_validation_error(e, envelope_violations(env))
    }

    /// What `transform` returns for an envelope.
    pub open spec fn transforms_to(&self, env: CanonicalEnvelope, r: TransformResult) -> bool {
        if !is_valid_envelope(env) {
            self.is_rejected(env, r)
        } else if self.some_accepts(env) {
            exists|k: int| self.is_success_at(env, r, k)
        } else {
            self.is_exhausted(env, r)
        }
    }

    /// An engine over the given registry that looks adapters up at the given
    /// version.
    pub fn new(registry: AdapterRegistry, default_adapter_version: AdapterVersion) -> (r: Self)
        ensures
            forall|p: ProviderId|
                #[trigger] r.adapter_for(p) == (if registry@.contains_key(
                    (p, Capability::Chat, default_adapter_version.0@),
                ) {
                    Some(registry@[(p, Capability::Chat, default_adapter_version.0@)])
                } else {
                    None
                }),
    {
        TransformEngine { registry, default_adapter_version }
    }
}

impl Default for TransformEngine {
    /// The engine with the three built-in adapters at version `v1`.
    fn default() -> (r: Self)
        ensures
            forall|p: ProviderId| #[trigger] r.adapter_for(p) == Some(Adapter::builtin(p)),
    {
        let mut registry = AdapterRegistry::new();
        registry.register(Adapter::OpenAi(OpenAiChatAdapter));
        registry.register(Adapter::Gemini(GeminiChatAdapter));
        registry.register(Adapter::Ollama(OllamaChatAdapter));
        let r = TransformEngine { registry, default_adapter_version: AdapterVersion::default() };
        assert forall|p: ProviderId| #[trigger] r.adapter_for(p) == Some(Adapter::builtin(p)) by {
            match p {
                ProviderId::OpenAi => {},
                ProviderId::Gemini => {},
                ProviderId::Ollama => {},
            }
        }
        r
    }
}

fn copy_reason(reason: &ProviderReason) -> (r: ProviderReason)
    ensures
        r == *reason,
{
    let detail = match &reason.detail {
        ReasonDetail::HostUnavailable { reason, last_seen_healthy_at } => ReasonDetail::HostUnavailable {
            reason: clone_text(reason),
            last_seen_healthy_at: clone_text(last_seen_healthy_at),
        },
        ReasonDetail::HostIncompatible { reason } => ReasonDetail::HostIncompatible {
            reason: clone_text(reason),
        },
        ReasonDetail::Unsupported { feature } => ReasonDetail::Unsupported { feature: *feature },
        ReasonDetail::MissingAdapter { provider } => ReasonDetail::MissingAdapter {
            provider: *provider,
        },
        ReasonDetail::BuildFailed { error_code, message } => ReasonDetail::BuildFailed {
            error_code: *error_code,
            message: *message,
        },
    };
    ProviderReason { class: reason.class, code: reason.code, retryable: reason.retryable, detail }
}

fn copy_reasons(reasons: &ProviderMap<ProviderReason>) -> (r: ProviderMap<ProviderReason>)
    ensures
        r@ == reasons@,
{
    let mut r = ProviderMap::new();
    if let Some(x) = reasons.get(&ProviderId::OpenAi) {
        r.insert(ProviderId::OpenAi, copy_reason(x));
    }
    if let Some(x) = reasons.get(&ProviderId::Gemini) {
        r.insert(ProviderId::Gemini, copy_reason(x));
    }
    if let Some(x) = reasons.get(&ProviderId::Ollama) {
        r.insert(ProviderId::Ollama, copy_reason(x));
    }
    assert(r@ =~= reasons@) by {
        assert forall|p: ProviderId| r@.contains_key(p) == reasons@.contains_key(p) by {
            match p {
                ProviderId::OpenAi => {},
                ProviderId::Gemini => {},
                ProviderId::Ollama => {},
            }
        }
    }
    r
}

/// The providers of `v` from index `from` on.
fn copy_from(v: &Vec<ProviderId>, from: usize) -> (r: Vec<ProviderId>)
    requires
        from <= v@.len(),
    ensures
        r@ == v@.subrange(from as int, v@.len() as int),
{
    let mut r: Vec<ProviderId> = Vec::new();
    let mut k: usize = from;
    while k < v.len()
        invariant
            from <= k <= v@.len(),
            r@ == v@.subrange(from as int, k as int),
        decreases v@.len() - k,
    {
        r.push(v[k]);
        proof {
            assert(r@ =~= v@.subrange(from as int, k + 1));
        }
        k = k + 1;
    }
    r
}

impl TransformEngine {
    /// Validates the envelope, routes it, and tries each routed candidate in
    /// order until one accepts the request and builds its payload.
    pub fn transform(&self, envelope: CanonicalEnvelope) -> (r: TransformResult)
        ensures
            self.transforms_to(envelope, r),
    {
        if let Err(validation_error) = validate_envelope(&envelope) {
            return TransformResult::failure(
                validation_error,
                Vec::new(),
                Vec::new(),
                Diagnostics::default(),
            );
        }
        let routing = route_availability_first(&envelope.provider);
        let ghost cands = usable_providers(envelope.provider);
        let mut candidates: Vec<ProviderId> = Vec::new();
        if let Some(primary) = routing.selected_provider {
            candidates.push(primary);
            let mut k: usize = 0;
            while k < routing.fallback_candidates.len()
                invariant
                    0 <= k <= routing.fallback_candidates@.len(),
                    candidates@ == seq![primary] + routing.fallback_candidates@.take(k as int),
                decreases routing.fallback_candidates@.len() - k,
            {
                candidates.push(routing.fallback_candidates[k]);
                proof {
                    assert(candidates@ =~= seq![primary] + routing.fallback_candidates@.take(
                        k + 1,
                    ));
                }
                k = k + 1;
            }
            proof {
                assert(routing.fallback_candidates@.take(k as int) =~= routing.fallback_candidates@);
            }
        }
        assert(candidates@ =~= cands);
        let mut diagnostics = Diagnostics::with_reasons(routing.provider_reasons);
        let request = &envelope.request;
        let mut i: usize = 0;
        while i < candidates.len()
            invariant
                candidates@ == cands,
                cands == usable_providers(envelope.provider),
                *request == envelope.request,
                is_valid_envelope(envelope),
                0 <= i <= cands.len(),
                diagnostics.dropped_fields@.len() == 0,
                diagnostics.coercions@.len() == 0,
                diagnostics.mapping_trace@.len() == 0,
                diagnostics.attempted_providers@ == cands.take(i as int),
                diagnostics.provider_reasons@ == self.reasons_after(envelope, i as int),
                forall|j: int| 0 <= j < i ==> !self.accepts_at(envelope, j),
            decreases cands.len() - i,
        {
            let provider = candidates[i];
            diagnostics.attempted_providers.push(provider);
            proof {
                assert(diagnostics.attempted_providers@ =~= cands.take(i + 1));
            }
            let key = AdapterKey {
                provider_id: provider,
                capability: Capability::Chat,
                adapter_version: AdapterVersion(self.default_adapter_version.0.clone()),
            };
            match self.registry.get(&key) {
                None => {
                    diagnostics.provider_reasons.insert(
                        provider,
                        ProviderReason {
                            class: ReasonClass::ConfigError,
                            code: ReasonCode::MissingAdapterRegistration,
                            retryable: false,
                            detail: ReasonDetail::MissingAdapter { provider },
                        },
                    );
                },
                Some(adapter) => {
                    let support = adapter.supports(request);
                    if !support.supported {
                        if let Some(reason) = support.reason {
                            diagnostics.provider_reasons.insert(provider, reason);
                        }
                    } else {
                        match adapter.build_payload(request) {
                            Ok(payload) => {
                                let fallback_candidates = copy_from(&candidates, i + 1);
                                let r = TransformResult::success(
                                    provider,
                                    payload,
                                    fallback_candidates,
                                    Vec::new(),
                                    diagnostics,
                                );
                                assert(self.is_success_at(envelope, r, i as int));
                                return r;
                            },
                            Err(err) => {
                                diagnostics.provider_reasons.insert(
                                    provider,
                                    ProviderReason {
                                        class: ReasonClass::AdapterFailure,
                                        code: ReasonCode::PayloadBuildError,
                                        retryable: true,
                                        detail: ReasonDetail::BuildFailed {
                                            error_code: err.code,
                                            message: err.message,
                                        },
                                    },
                                );
                            },
                        }
                    }
                },
            }
            i = i + 1;
        }
        proof {
            assert(cands.take(i as int) =~= cands);
        }
        let error = OmniError::new(
            ErrorCode::NoProviderAvailable,
            "No configured providers are currently available",
            ErrorDetails::Exhausted {
                attempted_providers: copy_from(&diagnostics.attempted_providers, 0),
                reasons: copy_reasons(&diagnostics.provider_reasons),
            },
            true,
        );
        proof {
            assert(diagnostics.attempted_providers@.subrange(0, cands.len() as int) =~= cands);
        }
        TransformResult::failure(error, Vec::new(), Vec::new(), diagnostics)
    }
}

/// Transforms an envelope with the built-in adapters.
pub fn transform(envelope: CanonicalEnvelope) -> (r: TransformResult)
    ensures
        exists|engine: TransformEngine|
            (forall|p: ProviderId| #[trigger] engine.adapter_for(p) == Some(Adapter::builtin(p)))
                && engine.transforms_to(envelope, r),
{
    let engine = TransformEngine::default();
    engine.transform(envelope)
}

/// An envelope without messages is rejected as an invalid canonical request
/// before any routing: no provider is attempted.
pub proof fn lemma_no_messages_rejected(engine: TransformEngine, env: CanonicalEnvelope, r: TransformResult)
    requires
        env.request.messages@.len() == 0,
        engine.transforms_to(env, r),
    ensures
        !r.ok,
        r.error matches Some(e) && e.code == ErrorCode::InvalidCanonicalRequest,
        r.diagnostics.attempted_providers@.len() == 0,
{
    let v = envelope_violations(env);
    let g = env.request.generation;
    let a = flag_if(env.provider.preferred@.len() == 0, Violation::NoPreferredProvider) + flag_if(
        blank_text(env.request.model@),
        Violation::BlankModel,
    );
    assert((a + flag_if(true, Violation::NoMessages)).len() > 0);
    assert(v.len() > 0);
}

/// A valid envelope whose preferred providers are all marked unavailable
/// exhausts: no provider is available, and every preferred provider has an
/// unavailability reason.
pub proof fn lemma_all_unavailable_exhausts(
    engine: TransformEngine,
    env: CanonicalEnvelope,
    r: TransformResult,
)
    requires
        is_valid_envelope(env),
        forall|i: int|
            0 <= i < env.provider.preferred@.len() ==> (#[trigger] env.provider.availability@.get(
                env.provider.preferred@[i],
            ) matches Some(a) && !a.available),
        engine.transforms_to(env, r),
    ensures
        !r.ok,
        r.selected_provider is None,
        r.error matches Some(e) && e.code == ErrorCode::NoProviderAvailable,
        forall|i: int|
            0 <= i < env.provider.preferred@.len() ==> r.diagnostics.provider_reasons@.contains_key(
                #[trigger] env.provider.preferred@[i],
            ) && r.diagnostics.provider_reasons@[env.provider.preferred@[i]].class
                == ReasonClass::Unavailable,
{
    let sel = env.provider;
    let pred = |p: ProviderId| is_usable(sel.availability@, p);
    let cands = usable_providers(sel);
    if cands.len() > 0 {
        sel.preferred@.lemma_filter_pred(pred, 0);
        assert(cands.contains(cands[0]));
        sel.preferred@.lemma_filter_contains_rev(pred, cands[0]);
        assert(sel.preferred@.contains(cands[0]));
        let i = choose|i: int| 0 <= i < sel.preferred@.len() && sel.preferred@[i] == cands[0];
        assert(sel.availability@.get(sel.preferred@[i]) is Some);
    }
    assert(cands.len() == 0);
    assert(!engine.some_accepts(env));
    assert(engine.reasons_after(env, 0) == exclusions(sel));
    lemma_exclusions_upto(sel.preferred@, sel.availability@, sel.preferred@.len() as int);
    assert(sel.preferred@.take(sel.preferred@.len() as int) =~= sel.preferred@);
    assert forall|i: int| 0 <= i < sel.preferred@.len() implies r.diagnostics.provider_reasons@.contains_key(
        #[trigger] sel.preferred@[i],
    ) && r.diagnostics.provider_reasons@[sel.preferred@[i]].class == ReasonClass::Unavailable by {
        let p = sel.preferred@[i];
        assert(sel.availability@.get(p) is Some);
        assert(sel.preferred@.contains(p));
    }
}

} // verus!
