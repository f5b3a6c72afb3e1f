//! Shared vocabulary of the gateway: provider identities, reason and error
//! taxonomies, the per-provider reason table, diagnostics and the result of a
//! transform call.
use vstd::prelude::*;

use crate::canonical::Violation;
use crate::payload::ProviderPayload;

verus! {

/// The kind of request an adapter serves.
#[derive(Debug, Clone, Copy, PartialEq, Eq, Hash, Structural)]
pub enum Capability {
    Chat,
}

/// A backend provider (wire names `openai`, `gemini`, `ollama`).
#[derive(Debug, Clone, Copy, PartialEq, Eq, Hash, Structural)]
pub enum ProviderId {
    OpenAi,
    Gemini,
    Ollama,
}

/// Version label of an adapter implementation.
#[derive(Debug, Clone, PartialEq, Eq, Hash)]
pub struct AdapterVersion(pub String);

/// The version every built-in adapter declares.
pub open spec fn default_version_text() -> Seq<char> {
    seq!['v', '1']
}

impl Default for AdapterVersion {
    fn default() -> (r: Self)
        ensures
            r.0@ == default_version_text(),
    {
        proof {
            reveal_strlit("v1");
        }
        AdapterVersion("v1".to_owned())
    }
}

/// Coarse classification of why a provider was skipped or failed.
#[derive(Debug, Clone, Copy, PartialEq, Eq, Structural)]
pub enum ReasonClass {
    Unavailable,
    Incompatible,
    AdapterFailure,
    ConfigError,
    PolicyBlocked,
}

/// Fine-grained reason taxonomy; several codes are reserved for routing
/// features that are not implemented.
#[derive(Debug, Clone, Copy, PartialEq, Eq, Structural)]
pub enum ReasonCode {
    HealthcheckDown,
    HostMarkedUnavailable,
    CircuitOpen,
    RateLimitCooldown,
    TimeoutRecent,
    UnsupportedModel,
    UnsupportedToolCalling,
    UnsupportedResponseFormat,
    UnsupportedMultimodalContent,
    UnsupportedParam,
    PayloadBuildError,
    CanonicalToProviderMappingFailed,
    SerializationError,
    AdapterVersionMismatch,
    InternalAdapterError,
    MissingProviderConfig,
    InvalidProviderConfig,
    MissingAdapterRegistration,
    InvalidRoutingConfig,
    InvalidApiVersionTarget,
    ProviderNotAllowed,
    ModelNotAllowed,
    FeatureNotAllowed,
    DataClassificationBlocked,
    RegionRestricted,
}

/// A request feature that some provider cannot express.
#[derive(Debug, Clone, Copy, PartialEq, Eq, Structural)]
pub enum Feature {
    /// Tool definitions (`tools`).
    Tools,
    /// Structured output (`response_format.json_schema`).
    JsonSchemaResponseFormat,
    /// Image content parts (`image_url`).
    ImageUrl,
}

/// Observability payload attached to a provider reason.
#[derive(Debug, Clone, PartialEq)]
pub enum ReasonDetail {
    /// The host snapshot marked the provider unavailable.
    HostUnavailable { reason: Option<String>, last_seen_healthy_at: Option<String> },
    /// The host snapshot marked the provider incompatible.
    HostIncompatible { reason: Option<String> },
    /// The adapter cannot express a feature of the request.
    Unsupported { feature: Feature },
    /// No adapter is registered for the provider.
    MissingAdapter { provider: ProviderId },
    /// The adapter failed while building the payload.
    BuildFailed { error_code: ErrorCode, message: &'static str },
}

/// Why one provider was skipped or failed.
#[derive(Debug, Clone, PartialEq)]
pub struct ProviderReason {
    pub class: ReasonClass,
    pub code: ReasonCode,
    pub retryable: bool,
    pub detail: ReasonDetail,
}

/// Top-level error codes of a transform call.
#[derive(Debug, Clone, Copy, PartialEq, Eq, Structural)]
pub enum ErrorCode {
    InvalidCanonicalRequest,
    MissingRequiredField,
    UnsupportedFeatureForProvider,
    ProviderPayloadBuildFailed,
    NoProviderAvailable,
    RoutingConfigInvalid,
    InternalMappingError,
}

/// Structured detail of a top-level error.
#[derive(Debug, Clone, PartialEq)]
pub enum ErrorDetails {
    /// No detail.
    Empty,
    /// Every violation found while validating the envelope, in order.
    Violations { violations: Vec<Violation> },
    /// Every candidate was excluded or failed.
    Exhausted { attempted_providers: Vec<ProviderId>, reasons: ProviderMap<ProviderReason> },
    /// An image part reached a text-only payload builder.
    ImageNotFlattenable,
    /// A free-form explanation.
    Message { text: String },
}

/// A top-level error.
#[derive(Debug, Clone, PartialEq)]
pub struct OmniError {
    pub code: ErrorCode,
    pub message: &'static str,
    pub details: ErrorDetails,
    pub retryable: bool,
}

impl OmniError {
    pub fn new(code: ErrorCode, message: &'static str, details: ErrorDetails, retryable: bool) -> (r:
        Self)
        ensures
            r == (OmniError { code, message, details, retryable }),
    {
        OmniError { code, message, details, retryable }
    }
}

/// A non-fatal note attached to a result.
#[derive(Debug, Clone, PartialEq)]
pub struct Warning {
    pub code: String,
    pub message: String,
    pub detail: serde_json::Value,
}

/// A table with at most one entry per provider.
#[derive(Debug, Clone, PartialEq)]
pub struct ProviderMap<V> {
    openai: Option<V>,
    gemini: Option<V>,
    ollama: Option<V>,
}

impl<V> ProviderMap<V> {
    pub closed spec fn slot(&self, p: ProviderId) -> Option<V> {
        match p {
            ProviderId::OpenAi => self.openai,
            ProviderId::Gemini => self.gemini,
            ProviderId::Ollama => self.ollama,
        }
    }

    /// The entries as a finite map.
    pub open spec fn view(&self) -> Map<ProviderId, V> {
        Map::new(|p: ProviderId| self.slot(p) is Some, |p: ProviderId| self.slot(p)->Some_0)
    }

    pub fn new() -> (r: Self)
        ensures
            r@ == Map::<ProviderId, V>::empty(),
    {
        let r = ProviderMap { openai: None, gemini: None, ollama: None };
        assert(r@ =~= Map::<ProviderId, V>::empty());
        r
    }

    /// Sets the entry of `p`, replacing any earlier one.
    pub fn insert(&mut self, p: ProviderId, v: V)
        ensures
            final(self)@ == old(self)@.insert(p, v),
    {
        match p {
            ProviderId::OpenAi => self.openai = Some(v),
            ProviderId::Gemini => self.gemini = Some(v),
            ProviderId::Ollama => self.ollama = Some(v),
        }
        assert(self@ =~= old(self)@.insert(p, v));
    }

    pub fn get(&self, p: &ProviderId) -> (r: Option<&V>)
        ensures
            r == (if self@.contains_key(*p) {
                Some(&self@[*p])
            } else {
                None
            }),
    {
        match p {
            ProviderId::OpenAi => self.openai.as_ref(),
            ProviderId::Gemini => self.gemini.as_ref(),
            ProviderId::Ollama => self.ollama.as_ref(),
        }
    }

    pub fn contains_key(&self, p: &ProviderId) -> (r: bool)
        ensures
            r == self@.contains_key(*p),
    {
        match p {
            ProviderId::OpenAi => self.openai.is_some(),
            ProviderId::Gemini => self.gemini.is_some(),
            ProviderId::Ollama => self.ollama.is_some(),
        }
    }

    pub fn len(&self) -> (r: usize)
        ensures
            r == self@.dom().len(),
    {
        let mut n: usize = 0;
        if self.openai.is_some() {
            n = n + 1;
        }
        if self.gemini.is_some() {
            n = n + 1;
        }
        if self.ollama.is_some() {
            n = n + 1;
        }
        proof {
            lemma_provider_domain(self@.dom());
        }
        n
    }
}

/// The counting behind `ProviderMap::len`: a set of providers is the union of
/// its three possible members.
proof fn lemma_provider_domain(d: Set<ProviderId>)
    ensures
        d.len() == (if d.contains(ProviderId::OpenAi) { 1int } else { 0int }) + (if d.contains(
            ProviderId::Gemini,
        ) {
            1int
        } else {
            0int
        }) + (if d.contains(ProviderId::Ollama) { 1int } else { 0int }),
{
    let a = if d.contains(ProviderId::OpenAi) { set![ProviderId::OpenAi] } else { Set::empty() };
    let b = if d.contains(ProviderId::Gemini) { set![ProviderId::Gemini] } else { Set::empty() };
    let c = if d.contains(ProviderId::Ollama) { set![ProviderId::Ollama] } else { Set::empty() };
    assert(d =~= a + b + c);
    assert(a.disjoint(b));
    vstd::set_lib::lemma_set_disjoint_lens(a, b);
    assert((a + b).disjoint(c));
    vstd::set_lib::lemma_set_disjoint_lens(a + b, c);
}

/// Observability bundle of one transform call.
#[derive(Debug, Clone, PartialEq)]
pub struct Diagnostics {
    pub dropped_fields: Vec<String>,
    pub coercions: Vec<String>,
    pub mapping_trace: Vec<String>,
    pub provider_reasons: ProviderMap<ProviderReason>,
    pub attempted_providers: Vec<ProviderId>,
}

impl Diagnostics {
    /// Diagnostics with every list and the reason table empty.
    pub open spec fn is_empty(&self) -> bool {
        &&& self.dropped_fields@.len() == 0
        &&& self.coercions@.len() == 0
        &&& self.mapping_trace@.len() == 0
        &&& self.provider_reasons@ == Map::<ProviderId, ProviderReason>::empty()
        &&& self.attempted_providers@.len() == 0
    }

    /// Empty diagnostics that start from the given reason table.
    pub fn with_reasons(provider_reasons: ProviderMap<ProviderReason>) -> (r: Self)
        ensures
            r.dropped_fields@.len() == 0,
            r.coercions@.len() == 0,
            r.mapping_trace@.len() == 0,
            r.provider_reasons == provider_reasons,
            r.attempted_providers@.len() == 0,
    {
        Diagnostics {
            dropped_fields: Vec::new(),
            coercions: Vec::new(),
            mapping_trace: Vec::new(),
            provider_reasons,
            attempted_providers: Vec::new(),
        }
    }
}

impl Default for Diagnostics {
    fn default() -> (r: Self)
        ensures
            r.is_empty(),
    {
        Diagnostics::with_reasons(ProviderMap::new())
    }
}

/// Outcome of one transform call.
#[derive(Debug, Clone, PartialEq)]
pub struct TransformResult {
    pub ok: bool,
    pub selected_provider: Option<ProviderId>,
    pub provider_payload: Option<ProviderPayload>,
    pub fallback_candidates: Vec<ProviderId>,
    pub warnings: Vec<Warning>,
    pub diagnostics: Diagnostics,
    pub error: Option<OmniError>,
}

impl TransformResult {
    pub fn success(
        selected_provider: ProviderId,
        provider_payload: ProviderPayload,
        fallback_candidates: Vec<ProviderId>,
        warnings: Vec<Warning>,
        diagnostics: Diagnostics,
    ) -> (r: Self)
        ensures
            r == (TransformResult {
                ok: true,
                selected_provider: Some(selected_provider),
                provider_payload: Some(provider_payload),
                fallback_candidates,
                warnings,
                diagnostics,
                error: None,
            }),
    {
        TransformResult {
            ok: true,
            selected_provider: Some(selected_provider),
            provider_payload: Some(provider_payload),
            fallback_candidates,
            warnings,
            diagnostics,
            error: None,
        }
    }

    pub fn failure(
        error: OmniError,
        fallback_candidates: Vec<ProviderId>,
        warnings: Vec<Warning>,
        diagnostics: Diagnostics,
    ) -> (r: Self)
        ensures
            r == (TransformResult {
                ok: false,
                selected_provider: None,
                provider_payload: None,
                fallback_candidates,
                warnings,
                diagnostics,
                error: Some(error),
            }),
    {
        TransformResult {
            ok: false,
            selected_provider: None,
            provider_payload: None,
            fallback_candidates,
            warnings,
            diagnostics,
            error: Some(error),
        }
    }
}

} // verus!
