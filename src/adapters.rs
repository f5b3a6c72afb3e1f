//! Provider adapters: what each provider can express, how its payload is
//! built, and the registry that finds an adapter by identity.
use vstd::prelude::*;

use crate::canonical::{ChatMessage, ChatRequest, ContentPart, MessageRole, ResponseFormatType,
    ToolChoice};
use crate::payload::{GeminiContent, GeminiGenerationConfig, GeminiPart, OllamaMessage, OllamaOptions,
    OllamaPayload, OpenAiMessage, OpenAiPayload, GeminiPayload, OpenAiResponseFormat, ProviderPayload, all_text,
    gemini_content_of, gemini_part_of, has_image, is_gemini_payload, is_ollama_payload,
    is_openai_payload, joined_text, ollama_message_of, openai_message_of, requests_json_schema,
    role_name};
use crate::types::{AdapterVersion, Capability, ErrorCode, ErrorDetails, Feature, OmniError,
    ProviderId, ProviderReason, ReasonClass, ReasonCode, ReasonDetail, default_version_text};

verus! {

/// Identity of an adapter: provider, capability and adapter version.
#[derive(Debug, Clone, PartialEq, Eq, Hash)]
pub struct AdapterKey {
    pub provider_id: ProviderId,
    pub capability: Capability,
    pub adapter_version: AdapterVersion,
}

impl AdapterKey {
    pub open spec fn view(&self) -> (ProviderId, Capability, Seq<char>) {
        (self.provider_id, self.capability, self.adapter_version.0@)
    }
}

/// Whether an adapter can express a request, and if not, why.
#[derive(Debug, Clone, PartialEq)]
pub struct SupportReport {
    pub supported: bool,
    pub reason: Option<ProviderReason>,
}

impl SupportReport {
    pub fn supported() -> (r: Self)
        ensures
            r == (SupportReport { supported: true, reason: None }),
    {
        SupportReport { supported: true, reason: None }
    }

    pub fn unsupported(reason: ProviderReason) -> (r: Self)
        ensures
            r == (SupportReport { supported: false, reason: Some(reason) }),
    {
        SupportReport { supported: false, reason: Some(reason) }
    }
}

/// The reason an adapter gives for a feature it cannot express.
pub open spec fn incompatible(code: ReasonCode, feature: Feature) -> ProviderReason {
    ProviderReason {
        class: ReasonClass::Incompatible,
        code,
        retryable: false,
        detail: ReasonDetail::Unsupported { feature },
    }
}

pub open spec fn supported_report() -> SupportReport {
    SupportReport { supported: true, reason: None }
}

pub open spec fn unsupported_report(code: ReasonCode, feature: Feature) -> SupportReport {
    SupportReport { supported: false, reason: Some(incompatible(code, feature)) }
}

pub open spec fn gemini_support(req: ChatRequest) -> SupportReport {
    if requests_json_schema(req) {
        unsupported_report(ReasonCode::UnsupportedResponseFormat, Feature::JsonSchemaResponseFormat)
    } else {
        supported_report()
    }
}

pub open spec fn ollama_support(req: ChatRequest) -> SupportReport {
    if req.tools@.len() > 0 {
        unsupported_report(ReasonCode::UnsupportedToolCalling, Feature::Tools)
    } else if requests_json_schema(req) {
        unsupported_report(ReasonCode::UnsupportedResponseFormat, Feature::JsonSchemaResponseFormat)
    } else if has_image(req) {
        unsupported_report(ReasonCode::UnsupportedMultimodalContent, Feature::ImageUrl)
    } else {
        supported_report()
    }
}

/// The error of the Ollama builder when an image part reaches it.
pub open spec fn flatten_failure() -> OmniError {
    OmniError {
        code: ErrorCode::ProviderPayloadBuildFailed,
        message: "Ollama text-only payload build failed",
        details: ErrorDetails::ImageNotFlattenable,
        retryable: true,
    }
}

/// The common interface of provider adapters.
pub trait ProviderAdapter {
    fn provider_id(&self) -> ProviderId;

    fn capability(&self) -> Capability;

    fn adapter_version(&self) -> AdapterVersion;

    /// A side-effect-free check of whether the provider can express the
    /// request's features.
    fn supports(&self, request: &ChatRequest) -> SupportReport;

    /// Maps the request into the provider's native shape.
    fn build_payload(&self, request: &ChatRequest) -> Result<ProviderPayload, OmniError>;
}

#[derive(Debug, Clone, Copy, Default, PartialEq, Eq)]
pub struct OpenAiChatAdapter;

#[derive(Debug, Clone, Copy, Default, PartialEq, Eq)]
pub struct GeminiChatAdapter;

#[derive(Debug, Clone, Copy, Default, PartialEq, Eq)]
pub struct OllamaChatAdapter;

fn default_version() -> (r: AdapterVersion)
    ensures
        r.0@ == default_version_text(),
{
    AdapterVersion::default()
}

/// The wire name of a role.
pub fn map_role(role: MessageRole) -> (r: &'static str)
    ensures
        r == role_name(role),
{
    match role {
        MessageRole::System => "system",
        MessageRole::User => "user",
        MessageRole::Assistant => "assistant",
        MessageRole::Tool => "tool",
    }
}

fn copy_part(part: &ContentPart) -> (r: ContentPart)
    ensures
        r == *part,
{
    match part {
        ContentPart::Text { text } => ContentPart::Text { text: text.clone() },
        ContentPart::ImageUrl { url } => ContentPart::ImageUrl { url: url.clone() },
    }
}

fn map_openai_message(message: &ChatMessage) -> (r: OpenAiMessage)
    ensures
        openai_message_of(r, *message),
{
    let mut content: Vec<ContentPart> = Vec::new();
    let mut j: usize = 0;
    while j < message.content.len()
        invariant
            0 <= j <= message.content@.len(),
            content@ == message.content@.take(j as int),
        decreases message.content@.len() - j,
    {
        content.push(copy_part(&message.content[j]));
        proof {
            assert(content@ =~= message.content@.take(j + 1));
        }
        j = j + 1;
    }
    proof {
        assert(message.content@.take(j as int) =~= message.content@);
    }
    OpenAiMessage { role: map_role(message.role), content }
}

fn map_gemini_part(part: &ContentPart) -> (r: GeminiPart)
    ensures
        gemini_part_of(r, *part),
{
    match part {
        ContentPart::Text { text } => GeminiPart::Text { text: text.clone() },
        ContentPart::ImageUrl { url } => GeminiPart::FileData {
            mime_type: "image/*",
            file_uri: url.clone(),
        },
    }
}

fn map_gemini_content(message: &ChatMessage) -> (r: GeminiContent)
    ensures
        gemini_content_of(r, *message),
{
    let role = match message.role {
        MessageRole::Assistant => "model",
        _ => "user",
    };
    let mut parts: Vec<GeminiPart> = Vec::new();
    let mut j: usize = 0;
    while j < message.content.len()
        invariant
            0 <= j <= message.content@.len(),
            parts@.len() == j,
            forall|k: int| 0 <= k < j ==> gemini_part_of(#[trigger] parts@[k], message.content@[k]),
        decreases message.content@.len() - j,
    {
        parts.push(map_gemini_part(&message.content[j]));
        j = j + 1;
    }
    GeminiContent { role, parts }
}

/// Joins the texts of the parts with newlines; fails on an image part.
fn flatten_text_content(parts: &Vec<ContentPart>) -> (r: Result<String, OmniError>)
    ensures
        r is Err <==> !all_text(parts@),
        r matches Err(e) ==> e == flatten_failure(),
        r matches Ok(s) ==> s@ == joined_text(parts@, parts@.len() as int),
{
    let mut text = String::new();
    let mut j: usize = 0;
    while j < parts.len()
        invariant
            0 <= j <= parts@.len(),
            all_text(parts@.take(j as int)),
            text@ == joined_text(parts@, j as int),
        decreases parts@.len() - j,
    {
        match &parts[j] {
            ContentPart::Text { text: t } => {
                if j > 0 {
                    proof {
                        reveal_strlit("\n");
                    }
                    text.append("\n");
                }
                text.append(t.as_str());
            },
            ContentPart::ImageUrl { .. } => {
                proof {
                    assert(!(parts@[j as int] is Text));
                }
                return Err(
                    OmniError::new(
                        ErrorCode::ProviderPayloadBuildFailed,
                        "Ollama text-only payload build failed",
                        ErrorDetails::ImageNotFlattenable,
                        true,
                    ),
                );
            },
        }
        proof {
            assert forall|k: int| 0 <= k < j + 1 implies #[trigger] parts@.take(j + 1)[k] is Text by {
                if k < j {
                    assert(parts@.take(j as int)[k] == parts@.take(j + 1)[k]);
                }
            }
        }
        j = j + 1;
    }
    proof {
        assert(parts@.take(j as int) =~= parts@);
    }
    Ok(text)
}

fn map_ollama_message(message: &ChatMessage) -> (r: Result<OllamaMessage, OmniError>)
    ensures
        r is Err <==> !all_text(message.content@),
        r matches Err(e) ==> e == flatten_failure(),
        r matches Ok(o) ==> ollama_message_of(o, *message),
{
    let content = flatten_text_content(&message.content)?;
    Ok(OllamaMessage { role: map_role(message.role), content })
}

fn copy_schema(v: &Option<serde_json::Value>) -> (r: Option<serde_json::Value>)
    ensures
        r == *v,
{
    match v {
        Some(s) => Some(s.clone()),
        None => None,
    }
}

fn asks_json_schema(request: &ChatRequest) -> (r: bool)
    ensures
        r == requests_json_schema(*request),
{
    match &request.response_format {
        Some(f) => f.format_type == ResponseFormatType::JsonSchema,
        None => false,
    }
}

fn holds_image(request: &ChatRequest) -> (r: bool)
    ensures
        r == has_image(*request),
{
    let mut i: usize = 0;
    while i < request.messages.len()
        invariant
            0 <= i <= request.messages@.len(),
            forall|a: int, b: int|
                0 <= a < i && 0 <= b < request.messages@[a].content@.len() ==> !(
                #[trigger] request.messages@[a].content@[b] is ImageUrl),
        decreases request.messages@.len() - i,
    {
        let content = &request.messages[i].content;
        let mut j: usize = 0;
        while j < content.len()
            invariant
                0 <= i < request.messages@.len(),
                *content == request.messages@[i as int].content,
                0 <= j <= content@.len(),
                forall|a: int, b: int|
                    0 <= a < i && 0 <= b < request.messages@[a].content@.len() ==> !(
                    #[trigger] request.messages@[a].content@[b] is ImageUrl),
                forall|b: int| 0 <= b < j ==> !(#[trigger] content@[b] is ImageUrl),
            decreases content@.len() - j,
        {
            if let ContentPart::ImageUrl { .. } = &content[j] {
                return true;
            }
            j = j + 1;
        }
        i = i + 1;
    }
    false
}

impl ProviderAdapter for OpenAiChatAdapter {
    fn provider_id(&self) -> (r: ProviderId)
        ensures
            r == ProviderId::OpenAi,
    {
        ProviderId::OpenAi
    }

    fn capability(&self) -> (r: Capability)
        ensures
            r == Capability::Chat,
    {
        Capability::Chat
    }

    fn adapter_version(&self) -> (r: AdapterVersion)
        ensures
            r.0@ == default_version_text(),
    {
        default_version()
    }

    fn supports(&self, request: &ChatRequest) -> (r: SupportReport)
        ensures
            r == supported_report(),
    {
        SupportReport::supported()
    }

    fn build_payload(&self, request: &ChatRequest) -> (r: Result<ProviderPayload, OmniError>)
        ensures
            r matches Ok(ProviderPayload::OpenAi(p)) && is_openai_payload(p, *request),
    {
        let mut messages: Vec<OpenAiMessage> = Vec::new();
        let mut i: usize = 0;
        while i < request.messages.len()
            invariant
                0 <= i <= request.messages@.len(),
                messages@.len() == i,
                forall|k: int|
                    0 <= k < i ==> openai_message_of(#[trigger] messages@[k], request.messages@[k]),
            decreases request.messages@.len() - i,
        {
            messages.push(map_openai_message(&request.messages[i]));
            i = i + 1;
        }
        let response_format = if asks_json_schema(request) {
            match &request.response_format {
                Some(f) => Some(OpenAiResponseFormat { json_schema: copy_schema(&f.json_schema) }),
                None => None,
            }
        } else {
            None
        };
        Ok(
            ProviderPayload::OpenAi(
                OpenAiPayload {
                    model: request.model.clone(),
                    messages,
                    temperature_milli: request.generation.temperature_milli,
                    top_p_milli: request.generation.top_p_milli,
                    max_tokens: request.generation.max_tokens,
                    stream: request.stream,
                    response_format,
                },
            ),
        )
    }
}

impl ProviderAdapter for GeminiChatAdapter {
    fn provider_id(&self) -> (r: ProviderId)
        ensures
            r == ProviderId::Gemini,
    {
        ProviderId::Gemini
    }

    fn capability(&self) -> (r: Capability)
        ensures
            r == Capability::Chat,
    {
        Capability::Chat
    }

    fn adapter_version(&self) -> (r: AdapterVersion)
        ensures
            r.0@ == default_version_text(),
    {
        default_version()
    }

    fn supports(&self, request: &ChatRequest) -> (r: SupportReport)
        ensures
            r == gemini_support(*request),
    {
        if asks_json_schema(request) {
            return SupportReport::unsupported(
                ProviderReason {
                    class: ReasonClass::Incompatible,
                    code: ReasonCode::UnsupportedResponseFormat,
                    retryable: false,
                    detail: ReasonDetail::Unsupported { feature: Feature::JsonSchemaResponseFormat },
                },
            );
        }
        SupportReport::supported()
    }

    fn build_payload(&self, request: &ChatRequest) -> (r: Result<ProviderPayload, OmniError>)
        ensures
            r matches Ok(ProviderPayload::Gemini(p)) && is_gemini_payload(p, *request),
    {
        let mut contents: Vec<GeminiContent> = Vec::new();
        let mut i: usize = 0;
        while i < request.messages.len()
            invariant
                0 <= i <= request.messages@.len(),
                contents@.len() == i,
                forall|k: int|
                    0 <= k < i ==> gemini_content_of(#[trigger] contents@[k], request.messages@[k]),
            decreases request.messages@.len() - i,
        {
            contents.push(map_gemini_content(&request.messages[i]));
            i = i + 1;
        }
        Ok(
            ProviderPayload::Gemini(
                GeminiPayload {
                    model: request.model.clone(),
                    contents,
                    generation_config: GeminiGenerationConfig {
                        temperature_milli: request.generation.temperature_milli,
                        top_p_milli: request.generation.top_p_milli,
                        max_output_tokens: request.generation.max_tokens,
                    },
                },
            ),
        )
    }
}

impl ProviderAdapter for OllamaChatAdapter {
    fn provider_id(&self) -> (r: ProviderId)
        ensures
            r == ProviderId::Ollama,
    {
        ProviderId::Ollama
    }

    fn capability(&self) -> (r: Capability)
        ensures
            r == Capability::Chat,
    {
        Capability::Chat
    }

    fn adapter_version(&self) -> (r: AdapterVersion)
        ensures
            r.0@ == default_version_text(),
    {
        default_version()
    }

    fn supports(&self, request: &ChatRequest) -> (r: SupportReport)
        ensures
            r == ollama_support(*request),
    {
        if request.tools.len() > 0 {
            return SupportReport::unsupported(
                ProviderReason {
                    class: ReasonClass::Incompatible,
                    code: ReasonCode::UnsupportedToolCalling,
                    retryable: false,
                    detail: ReasonDetail::Unsupported { feature: Feature::Tools },
                },
            );
        }
        if asks_json_schema(request) {
            return SupportReport::unsupported(
                ProviderReason {
                    class: ReasonClass::Incompatible,
                    code: ReasonCode::UnsupportedResponseFormat,
                    retryable: false,
                    detail: ReasonDetail::Unsupported { feature: Feature::JsonSchemaResponseFormat },
                },
            );
        }
        if holds_image(request) {
            return SupportReport::unsupported(
                ProviderReason {
                    class: ReasonClass::Incompatible,
                    code: ReasonCode::UnsupportedMultimodalContent,
                    retryable: false,
                    detail: ReasonDetail::Unsupported { feature: Feature::ImageUrl },
                },
            );
        }
        SupportReport::supported()
    }

    fn build_payload(&self, request: &ChatRequest) -> (r: Result<ProviderPayload, OmniError>)
        ensures
            r is Err <==> has_image(*request),
            r matches Err(e) ==> e == flatten_failure(),
            r matches Ok(p) ==> (p matches ProviderPayload::Ollama(o) && is_ollama_payload(o, *request)),
    {
        let mut messages: Vec<OllamaMessage> = Vec::new();
        let mut i: usize = 0;
        while i < request.messages.len()
            invariant
                0 <= i <= request.messages@.len(),
                messages@.len() == i,
                forall|k: int|
                    0 <= k < i ==> ollama_message_of(#[trigger] messages@[k], request.messages@[k]),
                forall|a: int, b: int|
                    0 <= a < i && 0 <= b < request.messages@[a].content@.len() ==> !(
                    #[trigger] request.messages@[a].content@[b] is ImageUrl),
            decreases request.messages@.len() - i,
        {
            match map_ollama_message(&request.messages[i]) {
                Ok(m) => messages.push(m),
                Err(e) => {
                    proof {
                        let b = choose|b: int|
                            0 <= b < request.messages@[i as int].content@.len() && !(
                            #[trigger] request.messages@[i as int].content@[b] is Text);
                        assert(request.messages@[i as int].content@[b] is ImageUrl);
                    }
                    return Err(e);
                },
            }
            proof {
                assert(all_text(request.messages@[i as int].content@));
                assert forall|a: int, b: int|
                    0 <= a < i + 1 && 0 <= b < request.messages@[a].content@.len() implies !(
                    #[trigger] request.messages@[a].content@[b] is ImageUrl) by {
                    if a == i {
                        assert(request.messages@[a].content@[b] is Text);
                    }
                }
            }
            i = i + 1;
        }
        let tool_choice = match &request.tool_choice {
            Some(ToolChoice::Named { name }) => Some(name.clone()),
            _ => None,
        };
        Ok(
            ProviderPayload::Ollama(
                OllamaPayload {
                    model: request.model.clone(),
                    messages,
                    stream: request.stream,
                    options: OllamaOptions {
                        temperature_milli: request.generation.temperature_milli,
                        top_p_milli: request.generation.top_p_milli,
                        num_predict: request.generation.max_tokens,
                    },
                    tool_choice,
                },
            ),
        )
    }
}

/// One registered adapter, whichever provider it serves.
#[derive(Debug, Clone, Copy, PartialEq, Eq)]
pub enum Adapter {
    OpenAi(OpenAiChatAdapter),
    Gemini(GeminiChatAdapter),
    Ollama(OllamaChatAdapter),
}

impl Adapter {
    /// The built-in adapter of a provider.
    pub open spec fn builtin(p: ProviderId) -> Adapter {
        match p {
            ProviderId::OpenAi => Adapter::OpenAi(OpenAiChatAdapter),
            ProviderId::Gemini => Adapter::Gemini(GeminiChatAdapter),
            ProviderId::Ollama => Adapter::Ollama(OllamaChatAdapter),
        }
    }

    pub open spec fn serves(self) -> ProviderId {
        match self {
            Adapter::OpenAi(_) => ProviderId::OpenAi,
            Adapter::Gemini(_) => ProviderId::Gemini,
            Adapter::Ollama(_) => ProviderId::Ollama,
        }
    }

    /// What `supports` reports for a request.
    pub open spec fn support(self, req: ChatRequest) -> SupportReport {
        match self {
            Adapter::OpenAi(_) => supported_report(),
            Adapter::Gemini(_) => gemini_support(req),
            Adapter::Ollama(_) => ollama_support(req),
        }
    }

    /// Whether `build_payload` fails on a request.
    pub open spec fn build_fails(self, req: ChatRequest) -> bool {
        self is Ollama && has_image(req)
    }

    /// `p` is the payload that `build_payload` gives for a request on which it
    /// does not fail.
    pub open spec fn is_payload(self, req: ChatRequest, p: ProviderPayload) -> bool {
        match self {
            Adapter::OpenAi(_) => p matches ProviderPayload::OpenAi(o) && is_openai_payload(o, req),
            Adapter::Gemini(_) => p matches ProviderPayload::Gemini(g) && is_gemini_payload(g, req),
            Adapter::Ollama(_) => p matches ProviderPayload::Ollama(o) && is_ollama_payload(o, req),
        }
    }
}

impl ProviderAdapter for Adapter {
    fn provider_id(&self) -> (r: ProviderId)
        ensures
            r == self.serves(),
    {
        match self {
            Adapter::OpenAi(a) => a.provider_id(),
            Adapter::Gemini(a) => a.provider_id(),
            Adapter::Ollama(a) => a.provider_id(),
        }
    }

    fn capability(&self) -> (r: Capability)
        ensures
            r == Capability::Chat,
    {
        match self {
            Adapter::OpenAi(a) => a.capability(),
            Adapter::Gemini(a) => a.capability(),
            Adapter::Ollama(a) => a.capability(),
        }
    }

    fn adapter_version(&self) -> (r: AdapterVersion)
        ensures
            r.0@ == default_version_text(),
    {
        match self {
            Adapter::OpenAi(a) => a.adapter_version(),
            Adapter::Gemini(a) => a.adapter_version(),
            Adapter::Ollama(a) => a.adapter_version(),
        }
    }

    fn supports(&self, request: &ChatRequest) -> (r: SupportReport)
        ensures
            r == self.support(*request),
    {
        match self {
            Adapter::OpenAi(a) => a.supports(request),
            Adapter::Gemini(a) => a.supports(request),
            Adapter::Ollama(a) => a.supports(request),
        }
    }

    fn build_payload(&self, request: &ChatRequest) -> (r: Result<ProviderPayload, OmniError>)
        ensures
            r is Err <==> self.build_fails(*request),
            r matches Err(e) ==> e == flatten_failure(),
            r matches Ok(p) ==> self.is_payload(*request, p),
    {
        match self {
            Adapter::OpenAi(a) => a.build_payload(request),
            Adapter::Gemini(a) => a.build_payload(request),
            Adapter::Ollama(a) => a.build_payload(request),
        }
    }
}

/// Calling `supports` twice with the same request gives the same report:
/// the report depends on the adapter and the request alone.
pub proof fn lemma_supports_idempotent(
    adapter: Adapter,
    request: ChatRequest,
    first: SupportReport,
    second: SupportReport,
)
    requires
        first == adapter.support(request),
        second == adapter.support(request),
    ensures
        first == second,
{
}

/// The adapter that the last registration under `k` among `entries` left.
pub open spec fn last_registered(entries: Seq<(AdapterKey, Adapter)>, k: (ProviderId, Capability, Seq<char>)) -> Option<Adapter>
    decreases entries.len(),
{
    if entries.len() == 0 {
        None
    } else if entries.last().0@ == k {
        Some(entries.last().1)
    } else {
        last_registered(entries.drop_last(), k)
    }
}

/// Lookup table from adapter identity to adapter. A later registration under
/// the same identity replaces the earlier one.
pub struct AdapterRegistry {
    entries: Vec<(AdapterKey, Adapter)>,
}

impl AdapterRegistry {
    /// The registered adapters by identity.
    pub closed spec fn view(&self) -> Map<(ProviderId, Capability, Seq<char>), Adapter> {
        Map::new(
            |k: (ProviderId, Capability, Seq<char>)| last_registered(self.entries@, k) is Some,
            |k: (ProviderId, Capability, Seq<char>)| last_registered(self.entries@, k)->Some_0,
        )
    }

    pub fn new() -> (r: Self)
        ensures
            r@ == Map::<(ProviderId, Capability, Seq<char>), Adapter>::empty(),
    {
        let r = AdapterRegistry { entries: Vec::new() };
        assert(r@ =~= Map::<(ProviderId, Capability, Seq<char>), Adapter>::empty());
        r
    }

    /// Registers an adapter under its own identity.
    pub fn register(&mut self, adapter: Adapter)
        ensures
            final(self)@ == old(self)@.insert(
                (adapter.serves(), Capability::Chat, default_version_text()),
                adapter,
            ),
    {
        let key = AdapterKey {
            provider_id: adapter.provider_id(),
            capability: adapter.capability(),
            adapter_version: adapter.adapter_version(),
        };
        let ghost before = self.entries@;
        self.entries.push((key, adapter));
        proof {
            assert(self.entries@.drop_last() =~= before);
            assert(self@ =~= old(self)@.insert(
                (adapter.serves(), Capability::Chat, default_version_text()),
                adapter,
            ));
        }
    }

    /// The adapter registered under `key`, if any.
    pub fn get(&self, key: &AdapterKey) -> (r: Option<Adapter>)
        ensures
            r == (if self@.contains_key(key@) {
                Some(self@[key@])
            } else {
                None
            }),
    {
        let mut i: usize = self.entries.len();
        proof {
            assert(self.entries@.take(i as int) =~= self.entries@);
        }
        while i > 0
            invariant
                0 <= i <= self.entries@.len(),
                last_registered(self.entries@, key@) == last_registered(
                    self.entries@.take(i as int),
                    key@,
                ),
            decreases i,
        {
            let entry = &self.entries[i - 1];
            let ghost t = self.entries@.take(i as int);
            proof {
                assert(t.last() == *entry);
                assert(t.drop_last() =~= self.entries@.take(i - 1));
            }
            if entry.0.provider_id == key.provider_id && entry.0.capability == key.capability
                && entry.0.adapter_version.0 == key.adapter_version.0 {
                return Some(entry.1);
            }
            i = i - 1;
        }
        None
    }
}

} // verus!
