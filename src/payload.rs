//! Native request shapes of the supported providers, and how each is
//! derived from a canonical request.
use vstd::prelude::*;

use crate::canonical::{ChatMessage, ChatRequest, ContentPart, MessageRole, ResponseFormatType,
    ToolChoice};

verus! {

/// OpenAI-style chat message: the role keeps its canonical name and the
/// content parts pass through as typed blocks.
#[derive(Debug, Clone, PartialEq)]
pub struct OpenAiMessage {
    pub role: &'static str,
    pub content: Vec<ContentPart>,
}

/// OpenAI-style structured-output block (its type is always `json_schema`).
#[derive(Debug, Clone, PartialEq)]
pub struct OpenAiResponseFormat {
    pub json_schema: Option<serde_json::Value>,
}

#[derive(Debug, Clone, PartialEq)]
pub struct OpenAiPayload {
    pub model: String,
    pub messages: Vec<OpenAiMessage>,
    pub temperature_milli: i32,
    pub top_p_milli: i32,
    pub max_tokens: u32,
    pub stream: bool,
    pub response_format: Option<OpenAiResponseFormat>,
}

/// Gemini-style content part; an image becomes a file reference.
#[derive(Debug, Clone, PartialEq)]
pub enum GeminiPart {
    Text { text: String },
    FileData { mime_type: &'static str, file_uri: String },
}

#[derive(Debug, Clone, PartialEq)]
pub struct GeminiContent {
    pub role: &'static str,
    pub parts: Vec<GeminiPart>,
}

#[derive(Debug, Clone, PartialEq)]
pub struct GeminiGenerationConfig {
    pub temperature_milli: i32,
    pub top_p_milli: i32,
    pub max_output_tokens: u32,
}

#[derive(Debug, Clone, PartialEq)]
pub struct GeminiPayload {
    pub model: String,
    pub contents: Vec<GeminiContent>,
    pub generation_config: GeminiGenerationConfig,
}

/// Ollama-style message: the content is flattened to one text.
#[derive(Debug, Clone, PartialEq)]
pub struct OllamaMessage {
    pub role: &'static str,
    pub content: String,
}

#[derive(Debug, Clone, PartialEq)]
pub struct OllamaOptions {
    pub temperature_milli: i32,
    pub top_p_milli: i32,
    pub num_predict: u32,
}

#[derive(Debug, Clone, PartialEq)]
pub struct OllamaPayload {
    pub model: String,
    pub messages: Vec<OllamaMessage>,
    pub stream: bool,
    pub options: OllamaOptions,
    /// The name of a named tool choice, passed through verbatim.
    pub tool_choice: Option<String>,
}

/// A payload in the native shape of one provider.
#[derive(Debug, Clone, PartialEq)]
pub enum ProviderPayload {
    OpenAi(OpenAiPayload),
    Gemini(GeminiPayload),
    Ollama(OllamaPayload),
}

/// The wire name of a role.
pub open spec fn role_name(role: MessageRole) -> &'static str {
    match role {
        MessageRole::System => "system",
        MessageRole::User => "user",
        MessageRole::Assistant => "assistant",
        MessageRole::Tool => "tool",
    }
}

/// The Gemini role: the assistant speaks as `model`, everyone else as `user`.
pub open spec fn gemini_role(role: MessageRole) -> &'static str {
    if role == MessageRole::Assistant {
        "model"
    } else {
        "user"
    }
}

/// The mime type given to every Gemini file reference.
pub open spec fn generic_image_mime() -> &'static str {
    "image/*"
}

/// Whether the request asks for structured JSON-schema output.
pub open spec fn requests_json_schema(req: ChatRequest) -> bool {
    req.response_format matches Some(f) && f.format_type == ResponseFormatType::JsonSchema
}

/// Whether some message of the request holds an image part.
pub open spec fn has_image(req: ChatRequest) -> bool {
    exists|i: int, j: int|
        0 <= i < req.messages@.len() && 0 <= j < req.messages@[i].content@.len()
            && #[trigger] req.messages@[i].content@[j] is ImageUrl
}

pub open spec fn openai_message_of(p: OpenAiMessage, m: ChatMessage) -> bool {
    p.role == role_name(m.role) && p.content@ == m.content@
}

/// `p` is the OpenAI payload of `req`.
pub open spec fn is_openai_payload(p: OpenAiPayload, req: ChatRequest) -> bool {
    &&& p.model == req.model
    &&& p.messages@.len() == req.messages@.len()
    &&& forall|i: int|
        0 <= i < req.messages@.len() ==> openai_message_of(#[trigger] p.messages@[i], req.messages@[i])
    &&& p.temperature_milli == req.generation.temperature_milli
    &&& p.top_p_milli == req.generation.top_p_milli
    &&& p.max_tokens == req.generation.max_tokens
    &&& p.stream == req.stream
    &&& p.response_format == (if requests_json_schema(req) {
        Some(OpenAiResponseFormat { json_schema: req.response_format->Some_0.json_schema })
    } else {
        None
    })
}

pub open spec fn gemini_part_of(g: GeminiPart, c: ContentPart) -> bool {
    match c {
        ContentPart::Text { text } => g == GeminiPart::Text { text },
        ContentPart::ImageUrl { url } => g == GeminiPart::FileData {
            mime_type: generic_image_mime(),
            file_uri: url,
        },
    }
}

pub open spec fn gemini_content_of(g: GeminiContent, m: ChatMessage) -> bool {
    &&& g.role == gemini_role(m.role)
    &&& g.parts@.len() == m.content@.len()
    &&& forall|j: int|
        0 <= j < m.content@.len() ==> gemini_part_of(#[trigger] g.parts@[j], m.content@[j])
}

/// `p` is the Gemini payload of `req`.
pub open spec fn is_gemini_payload(p: GeminiPayload, req: ChatRequest) -> bool {
    &&& p.model == req.model
    &&& p.contents@.len() == req.messages@.len()
    &&& forall|i: int|
        0 <= i < req.messages@.len() ==> gemini_content_of(#[trigger] p.contents@[i], req.messages@[i])
    &&& p.generation_config == GeminiGenerationConfig {
        temperature_milli: req.generation.temperature_milli,
        top_p_milli: req.generation.top_p_milli,
        max_output_tokens: req.generation.max_tokens,
    }
}

pub open spec fn text_of(c: ContentPart) -> Seq<char> {
    match c {
        ContentPart::Text { text } => text@,
        ContentPart::ImageUrl { .. } => seq![],
    }
}

/// The texts of the first `n` parts joined with newlines.
pub open spec fn joined_text(parts: Seq<ContentPart>, n: int) -> Seq<char>
    decreases n,
{
    if n <= 0 {
        seq![]
    } else if n == 1 {
        text_of(parts[0])
    } else {
        joined_text(parts, n - 1) + seq!['\n'] + text_of(parts[n - 1])
    }
}

pub open spec fn all_text(parts: Seq<ContentPart>) -> bool {
    forall|j: int| 0 <= j < parts.len() ==> #[trigger] parts[j] is Text
}

pub open spec fn ollama_message_of(o: OllamaMessage, m: ChatMessage) -> bool {
    o.role == role_name(m.role) && o.content@ == joined_text(m.content@, m.content@.len() as int)
}

/// `p` is the Ollama payload of a request that holds no image part.
pub open spec fn is_ollama_payload(p: OllamaPayload, req: ChatRequest) -> bool {
    &&& p.model == req.model
    &&& p.messages@.len() == req.messages@.len()
    &&& forall|i: int|
        0 <= i < req.messages@.len() ==> ollama_message_of(#[trigger] p.messages@[i], req.messages@[i])
    &&& p.stream == req.stream
    &&& p.options == OllamaOptions {
        temperature_milli: req.generation.temperature_milli,
        top_p_milli: req.generation.top_p_milli,
        num_predict: req.generation.max_tokens,
    }
    &&& p.tool_choice == (match req.tool_choice {
        Some(ToolChoice::Named { name }) => Some(name),
        _ => None,
    })
}

} // verus!
