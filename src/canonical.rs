//! The provider-agnostic request shape and its validation.
use vstd::prelude::*;

use crate::types::{Capability, ErrorCode, ErrorDetails, OmniError, ProviderId, ProviderMap};

verus! {

/// A JSON document that the gateway carries through without reading it.
#[verifier::external_type_specification]
#[verifier::external_body]
pub struct ExValue(serde_json::Value);

/// Relies on the derived `Clone` of `serde_json::Value`: a deep copy.
pub assume_specification[ <serde_json::Value as Clone>::clone ](v: &serde_json::Value) -> (r:
    serde_json::Value)
    ensures
        r == *v,
;

/// A text without its leading and trailing whitespace.
pub uninterp spec fn trim_of(s: Seq<char>) -> Seq<char>;

/// Relies on `str::trim`: the text without leading and trailing Unicode
/// whitespace, a function of the text alone. An empty text stays empty.
#[verifier::external_body]
fn trim(s: &str) -> (r: &str)
    ensures
        r@ == trim_of(s@),
        s@.len() == 0 ==> r@.len() == 0,
{
    s.trim()
}

/// Whether a text holds nothing but whitespace.
pub open spec fn blank_text(s: Seq<char>) -> bool {
    trim_of(s).len() == 0
}

fn is_blank(s: &str) -> (r: bool)
    ensures
        r == blank_text(s@),
{
    trim(s).is_empty()
}

/// A provider-agnostic chat request with routing preferences.
#[derive(Debug, Clone, PartialEq)]
pub struct CanonicalEnvelope {
    pub capability: Capability,
    pub provider: ProviderSelection,
    pub request: ChatRequest,
    /// Passed through, never interpreted.
    pub metadata: serde_json::Value,
}

/// Ordered provider preferences plus the host's availability snapshot; a
/// provider without a snapshot entry counts as available.
#[derive(Debug, Clone, PartialEq)]
pub struct ProviderSelection {
    pub preferred: Vec<ProviderId>,
    pub availability: ProviderMap<ProviderAvailability>,
}

/// One entry of the host's availability snapshot.
#[derive(Debug, Clone, PartialEq)]
pub struct ProviderAvailability {
    pub available: bool,
    pub compatible: Option<bool>,
    pub reason: Option<String>,
    pub last_seen_healthy_at: Option<String>,
}

#[derive(Debug, Clone, PartialEq)]
pub struct ChatRequest {
    pub model: String,
    pub messages: Vec<ChatMessage>,
    pub tools: Vec<ToolDefinition>,
    pub tool_choice: Option<ToolChoice>,
    pub response_format: Option<ResponseFormat>,
    pub generation: GenerationConfig,
    pub stream: bool,
}

#[derive(Debug, Clone, PartialEq)]
pub struct ChatMessage {
    pub role: MessageRole,
    pub content: Vec<ContentPart>,
    pub name: Option<String>,
    pub tool_call_id: Option<String>,
}

#[derive(Debug, Clone, Copy, PartialEq, Eq, Structural)]
pub enum MessageRole {
    System,
    User,
    Assistant,
    Tool,
}

/// One part of a message's content.
#[derive(Debug, Clone, PartialEq)]
pub enum ContentPart {
    Text { text: String },
    ImageUrl { url: String },
}

#[derive(Debug, Clone, PartialEq)]
pub struct ToolDefinition {
    pub name: String,
    pub description: Option<String>,
    pub input_schema: serde_json::Value,
}

/// Either a mode or the name of one tool.
#[derive(Debug, Clone, PartialEq)]
pub enum ToolChoice {
    Mode(ToolChoiceMode),
    Named { name: String },
}

#[derive(Debug, Clone, Copy, PartialEq, Eq, Structural)]
pub enum ToolChoiceMode {
    Auto,
    /// Wire name `none`: the model may not call tools.
    Disabled,
    Required,
}

#[derive(Debug, Clone, PartialEq)]
pub struct ResponseFormat {
    pub format_type: ResponseFormatType,
    /// Required only when `format_type` is `JsonSchema`.
    pub json_schema: Option<serde_json::Value>,
}

#[derive(Debug, Clone, Copy, PartialEq, Eq, Structural)]
pub enum ResponseFormatType {
    Text,
    JsonSchema,
}

/// Sampling parameters. Temperature and top-p are held in thousandths
/// (700 stands for 0.7).
#[derive(Debug, Clone, PartialEq)]
pub struct GenerationConfig {
    pub temperature_milli: i32,
    pub top_p_milli: i32,
    pub max_tokens: u32,
    pub stop: Vec<String>,
}

impl Default for GenerationConfig {
    fn default() -> (r: Self)
        ensures
            r.temperature_milli == 700,
            r.top_p_milli == 1000,
            r.max_tokens == 1024,
            r.stop@.len() == 0,
    {
        GenerationConfig {
            temperature_milli: default_temperature(),
            top_p_milli: default_top_p(),
            max_tokens: default_max_tokens(),
            stop: Vec::new(),
        }
    }
}

/// Default temperature, in thousandths.
pub fn default_temperature() -> (r: i32)
    ensures
        r == 700,
{
    700
}

/// Default top-p, in thousandths.
pub fn default_top_p() -> (r: i32)
    ensures
        r == 1000,
{
    1000
}

pub fn default_max_tokens() -> (r: u32)
    ensures
        r == 1024,
{
    1024
}

/// One problem found in an envelope. Indices count from zero.
#[derive(Debug, Clone, Copy, PartialEq, Eq, Structural)]
pub enum Violation {
    /// `provider.preferred` is empty.
    NoPreferredProvider,
    /// `request.model` is blank.
    BlankModel,
    /// `request.messages` is empty.
    NoMessages,
    /// `request.messages[message].content` is empty.
    EmptyContent { message: usize },
    /// `request.messages[message].content[part]` is a blank text.
    BlankText { message: usize, part: usize },
    /// `request.messages[message].content[part]` is a blank image url.
    BlankUrl { message: usize, part: usize },
    /// Temperature outside [0.0, 2.0].
    TemperatureOutOfRange,
    /// Top-p outside [0.0, 1.0].
    TopPOutOfRange,
    /// `max_tokens` is zero.
    ZeroMaxTokens,
}

/// The violation, if any, of part `j` of message `i`.
pub open spec fn part_violation(i: int, j: int, part: ContentPart) -> Seq<Violation> {
    match part {
        ContentPart::Text { text } => if blank_text(text@) {
            seq![Violation::BlankText { message: i as usize, part: j as usize }]
        } else {
            seq![]
        },
        ContentPart::ImageUrl { url } => if blank_text(url@) {
            seq![Violation::BlankUrl { message: i as usize, part: j as usize }]
        } else {
            seq![]
        },
    }
}

/// The violations of the first `n` parts of message `i`, in order.
pub open spec fn parts_violations(i: int, parts: Seq<ContentPart>, n: int) -> Seq<Violation>
    decreases n,
{
    if n <= 0 {
        seq![]
    } else {
        parts_violations(i, parts, n - 1) + part_violation(i, n - 1, parts[n - 1])
    }
}

/// The violations of message `i`, in order.
pub open spec fn message_violations(i: int, m: ChatMessage) -> Seq<Violation> {
    (if m.content@.len() == 0 {
        seq![Violation::EmptyContent { message: i as usize }]
    } else {
        seq![]
    }) + parts_violations(i, m.content@, m.content@.len() as int)
}

/// The violations of the first `n` messages, in order.
pub open spec fn messages_violations(msgs: Seq<ChatMessage>, n: int) -> Seq<Violation>
    decreases n,
{
    if n <= 0 {
        seq![]
    } else {
        messages_violations(msgs, n - 1) + message_violations(n - 1, msgs[n - 1])
    }
}

/// `v` alone when `c` holds, else nothing.
pub open spec fn flag_if(c: bool, v: Violation) -> Seq<Violation> {
    if c {
        seq![v]
    } else {
        seq![]
    }
}

/// Every violation of an envelope, in the order in which they are reported.
pub open spec fn envelope_violations(e: CanonicalEnvelope) -> Seq<Violation> {
    let g = e.request.generation;
    flag_if(e.provider.preferred@.len() == 0, Violation::NoPreferredProvider) + flag_if(
        blank_text(e.request.model@),
        Violation::BlankModel,
    ) + flag_if(e.request.messages@.len() == 0, Violation::NoMessages) + messages_violations(
        e.request.messages@,
        e.request.messages@.len() as int,
    ) + flag_if(!(0 <= g.temperature_milli <= 2000), Violation::TemperatureOutOfRange) + flag_if(
        !(0 <= g.top_p_milli <= 1000),
        Violation::TopPOutOfRange,
    ) + flag_if(g.max_tokens == 0, Violation::ZeroMaxTokens)
}

pub open spec fn is_valid_envelope(e: CanonicalEnvelope) -> bool {
    envelope_violations(e).len() == 0
}

/// The message of every validation error.
pub open spec fn validation_message() -> &'static str {
    "Canonical request validation failed"
}

/// `e` is the non-retryable invalid-request error that lists `violations`.
pub open spec fn is_validation_error(e: OmniError, violations: Seq<Violation>) -> bool {
    &&& e.code == ErrorCode::InvalidCanonicalRequest
    &&& e.message == validation_message()
    &&& e.details matches ErrorDetails::Violations { violations: v } && v@ == violations
    &&& !e.retryable
}

fn push_if(violations: &mut Vec<Violation>, c: bool, v: Violation)
    ensures
        final(violations)@ == old(violations)@ + flag_if(c, v),
{
    if c {
        violations.push(v);
    }
    assert(violations@ =~= old(violations)@ + flag_if(c, v));
}

/// Checks an envelope and reports every violation in one pass.
pub fn validate_envelope(envelope: &CanonicalEnvelope) -> (r: Result<(), OmniError>)
    ensures
        r is Ok <==> is_valid_envelope(*envelope),
        r matches Err(e) ==> is_validation_error(e, envelope_violations(*envelope)),
{
    let mut violations: Vec<Violation> = Vec::new();
    let request = &envelope.request;
    push_if(&mut violations, envelope.provider.preferred.len() == 0, Violation::NoPreferredProvider);
    push_if(&mut violations, is_blank(request.model.as_str()), Violation::BlankModel);
    push_if(&mut violations, request.messages.len() == 0, Violation::NoMessages);
    let ghost head = violations@;
    let mut i: usize = 0;
    while i < request.messages.len()
        invariant
            0 <= i <= request.messages@.len(),
            violations@ == head + messages_violations(request.messages@, i as int),
        decreases request.messages@.len() - i,
    {
        let message = &request.messages[i];
        push_if(&mut violations, message.content.len() == 0, Violation::EmptyContent { message: i });
        let ghost mid = violations@;
        let mut j: usize = 0;
        while j < message.content.len()
            invariant
                0 <= i < request.messages@.len(),
                *message == request.messages@[i as int],
                0 <= j <= message.content@.len(),
                violations@ == mid + parts_violations(i as int, message.content@, j as int),
            decreases message.content@.len() - j,
        {
            match &message.content[j] {
                ContentPart::Text { text } => {
                    push_if(&mut violations, is_blank(text.as_str()), Violation::BlankText { message: i, part: j });
                },
                ContentPart::ImageUrl { url } => {
                    push_if(&mut violations, is_blank(url.as_str()), Violation::BlankUrl { message: i, part: j });
                },
            }
            proof {
                assert(mid + parts_violations(i as int, message.content@, j + 1) =~= mid
                    + parts_violations(i as int, message.content@, j as int) + part_violation(
                    i as int,
                    j as int,
                    message.content@[j as int],
                ));
            }
            j = j + 1;
        }
        proof {
            assert(violations@ =~= head + messages_violations(request.messages@, i + 1));
        }
        i = i + 1;
    }
    let g = &request.generation;
    push_if(
        &mut violations,
        !(0 <= g.temperature_milli && g.temperature_milli <= 2000),
        Violation::TemperatureOutOfRange,
    );
    push_if(&mut violations, !(0 <= g.top_p_milli && g.top_p_milli <= 1000), Violation::TopPOutOfRange);
    push_if(&mut violations, g.max_tokens == 0, Violation::ZeroMaxTokens);
    assert(violations@ =~= envelope_violations(*envelope));
    if violations.len() == 0 {
        Ok(())
    } else {
        Err(
            OmniError::new(
                ErrorCode::InvalidCanonicalRequest,
                "Canonical request validation failed",
                ErrorDetails::Violations { violations },
                false,
            ),
        )
    }
}

} // verus!
