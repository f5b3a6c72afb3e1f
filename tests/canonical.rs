use omni_api::canonical::{
    validate_envelope, CanonicalEnvelope, ChatMessage, ChatRequest, ContentPart, GenerationConfig,
    MessageRole, ProviderSelection, Violation,
};
use omni_api::types::{Capability, ErrorCode, ErrorDetails, ProviderId, ProviderMap};

fn valid_envelope() -> CanonicalEnvelope {
    CanonicalEnvelope {
        capability: Capability::Chat,
        provider: ProviderSelection {
            preferred: vec![ProviderId::OpenAi],
            availability: ProviderMap::new(),
        },
        request: ChatRequest {
            model: "gpt-4o-mini".to_string(),
            messages: vec![ChatMessage {
                role: MessageRole::User,
                content: vec![ContentPart::Text {
                    text: "hello".to_string(),
                }],
                name: None,
                tool_call_id: None,
            }],
            tools: Vec::new(),
            tool_choice: None,
            response_format: None,
            generation: GenerationConfig::default(),
            stream: false,
        },
        metadata: serde_json::Value::Object(serde_json::Map::new()),
    }
}

fn violations_of(envelope: &CanonicalEnvelope) -> Vec<Violation> {
    let err = validate_envelope(envelope).expect_err("expected validation error");
    assert_eq!(err.code, ErrorCode::InvalidCanonicalRequest);
    assert!(!err.retryable);
    match err.details {
        ErrorDetails::Violations { violations } => violations,
        other => panic!("unexpected details {:?}", other),
    }
}

#[test]
fn validates_valid_envelope() {
    let envelope = valid_envelope();
    assert!(validate_envelope(&envelope).is_ok());
}

#[test]
fn fails_for_empty_messages() {
    let mut envelope = valid_envelope();
    envelope.request.messages.clear();
    let violations = violations_of(&envelope);
    assert!(violations.contains(&Violation::NoMessages));
}

#[test]
fn fails_for_empty_text_part() {
    let mut envelope = valid_envelope();
    envelope.request.messages[0].content = vec![ContentPart::Text {
        text: "   ".to_string(),
    }];
    let violations = violations_of(&envelope);
    assert!(violations.contains(&Violation::BlankText { message: 0, part: 0 }));
}

#[test]
fn reports_every_violation_in_order() {
    let mut envelope = valid_envelope();
    envelope.provider.preferred.clear();
    envelope.request.model = " \t".to_string();
    envelope.request.messages.push(ChatMessage {
        role: MessageRole::Assistant,
        content: vec![
            ContentPart::Text { text: "ok".to_string() },
            ContentPart::ImageUrl { url: "".to_string() },
        ],
        name: None,
        tool_call_id: None,
    });
    envelope.request.messages.push(ChatMessage {
        role: MessageRole::User,
        content: Vec::new(),
        name: None,
        tool_call_id: None,
    });
    envelope.request.generation.temperature_milli = 2001;
    envelope.request.generation.top_p_milli = -1;
    envelope.request.generation.max_tokens = 0;
    assert_eq!(
        violations_of(&envelope),
        vec![
            Violation::NoPreferredProvider,
            Violation::BlankModel,
            Violation::BlankUrl { message: 1, part: 1 },
            Violation::EmptyContent { message: 2 },
            Violation::TemperatureOutOfRange,
            Violation::TopPOutOfRange,
            Violation::ZeroMaxTokens,
        ]
    );
}

#[test]
fn range_bounds_are_inclusive() {
    let mut envelope = valid_envelope();
    envelope.request.generation.temperature_milli = 2000;
    envelope.request.generation.top_p_milli = 0;
    envelope.request.generation.max_tokens = 1;
    assert!(validate_envelope(&envelope).is_ok());
    envelope.request.generation.temperature_milli = 0;
    envelope.request.generation.top_p_milli = 1000;
    assert!(validate_envelope(&envelope).is_ok());
}

#[test]
fn generation_defaults() {
    let g = GenerationConfig::default();
    assert_eq!(g.temperature_milli, 700);
    assert_eq!(g.top_p_milli, 1000);
    assert_eq!(g.max_tokens, 1024);
    assert!(g.stop.is_empty());
    assert_eq!(omni_api::canonical::default_max_tokens(), 1024);
}
