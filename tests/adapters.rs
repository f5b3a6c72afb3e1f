use omni_api::adapters::{
    map_role, Adapter, AdapterKey, AdapterRegistry, GeminiChatAdapter, OllamaChatAdapter,
    OpenAiChatAdapter, ProviderAdapter,
};
use omni_api::canonical::{
    ChatMessage, ChatRequest, ContentPart, GenerationConfig, MessageRole, ResponseFormat,
    ResponseFormatType, ToolChoice, ToolDefinition,
};
use omni_api::payload::{GeminiPart, ProviderPayload};
use omni_api::types::{
    AdapterVersion, Capability, ErrorCode, ErrorDetails, Feature, ProviderId, ReasonClass,
    ReasonCode, ReasonDetail,
};

fn sample_request() -> ChatRequest {
    ChatRequest {
        model: "model-x".to_string(),
        messages: vec![ChatMessage {
            role: MessageRole::User,
            content: vec![ContentPart::Text {
                text: "hello".to_string(),
            }],
            name: None,
            tool_call_id: None,
        }],
        tools: Vec::new(),
        tool_choice: None,
        response_format: None,
        generation: GenerationConfig::default(),
        stream: false,
    }
}

fn object_schema() -> serde_json::Value {
    serde_json::from_str(r#"{"type": "object"}"#).expect("json")
}

#[test]
fn openai_adapter_builds_payload() {
    let adapter = OpenAiChatAdapter;
    let payload = adapter.build_payload(&sample_request()).expect("payload");
    match payload {
        ProviderPayload::OpenAi(p) => {
            assert_eq!(p.model, "model-x");
            assert_eq!(p.messages.len(), 1);
            assert!(p.response_format.is_none());
        }
        other => panic!("unexpected payload {:?}", other),
    }
}

#[test]
fn gemini_rejects_json_schema_response_format() {
    let adapter = GeminiChatAdapter;
    let mut request = sample_request();
    request.response_format = Some(ResponseFormat {
        format_type: ResponseFormatType::JsonSchema,
        json_schema: Some(object_schema()),
    });

    let support = adapter.supports(&request);
    assert!(!support.supported);
    let reason = support.reason.expect("reason");
    assert_eq!(reason.class, ReasonClass::Incompatible);
    assert_eq!(reason.code, ReasonCode::UnsupportedResponseFormat);
}

#[test]
fn ollama_rejects_multimodal_content() {
    let adapter = OllamaChatAdapter;
    let mut request = sample_request();
    request.messages[0].content = vec![ContentPart::ImageUrl {
        url: "https://example.com/image.png".to_string(),
    }];

    let support = adapter.supports(&request);
    assert!(!support.supported);
    let reason = support.reason.expect("reason");
    assert_eq!(reason.code, ReasonCode::UnsupportedMultimodalContent);
}

#[test]
fn ollama_rejects_image_at_scenario_url() {
    let mut request = sample_request();
    request.messages[0].content = vec![ContentPart::ImageUrl {
        url: "https://x/y.png".to_string(),
    }];
    let support = OllamaChatAdapter.supports(&request);
    assert!(!support.supported);
    assert_eq!(
        support.reason.expect("reason").detail,
        ReasonDetail::Unsupported { feature: Feature::ImageUrl }
    );
}

#[test]
fn ollama_rejects_tools_before_other_features() {
    let mut request = sample_request();
    request.tools.push(ToolDefinition {
        name: "lookup".to_string(),
        description: None,
        input_schema: serde_json::Value::Null,
    });
    request.response_format = Some(ResponseFormat {
        format_type: ResponseFormatType::JsonSchema,
        json_schema: None,
    });
    let reason = OllamaChatAdapter.supports(&request).reason.expect("reason");
    assert_eq!(reason.code, ReasonCode::UnsupportedToolCalling);
    assert!(!reason.retryable);
}

#[test]
fn ollama_rejects_json_schema() {
    let mut request = sample_request();
    request.response_format = Some(ResponseFormat {
        format_type: ResponseFormatType::JsonSchema,
        json_schema: Some(object_schema()),
    });
    let reason = OllamaChatAdapter.supports(&request).reason.expect("reason");
    assert_eq!(reason.code, ReasonCode::UnsupportedResponseFormat);
}

#[test]
fn supports_twice_gives_the_same_report() {
    let mut request = sample_request();
    request.response_format = Some(ResponseFormat {
        format_type: ResponseFormatType::JsonSchema,
        json_schema: Some(object_schema()),
    });
    for adapter in [
        Adapter::OpenAi(OpenAiChatAdapter),
        Adapter::Gemini(GeminiChatAdapter),
        Adapter::Ollama(OllamaChatAdapter),
    ] {
        assert_eq!(adapter.supports(&request), adapter.supports(&request));
    }
}

#[test]
fn openai_passes_json_schema_through() {
    let mut request = sample_request();
    request.response_format = Some(ResponseFormat {
        format_type: ResponseFormatType::JsonSchema,
        json_schema: Some(object_schema()),
    });
    assert!(OpenAiChatAdapter.supports(&request).supported);
    match OpenAiChatAdapter.build_payload(&request).expect("payload") {
        ProviderPayload::OpenAi(p) => {
            let format = p.response_format.expect("response format");
            assert_eq!(format.json_schema, Some(object_schema()));
            assert_eq!(p.temperature_milli, 700);
            assert_eq!(p.top_p_milli, 1000);
            assert_eq!(p.max_tokens, 1024);
            assert_eq!(p.messages[0].role, "user");
        }
        other => panic!("unexpected payload {:?}", other),
    }
}

#[test]
fn gemini_maps_roles_and_images() {
    let mut request = sample_request();
    request.messages.push(ChatMessage {
        role: MessageRole::Assistant,
        content: vec![
            ContentPart::Text { text: "hi".to_string() },
            ContentPart::ImageUrl { url: "https://x/y.png".to_string() },
        ],
        name: None,
        tool_call_id: None,
    });
    request.messages.push(ChatMessage {
        role: MessageRole::System,
        content: vec![ContentPart::Text { text: "be brief".to_string() }],
        name: None,
        tool_call_id: None,
    });
    match GeminiChatAdapter.build_payload(&request).expect("payload") {
        ProviderPayload::Gemini(p) => {
            assert_eq!(p.model, "model-x");
            let roles: Vec<&str> = p.contents.iter().map(|c| c.role).collect();
            assert_eq!(roles, vec!["user", "model", "user"]);
            assert_eq!(
                p.contents[1].parts[1],
                GeminiPart::FileData {
                    mime_type: "image/*",
                    file_uri: "https://x/y.png".to_string(),
                }
            );
            assert_eq!(p.generation_config.max_output_tokens, 1024);
        }
        other => panic!("unexpected payload {:?}", other),
    }
}

#[test]
fn ollama_flattens_text_and_passes_named_tool_choice() {
    let mut request = sample_request();
    request.messages[0].content.push(ContentPart::Text { text: "world".to_string() });
    request.tool_choice = Some(ToolChoice::Named { name: "lookup".to_string() });
    request.stream = true;
    match OllamaChatAdapter.build_payload(&request).expect("payload") {
        ProviderPayload::Ollama(p) => {
            assert_eq!(p.messages[0].content, "hello\nworld");
            assert_eq!(p.messages[0].role, "user");
            assert_eq!(p.tool_choice, Some("lookup".to_string()));
            assert!(p.stream);
            assert_eq!(p.options.num_predict, 1024);
        }
        other => panic!("unexpected payload {:?}", other),
    }
}

#[test]
fn ollama_build_fails_on_image() {
    let mut request = sample_request();
    request.messages[0].content.push(ContentPart::ImageUrl { url: "https://x/y.png".to_string() });
    let err = OllamaChatAdapter.build_payload(&request).expect_err("build error");
    assert_eq!(err.code, ErrorCode::ProviderPayloadBuildFailed);
    assert_eq!(err.details, ErrorDetails::ImageNotFlattenable);
    assert!(err.retryable);
}

#[test]
fn role_names() {
    assert_eq!(map_role(MessageRole::System), "system");
    assert_eq!(map_role(MessageRole::User), "user");
    assert_eq!(map_role(MessageRole::Assistant), "assistant");
    assert_eq!(map_role(MessageRole::Tool), "tool");
}

#[test]
fn registry_lookup_and_overwrite() {
    let mut registry = AdapterRegistry::new();
    let key = AdapterKey {
        provider_id: ProviderId::Gemini,
        capability: Capability::Chat,
        adapter_version: AdapterVersion::default(),
    };
    assert_eq!(registry.get(&key), None);
    registry.register(Adapter::Gemini(GeminiChatAdapter));
    registry.register(Adapter::Gemini(GeminiChatAdapter));
    assert_eq!(registry.get(&key), Some(Adapter::Gemini(GeminiChatAdapter)));
    let other = AdapterKey {
        provider_id: ProviderId::Gemini,
        capability: Capability::Chat,
        adapter_version: AdapterVersion("v2".to_string()),
    };
    assert_eq!(registry.get(&other), None);
    assert_eq!(AdapterVersion::default().0, "v1");
}
