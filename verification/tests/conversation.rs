use mybuddy_runtime::{
    conversation_request, sampler_config, ApiBackend, AuthScheme, ConversationItem,
    ConversationToolChoice, Effort, EmbeddedSampler, InputItem, ModelConfig, Protocol,
    SamplingToolCall, Temperature, ToolCall, ToolChoice, ToolDefinition, TurnRequest,
    ANTHROPIC_VERSION,
};
use serde_json::Value;

fn model_config(protocol: Protocol) -> ModelConfig {
    ModelConfig {
        base_url: "https://provider.example/v1".into(),
        api_key: Some("super-secret".into()),
        model: "model-a".into(),
        protocol,
        context_window: 128_000,
        reasoning_effort: Some(Effort::High),
        max_retries: 2,
        idle_timeout_secs: 300,
    }
}

fn object_schema() -> Value {
    let mut schema = serde_json::Map::new();
    schema.insert("type".into(), Value::String("object".into()));
    Value::Object(schema)
}

fn header<'a>(headers: &'a [(String, String)], name: &str) -> Option<&'a str> {
    headers
        .iter()
        .find(|(key, _)| key == name)
        .map(|(_, value)| value.as_str())
}

#[test]
fn messages_uses_x_api_key_auth() {
    let config = sampler_config(&model_config(Protocol::Messages), "1.2.3");
    assert_eq!(config.api_backend, ApiBackend::Messages);
    assert_eq!(config.auth_scheme, AuthScheme::XApiKey);
    assert_eq!(
        header(&config.extra_headers, "anthropic-version"),
        Some(ANTHROPIC_VERSION)
    );
    assert_eq!(config.extra_headers.len(), 1);
    assert_eq!(ANTHROPIC_VERSION, "2023-06-01");
}

#[test]
fn openai_protocols_do_not_receive_anthropic_headers() {
    for protocol in [Protocol::ChatCompletions, Protocol::Responses] {
        assert!(header(
            &sampler_config(&model_config(protocol), "1.2.3").extra_headers,
            "anthropic-version"
        )
        .is_none());
    }
}

#[test]
fn openai_protocols_use_bearer_auth() {
    let chat = sampler_config(&model_config(Protocol::ChatCompletions), "1.2.3");
    assert_eq!(chat.api_backend, ApiBackend::ChatCompletions);
    assert_eq!(chat.auth_scheme, AuthScheme::Bearer);
    let responses = sampler_config(&model_config(Protocol::Responses), "1.2.3");
    assert_eq!(responses.api_backend, ApiBackend::Responses);
    assert_eq!(responses.auth_scheme, AuthScheme::Bearer);
}

#[test]
fn sampler_set_up_carries_the_configuration() {
    let mut config = model_config(Protocol::Responses);
    config.base_url = "https://provider.example/v1//".into();
    let out = sampler_config(&config, "1.2.3");
    assert_eq!(out.base_url, "https://provider.example/v1");
    assert_eq!(out.api_key.as_deref(), Some("super-secret"));
    assert_eq!(out.model, "model-a");
    assert_eq!(out.context_window, 128_000);
    assert_eq!(out.reasoning_effort, Some(Effort::High));
    assert_eq!(out.max_retries, Some(2));
    assert_eq!(out.idle_timeout_secs, Some(300));
    assert!(out.stream_tool_calls);
    let client = out.origin_client.expect("the client is named");
    assert_eq!(client.product, "mybuddy-desktop");
    assert_eq!(client.version.as_deref(), Some("1.2.3"));
    assert_eq!(out.client_identifier.as_deref(), Some("mybuddy-desktop"));
}

#[test]
fn trailing_slashes_make_no_difference() {
    let mut urls = Vec::new();
    for base_url in ["http://host/a", "http://host/a/", "http://host/a////"] {
        let mut config = model_config(Protocol::Messages);
        config.base_url = base_url.into();
        urls.push(sampler_config(&config, "1.2.3").base_url);
    }
    assert_eq!(urls, ["http://host/a", "http://host/a", "http://host/a"]);
}

#[test]
fn a_bare_scheme_keeps_its_colon() {
    let mut config = model_config(Protocol::Responses);
    config.base_url = "http://".into();
    assert!(config.validate().is_ok());
    assert_eq!(sampler_config(&config, "1.2.3").base_url, "http:");
}

#[test]
fn converts_product_request_without_shell_types() {
    let request = conversation_request(TurnRequest {
        items: vec![
            InputItem::System {
                content: "You are MyBuddy".into(),
            },
            InputItem::User {
                content: "Hello".into(),
            },
        ],
        tools: vec![ToolDefinition {
            name: "read_file".into(),
            description: Some("Read a file".into()),
            parameters: object_schema(),
        }],
        tool_choice: ToolChoice::Auto,
        temperature: None,
        max_output_tokens: Some(1024),
    });
    assert_eq!(request.items.len(), 2);
    assert_eq!(request.tools[0].name, "read_file");
    assert!(matches!(
        request.tool_choice,
        Some(ConversationToolChoice::Auto)
    ));
    assert_eq!(request.tools[0].description.as_deref(), Some("Read a file"));
    assert_eq!(request.tools[0].parameters, object_schema());
    assert_eq!(request.max_output_tokens, Some(1024));
}

#[test]
fn every_kind_of_item_is_carried() {
    let call = ToolCall {
        id: "call-1".into(),
        name: "read_file".into(),
        arguments: "{\"path\":\"a\"}".into(),
    };
    let request = conversation_request(TurnRequest {
        items: vec![
            InputItem::Assistant {
                content: "Reading".into(),
                model: Some("model-a".into()),
                tool_calls: vec![call.clone(), ToolCall { id: "call-2".into(), ..call }],
            },
            InputItem::ToolResult {
                call_id: "call-1".into(),
                content: "text".into(),
            },
        ],
        tools: Vec::new(),
        tool_choice: ToolChoice::Required,
        temperature: Some(Temperature { bits: 0.5f32.to_bits() }),
        max_output_tokens: None,
    });
    match &request.items[0] {
        ConversationItem::Assistant(assistant) => {
            assert_eq!(assistant.content, "Reading");
            assert_eq!(assistant.model_id.as_deref(), Some("model-a"));
            assert_eq!(assistant.tool_calls.len(), 2);
            assert_eq!(
                assistant.tool_calls[0],
                SamplingToolCall {
                    id: "call-1".into(),
                    name: "read_file".into(),
                    arguments: "{\"path\":\"a\"}".into(),
                }
            );
            assert_eq!(assistant.tool_calls[1].id, "call-2");
            assert!(assistant.model_fingerprint.is_none());
            assert!(assistant.reasoning_effort.is_none());
        }
        other => panic!("{:?}", other),
    }
    assert_eq!(
        request.items[1],
        ConversationItem::ToolResult {
            call_id: "call-1".into(),
            content: "text".into(),
        }
    );
    assert_eq!(request.tool_choice, Some(ConversationToolChoice::Required));
    assert_eq!(
        request.temperature.map(|temperature| f32::from_bits(temperature.bits)),
        Some(0.5)
    );
}

#[test]
fn a_tool_definition_is_copied_whole() {
    let tool = ToolDefinition {
        name: "read_file".into(),
        description: None,
        parameters: object_schema(),
    };
    let copy = tool.clone();
    assert_eq!(copy, tool);
    assert_eq!(copy.parameters, object_schema());
    assert_ne!(copy.parameters, Value::Null);
}

#[test]
fn starting_a_turn_submits_the_request() {
    let sampler = match EmbeddedSampler::new(model_config(Protocol::Messages)) {
        Ok(sampler) => sampler,
        Err(error) => panic!("{}", error.to_string()),
    };
    let submission = sampler.start_turn(
        TurnRequest {
            items: vec![InputItem::User {
                content: "Hello".into(),
            }],
            tools: Vec::new(),
            tool_choice: ToolChoice::Disabled,
            temperature: None,
            max_output_tokens: None,
        },
        "1.2.3",
    );
    assert_eq!(submission.max_retries, 2);
    assert_eq!(submission.sampler.api_backend, ApiBackend::Messages);
    assert_eq!(submission.sampler.model, "model-a");
    assert_eq!(
        submission.request.items,
        vec![ConversationItem::User {
            content: "Hello".into()
        }]
    );
    assert_eq!(
        submission.request.tool_choice,
        Some(ConversationToolChoice::Disabled)
    );
}

#[test]
fn temperatures_are_equal_as_numbers() {
    let values = [
        0.0f32, -0.0, 0.5, -0.5, 1.0, f32::MIN_POSITIVE, f32::INFINITY, f32::NEG_INFINITY,
        f32::NAN, -f32::NAN,
    ];
    for a in values {
        for b in values {
            let left = Temperature { bits: a.to_bits() };
            let right = Temperature { bits: b.to_bits() };
            assert_eq!(left == right, a == b, "{} {}", a, b);
        }
    }
}

#[test]
fn debug_output_names_the_absence_of_tools() {
    assert_eq!(format!("{:?}", ToolChoice::Auto), "Auto");
    assert_eq!(format!("{:?}", ToolChoice::Disabled), "None");
    assert_eq!(format!("{:?}", ToolChoice::Required), "Required");
}
