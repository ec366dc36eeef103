use openai_proxy::client::{OpenAIClient, classify_response};
use openai_proxy::content::{Message, MessageContent, MessageRole};
use openai_proxy::convert::{OpenAIContent, OpenAIMessage};
use openai_proxy::handler::prepare_completion_body;
use openai_proxy::jsonval::JsonValue;
use openai_proxy::request::{
    CompletionRequest, OpenAICompletionRequest, OpenAIToolChoice, ToolChoice, ToolDefinition,
};
use openai_proxy::response::{
    CompletionResponse, OpenAIChoice, OpenAICompletionResponse, OpenAIError, OpenAIUsage,
    StopReason, Usage,
};
use openai_proxy::state::ContentFormat;

/// The value of a field of a JSON object, if present.
fn field<'a>(v: &'a JsonValue, name: &str) -> Option<&'a JsonValue> {
    match v {
        JsonValue::Obj(fields) => fields.iter().find(|(n, _)| n == name).map(|(_, v)| v),
        _ => None,
    }
}

fn simple_request(model: &str) -> CompletionRequest {
    CompletionRequest {
        model: model.to_string(),
        messages: vec![Message {
            role: MessageRole::User,
            content: vec![MessageContent::Text { text: "Hi".to_string() }],
        }],
        system: None,
        max_tokens: 256,
        temperature: None,
        tools: None,
        tool_choice: None,
    }
}

#[test]
fn test_end_to_end_plain_format_flattens_content() {
    let body = prepare_completion_body(simple_request("gpt-4o"), &ContentFormat::Plain).unwrap();
    let messages = match field(&body, "messages") {
        Some(JsonValue::Arr(messages)) => messages,
        other => panic!("expected a messages array, got {:?}", other),
    };
    assert_eq!(messages.len(), 1);
    assert_eq!(field(&messages[0], "content"), Some(&JsonValue::Str("Hi".to_string())));
    assert_eq!(field(&body, "model"), Some(&JsonValue::Str("gpt-4o".to_string())));
    assert_eq!(field(&body, "stream"), Some(&JsonValue::Bool(false)));
}

#[test]
fn test_end_to_end_array_format_tags_content() {
    let body = prepare_completion_body(simple_request("gpt-4o"), &ContentFormat::Array).unwrap();
    let messages = match field(&body, "messages") {
        Some(JsonValue::Arr(messages)) => messages,
        other => panic!("expected a messages array, got {:?}", other),
    };
    let content = field(&messages[0], "content").unwrap();
    match content {
        JsonValue::Arr(items) => {
            assert_eq!(items.len(), 1);
            assert_eq!(field(&items[0], "type"), Some(&JsonValue::Str("text".to_string())));
            assert_eq!(field(&items[0], "text"), Some(&JsonValue::Str("Hi".to_string())));
        },
        other => panic!("expected structured content, got {:?}", other),
    }
}

#[test]
fn test_prepare_rejects_unsupported_model_before_any_call() {
    let err = prepare_completion_body(simple_request("gpt4"), &ContentFormat::Array).unwrap_err();
    assert!(err.starts_with("Unsupported model 'gpt4'."));
    assert!(err.contains("Did you mean one of: "));
}

#[test]
fn test_from_generic_prepends_system_message() {
    let mut request = simple_request("gpt-4o");
    request.system = Some("You are terse.".to_string());
    let vendor = OpenAICompletionRequest::from_generic(request);
    assert_eq!(vendor.messages.len(), 2);
    assert_eq!(vendor.messages[0].role, "system");
    assert_eq!(vendor.messages[1].role, "user");
    assert_eq!(vendor.max_tokens, Some(256));
    assert_eq!(vendor.stream, Some(false));
    assert_eq!(vendor.stop, None);
}

#[test]
fn test_from_generic_maps_tools_and_choice() {
    let mut request = simple_request("gpt-4o");
    request.tools = Some(vec![ToolDefinition {
        name: "search".to_string(),
        description: Some("find things".to_string()),
        input_schema: br#"{ "type" : "object" }"#.to_vec(),
    }]);
    request.tool_choice = Some(ToolChoice::Any);
    let vendor = OpenAICompletionRequest::from_generic(request);
    let tools = vendor.tools.unwrap();
    assert_eq!(tools.len(), 1);
    assert_eq!(tools[0].tool_type, "function");
    assert_eq!(tools[0].function.name, "search");
    assert_eq!(tools[0].function.parameters, r#"{"type":"object"}"#);
    assert_eq!(vendor.tool_choice, Some(OpenAIToolChoice::Required));
}

#[test]
fn test_tool_choice_serialization() {
    let mut request = simple_request("gpt-4o");
    request.tool_choice = Some(ToolChoice::Tool { name: "search".to_string() });
    let vendor = OpenAICompletionRequest::from_generic(request);
    let body = vendor.serialize_for_provider(&ContentFormat::Array);
    let choice = field(&body, "tool_choice").unwrap();
    assert_eq!(field(choice, "type"), Some(&JsonValue::Str("function".to_string())));
    let function = field(choice, "function").unwrap();
    assert_eq!(field(function, "name"), Some(&JsonValue::Str("search".to_string())));
}

#[test]
fn test_serialize_carries_temperature_in_hundredths() {
    let mut request = simple_request("gpt-4o");
    request.temperature = Some(70);
    let vendor = OpenAICompletionRequest::from_generic(request);
    let body = vendor.serialize_for_provider(&ContentFormat::Array);
    assert_eq!(field(&body, "temperature"), Some(&JsonValue::Centi(70)));
    assert_eq!(field(&body, "max_tokens"), Some(&JsonValue::UInt(256)));
}

fn vendor_response(finish_reason: &str) -> OpenAICompletionResponse {
    OpenAICompletionResponse {
        id: "cmpl-1".to_string(),
        object: "chat.completion".to_string(),
        created: 0,
        model: "gpt-4o".to_string(),
        choices: vec![OpenAIChoice {
            index: 0,
            message: OpenAIMessage {
                role: "assistant".to_string(),
                content: Some(OpenAIContent::from_text("Hello!".to_string())),
                tool_calls: None,
                tool_call_id: None,
                name: None,
                audio: None,
                refusal: None,
            },
            logprobs: None,
            finish_reason: finish_reason.to_string(),
        }],
        usage: OpenAIUsage { prompt_tokens: 10, completion_tokens: 5, total_tokens: 99 },
        service_tier: None,
        system_fingerprint: None,
    }
}

#[test]
fn test_response_takes_first_choice_and_maps_stop_reason() {
    let response = CompletionResponse::from_openai_response(vendor_response("stop"));
    assert_eq!(response.id, "cmpl-1");
    assert_eq!(response.model, "gpt-4o");
    assert_eq!(response.role, MessageRole::Assistant);
    assert_eq!(response.content, vec![MessageContent::Text { text: "Hello!".to_string() }]);
    assert_eq!(response.stop_reason, StopReason::EndTurn);
    // The usage counts come from the wire; the total is not trusted.
    assert_eq!(response.usage, Usage { input_tokens: 10, output_tokens: 5 });
}

#[test]
fn test_response_finish_reason_mapping() {
    let cases = [
        ("stop", StopReason::EndTurn),
        ("length", StopReason::MaxTokens),
        ("tool_calls", StopReason::ToolUse),
        ("content_filter", StopReason::EndTurn),
        ("anything-else", StopReason::EndTurn),
    ];
    for (finish, expected) in cases {
        let response = CompletionResponse::from_openai_response(vendor_response(finish));
        assert_eq!(response.stop_reason, expected);
    }
}

#[test]
fn test_response_without_choices_synthesizes_guard() {
    let mut vendor = vendor_response("stop");
    vendor.choices = vec![];
    let response = CompletionResponse::from_openai_response(vendor);
    assert_eq!(response.role, MessageRole::Assistant);
    assert_eq!(response.content, vec![MessageContent::Text { text: "No response".to_string() }]);
    assert_eq!(response.stop_reason, StopReason::EndTurn);
}

#[test]
fn test_usage_roundtrip_recomputes_total() {
    let usage = Usage { input_tokens: 7, output_tokens: 3 };
    let vendor = OpenAIUsage::from_usage(usage);
    assert_eq!(vendor.total_tokens, 10);
    assert_eq!(Usage::from_openai(vendor), usage);
}

#[test]
fn test_classify_response_success_hands_body_on() {
    let body = br#"{"ok":true}"#.to_vec();
    assert_eq!(classify_response(200, Some(body.clone())).unwrap(), body);
}

#[test]
fn test_classify_response_missing_body_is_invalid() {
    match classify_response(200, None).unwrap_err() {
        OpenAIError::InvalidResponse(msg) => assert_eq!(msg, "No response body"),
        other => panic!("expected an invalid-response error, got {:?}", other),
    }
}

#[test]
fn test_classify_response_401_is_authentication() {
    match classify_response(401, Some(b"denied".to_vec())).unwrap_err() {
        OpenAIError::AuthenticationError(msg) => assert_eq!(msg, "denied"),
        other => panic!("expected an authentication error, got {:?}", other),
    }
}

#[test]
fn test_classify_response_429_is_rate_limit() {
    match classify_response(429, None).unwrap_err() {
        OpenAIError::RateLimitExceeded { retry_after } => assert_eq!(retry_after, None),
        other => panic!("expected a rate-limit error, got {:?}", other),
    }
}

#[test]
fn test_classify_response_other_status_is_api_error() {
    match classify_response(500, Some(b"boom".to_vec())).unwrap_err() {
        OpenAIError::ApiError { status, message } => {
            assert_eq!(status, 500);
            assert_eq!(message, "boom");
        },
        other => panic!("expected an api error, got {:?}", other),
    }
}

#[test]
fn test_error_messages_render_each_kind() {
    assert_eq!(
        OpenAIError::HttpError("down".to_string()).message(),
        "HTTP error: down"
    );
    assert_eq!(
        OpenAIError::SerializationError("bad json".to_string()).message(),
        "Serialization error: bad json"
    );
    assert_eq!(
        OpenAIError::ApiError { status: 503, message: "oops".to_string() }.message(),
        "API error 503: oops"
    );
    assert_eq!(
        OpenAIError::AuthenticationError("no key".to_string()).message(),
        "Authentication error: no key"
    );
    assert_eq!(
        OpenAIError::RateLimitExceeded { retry_after: Some(30) }.message(),
        "Rate limit exceeded, retry after 30 seconds"
    );
    assert_eq!(
        OpenAIError::RateLimitExceeded { retry_after: None }.message(),
        "Rate limit exceeded"
    );
    assert_eq!(
        OpenAIError::InvalidResponse("empty".to_string()).message(),
        "Invalid response: empty"
    );
    assert_eq!(
        OpenAIError::UnsupportedModel {
            requested: "x".to_string(),
            suggestions: vec!["a".to_string(), "b".to_string()],
        }
        .message(),
        "Unsupported model 'x'. Did you mean one of: a, b?"
    );
    assert_eq!(
        OpenAIError::UnsupportedModel { requested: "x".to_string(), suggestions: vec![] }
            .message(),
        "Unsupported model 'x'. Please check the available models list."
    );
}

#[test]
fn test_failure_messages() {
    let e = OpenAIError::HttpError("down".to_string());
    assert_eq!(
        openai_proxy::handler::completion_failure_message(&e),
        "Failed to generate completion: HTTP error: down"
    );
    assert_eq!(
        openai_proxy::handler::listing_failure_message(&e),
        "Failed to list models: HTTP error: down"
    );
}

#[test]
fn test_client_endpoint_and_headers() {
    let client = OpenAIClient::new_with_base_url(
        "test-key".to_string(),
        "https://api.moonshot.cn/v1".to_string(),
    );
    assert_eq!(client.completions_url(), "https://api.moonshot.cn/v1/chat/completions");
    let headers = client.request_headers();
    assert_eq!(headers[0].0, "authorization");
    assert_eq!(headers[0].1, "Bearer test-key");
    assert_eq!(headers[1], ("content-type".to_string(), "application/json".to_string()));
    assert_eq!(headers[2], ("user-agent".to_string(), "moonshot-proxy/0.1.0".to_string()));
}

#[test]
fn test_client_default_base_url() {
    let client = OpenAIClient::new("k".to_string());
    assert_eq!(client.completions_url(), "https://api.openai.com/v1/chat/completions");
}

#[test]
fn test_list_models_returns_catalog() {
    let client = OpenAIClient::new("k".to_string());
    let models = client.list_models().unwrap();
    assert_eq!(models.len(), 12);
}

#[test]
fn test_is_retryable_error() {
    assert!(OpenAIClient::is_retryable_error(429));
    assert!(OpenAIClient::is_retryable_error(502));
    assert!(OpenAIClient::is_retryable_error(503));
    assert!(OpenAIClient::is_retryable_error(504));
    assert!(!OpenAIClient::is_retryable_error(401));
    assert!(!OpenAIClient::is_retryable_error(404));
    assert!(!OpenAIClient::is_retryable_error(200));
}
