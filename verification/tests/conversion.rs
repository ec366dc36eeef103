use openai_proxy::content::{Message, MessageContent, MessageRole};
use openai_proxy::convert::{
    MessageConverter, OpenAIContent, OpenAIContentItem, OpenAIFunctionCall, OpenAIMessage,
    OpenAIToolCall,
};
use openai_proxy::jsonval::JsonValue;
use openai_proxy::parse::{ParsedItem, ToolResultParser, extract_text_from_content_items};
use openai_proxy::state::ContentFormat;

/// The value of a field of a JSON object, if present.
fn field<'a>(v: &'a JsonValue, name: &str) -> Option<&'a JsonValue> {
    match v {
        JsonValue::Obj(fields) => fields.iter().find(|(n, _)| n == name).map(|(_, v)| v),
        _ => None,
    }
}

#[test]
fn test_tool_result_parsing() {
    let json_content = r#"[{"type": "text", "text": "Hello, world!"}]"#;
    let result = ToolResultParser::parse_content(json_content.as_bytes());
    assert_eq!(result.len(), 1);
}

#[test]
fn test_parse_array_of_items_extracts_text() {
    let payload = r#"[{"type": "text", "text": "first"}, {"type": "text", "text": "second"}]"#;
    let result = ToolResultParser::parse_content(payload.as_bytes());
    assert_eq!(
        result,
        vec![
            ParsedItem::Text { text: "first".to_string() },
            ParsedItem::Text { text: "second".to_string() },
        ]
    );
}

#[test]
fn test_parse_single_item_wraps_in_sequence() {
    let payload = r#"{"type": "text", "text": "solo"}"#;
    let result = ToolResultParser::parse_content(payload.as_bytes());
    assert_eq!(result, vec![ParsedItem::Text { text: "solo".to_string() }]);
}

#[test]
fn test_parse_plain_text_falls_back_verbatim() {
    let result = ToolResultParser::parse_content(b"just some text");
    assert_eq!(result, vec![ParsedItem::Text { text: "just some text".to_string() }]);
}

#[test]
fn test_parse_invalid_utf8_degrades_lossily() {
    let result = ToolResultParser::parse_content(&[0xff, 0xfe]);
    assert_eq!(result, vec![ParsedItem::Text { text: "\u{fffd}\u{fffd}".to_string() }]);
}

#[test]
fn test_parse_unknown_item_kind_kept_as_json() {
    let payload = r#"[{"type": "image", "url": "u"}]"#;
    let result = ToolResultParser::parse_content(payload.as_bytes());
    assert_eq!(result.len(), 1);
    match &result[0] {
        ParsedItem::Other { json } => {
            // Canonical re-encoding of the unrecognized object.
            assert_eq!(json, r#"{"type":"image","url":"u"}"#);
        },
        other => panic!("expected an uninterpreted item, got {:?}", other),
    }
}

#[test]
fn test_parse_empty_json_array_yields_no_items() {
    // The one input family on which the parser's output is empty: the
    // payload itself is an empty JSON array.
    let result = ToolResultParser::parse_content(b"[]");
    assert_eq!(result.len(), 0);
}

#[test]
fn test_extract_text_skips_uninterpreted_items() {
    let items = vec![
        ParsedItem::Text { text: "a".to_string() },
        ParsedItem::Other { json: "{}".to_string() },
        ParsedItem::Text { text: "b".to_string() },
    ];
    assert_eq!(extract_text_from_content_items(&items), "a\nb");
}

#[test]
fn test_content_format_serialization() {
    let mut content = OpenAIContent::new();
    content.add_item(OpenAIContentItem::Text { text: "Test message".to_string() });

    let string_format = content.serialize_for_format(&ContentFormat::Plain);
    assert_eq!(string_format, JsonValue::Str("Test message".to_string()));

    let array_format = content.serialize_for_format(&ContentFormat::Array);
    assert!(matches!(array_format, JsonValue::Arr(_)));
}

#[test]
fn test_message_conversion_roundtrip() {
    let original = Message {
        role: MessageRole::User,
        content: vec![MessageContent::Text { text: "Hello".to_string() }],
    };

    let openai_msg = MessageConverter::to_openai_message(original.clone());
    let converted_back = MessageConverter::from_openai_message(openai_msg);

    // Check that essential data is preserved
    assert_eq!(converted_back.role, original.role);
    assert_eq!(converted_back.content.len(), original.content.len());
}

#[test]
fn test_tool_result_message_uses_tool_role() {
    // Create a message with tool result content
    let message = Message {
        role: MessageRole::User, // Original role doesn't matter
        content: vec![MessageContent::ToolResult {
            tool_use_id: "call_123".to_string(),
            content: br#"[{"type": "text", "text": "Search results: Moonshot AI is a company..."}]"#
                .to_vec(),
            is_error: false,
        }],
    };

    // Convert to OpenAI format
    let openai_message = MessageConverter::to_openai_message(message);

    // Verify it uses "tool" role
    assert_eq!(openai_message.role, "tool");
    assert_eq!(openai_message.tool_call_id, Some("call_123".to_string()));
}

#[test]
fn test_tool_use_message_creates_tool_calls() {
    // Create a message with tool use content
    let message = Message {
        role: MessageRole::Assistant,
        content: vec![
            MessageContent::Text { text: "I'll search for that information.".to_string() },
            MessageContent::ToolUse {
                id: "call_456".to_string(),
                name: "search".to_string(),
                input: br#"{"query": "Context Caching Moonshot AI"}"#.to_vec(),
            },
        ],
    };

    // Convert to OpenAI format
    let openai_message = MessageConverter::to_openai_message(message);

    // Verify it uses "assistant" role (tool calls are made by assistant)
    assert_eq!(openai_message.role, "assistant");

    // Verify tool_calls is populated
    assert!(openai_message.tool_calls.is_some());
    let tool_calls = openai_message.tool_calls.unwrap();
    assert_eq!(tool_calls.len(), 1);
    assert_eq!(tool_calls[0].id, "call_456");
    assert_eq!(tool_calls[0].function.name, "search");
}

#[test]
fn test_regular_message_unchanged() {
    // Create a regular message without tools
    let message = Message {
        role: MessageRole::User,
        content: vec![MessageContent::Text {
            text: "Hello, can you help me search for something?".to_string(),
        }],
    };

    // Convert to OpenAI format
    let openai_message = MessageConverter::to_openai_message(message);

    // Verify it uses original role
    assert_eq!(openai_message.role, "user");
    assert!(openai_message.tool_calls.is_none());
    assert!(openai_message.tool_call_id.is_none());
}

#[test]
fn test_tool_use_arguments_are_canonical_json() {
    // Fails if re-encoding handed the bytes back unchanged: the canonical
    // form drops the spaces.
    let message = Message {
        role: MessageRole::Assistant,
        content: vec![MessageContent::ToolUse {
            id: "c1".to_string(),
            name: "f".to_string(),
            input: br#"{ "a" : 1 }"#.to_vec(),
        }],
    };
    let openai_message = MessageConverter::to_openai_message(message);
    let tool_calls = openai_message.tool_calls.unwrap();
    assert_eq!(tool_calls[0].function.arguments, r#"{"a":1}"#);
    assert_eq!(tool_calls[0].tool_type, "function");
}

#[test]
fn test_tool_use_malformed_input_becomes_empty_object() {
    let message = Message {
        role: MessageRole::Assistant,
        content: vec![MessageContent::ToolUse {
            id: "c1".to_string(),
            name: "f".to_string(),
            input: b"not json".to_vec(),
        }],
    };
    let openai_message = MessageConverter::to_openai_message(message);
    let tool_calls = openai_message.tool_calls.unwrap();
    assert_eq!(tool_calls[0].function.arguments, "{}");
}

#[test]
fn test_from_openai_tool_call_arguments_reencoded_as_bytes() {
    let msg = OpenAIMessage {
        role: "assistant".to_string(),
        content: None,
        tool_calls: Some(vec![OpenAIToolCall {
            id: "c9".to_string(),
            tool_type: "function".to_string(),
            function: OpenAIFunctionCall {
                name: "look".to_string(),
                arguments: r#"{ "q" : 2 }"#.to_string(),
            },
        }]),
        tool_call_id: None,
        name: None,
        audio: None,
        refusal: None,
    };
    let message = MessageConverter::from_openai_message(msg);
    assert_eq!(message.role, MessageRole::Assistant);
    assert_eq!(
        message.content,
        vec![MessageContent::ToolUse {
            id: "c9".to_string(),
            name: "look".to_string(),
            input: br#"{"q":2}"#.to_vec(),
        }]
    );
}

#[test]
fn test_from_openai_tool_result_content_reencoded_as_bytes() {
    let mut content = OpenAIContent::new();
    content.add_item(OpenAIContentItem::ToolResult {
        tool_use_id: "c2".to_string(),
        content: vec![ParsedItem::Text { text: "hi".to_string() }],
        is_error: None,
    });
    let msg = OpenAIMessage {
        role: "tool".to_string(),
        content: Some(content),
        tool_calls: None,
        tool_call_id: Some("c2".to_string()),
        name: None,
        audio: None,
        refusal: None,
    };
    let message = MessageConverter::from_openai_message(msg);
    assert_eq!(message.role, MessageRole::User);
    // serde_json encodes object keys in sorted order.
    assert_eq!(
        message.content,
        vec![MessageContent::ToolResult {
            tool_use_id: "c2".to_string(),
            content: br#"[{"text":"hi","type":"text"}]"#.to_vec(),
            is_error: false,
        }]
    );
}

#[test]
fn test_map_role_back_defaults_to_user() {
    assert_eq!(MessageConverter::map_role_back("user"), MessageRole::User);
    assert_eq!(MessageConverter::map_role_back("tool"), MessageRole::User);
    assert_eq!(MessageConverter::map_role_back("assistant"), MessageRole::Assistant);
    assert_eq!(MessageConverter::map_role_back("system"), MessageRole::System);
    assert_eq!(MessageConverter::map_role_back("whatever"), MessageRole::User);
}

#[test]
fn test_error_tool_result_serializes_with_error_prefix() {
    // A message holding only an erroneous tool result whose decoded text is
    // "boom" flattens to the string "Error: boom".
    let message = Message {
        role: MessageRole::User,
        content: vec![MessageContent::ToolResult {
            tool_use_id: "c3".to_string(),
            content: b"boom".to_vec(),
            is_error: true,
        }],
    };
    let openai_message = MessageConverter::to_openai_message(message);
    let content = openai_message.content.unwrap();
    let flattened = content.serialize_for_format(&ContentFormat::Plain);
    assert_eq!(flattened, JsonValue::Str("Error: boom".to_string()));
}

#[test]
fn test_plain_format_joins_texts_and_trims() {
    let mut content = OpenAIContent::new();
    content.add_item(OpenAIContentItem::Text { text: "  first".to_string() });
    content.add_item(OpenAIContentItem::Text { text: "second  ".to_string() });
    let flattened = content.serialize_for_format(&ContentFormat::Plain);
    assert_eq!(flattened, JsonValue::Str("first\nsecond".to_string()));
}

#[test]
fn test_plain_format_skips_tool_use_and_placeholder_when_empty() {
    let mut content = OpenAIContent::new();
    content.add_item(OpenAIContentItem::ToolUse {
        id: "c4".to_string(),
        name: "f".to_string(),
        input: "{}".to_string(),
    });
    let flattened = content.serialize_for_format(&ContentFormat::Plain);
    assert_eq!(flattened, JsonValue::Str("[No content]".to_string()));
}

#[test]
fn test_array_format_tags_text_items() {
    let content = OpenAIContent::from_text("Hi".to_string());
    let arr = content.serialize_for_format(&ContentFormat::Array);
    match &arr {
        JsonValue::Arr(items) => {
            assert_eq!(items.len(), 1);
            assert_eq!(field(&items[0], "type"), Some(&JsonValue::Str("text".to_string())));
            assert_eq!(field(&items[0], "text"), Some(&JsonValue::Str("Hi".to_string())));
        },
        other => panic!("expected an array, got {:?}", other),
    }
}

#[test]
fn test_message_serialize_includes_tool_call_id() {
    let message = Message {
        role: MessageRole::User,
        content: vec![MessageContent::ToolResult {
            tool_use_id: "call_77".to_string(),
            content: b"ok".to_vec(),
            is_error: false,
        }],
    };
    let openai_message = MessageConverter::to_openai_message(message);
    let wire = openai_message.serialize_for_format(&ContentFormat::Plain);
    assert_eq!(field(&wire, "role"), Some(&JsonValue::Str("tool".to_string())));
    assert_eq!(field(&wire, "tool_call_id"), Some(&JsonValue::Str("call_77".to_string())));
    assert_eq!(field(&wire, "content"), Some(&JsonValue::Str("ok".to_string())));
}
