use anthropic_compatible::inference::{
    CacheControlTarget, File, InputMessageContent, Role, System, Tool, ToolChoice,
};
use anthropic_compatible::json::{Json, JsonNumber};
use anthropic_compatible::outside::parse_json;
use anthropic_compatible::types::messages::AnthropicMessagesParams;
use anthropic_compatible::types::translate::Base64Refusal;

#[test]
fn test_try_into_params_basic() {
    let json = r#"{
        "model": "tensorzero::function_name::my_function",
        "messages": [{"role": "user", "content": "Hello"}],
        "max_tokens": 100
    }"#;
    let params = AnthropicMessagesParams::from_text(json).unwrap();
    let internal = params.try_into_params(&Vec::new()).unwrap();

    assert_eq!(internal.function_name, Some("my_function".to_string()));
    assert!(internal.model_name.is_none());
    assert_eq!(internal.input.messages.len(), 1);
    assert!(matches!(internal.input.messages[0].role, Role::User));
    assert_eq!(internal.input.messages[0].content.len(), 1);
}

#[test]
fn test_try_into_params_model_name() {
    let json = r#"{
        "model": "tensorzero::model_name::my_model",
        "messages": [{"role": "user", "content": "Hello"}],
        "max_tokens": 100
    }"#;
    let params = AnthropicMessagesParams::from_text(json).unwrap();
    let internal = params.try_into_params(&Vec::new()).unwrap();

    assert!(internal.function_name.is_none());
    assert_eq!(internal.model_name, Some("my_model".to_string()));
}

#[test]
fn test_try_into_params_bare_model() {
    let json = r#"{
        "model": "my_function",
        "messages": [{"role": "user", "content": "Hello"}],
        "max_tokens": 100
    }"#;
    let params = AnthropicMessagesParams::from_text(json).unwrap();
    let internal = params.try_into_params(&Vec::new()).unwrap();

    assert_eq!(internal.function_name, Some("my_function".to_string()));
}

#[test]
fn test_try_into_params_system_prompt() {
    let json = r#"{
        "model": "my_function",
        "messages": [{"role": "user", "content": "Hello"}],
        "max_tokens": 100,
        "system": "You are helpful"
    }"#;
    let params = AnthropicMessagesParams::from_text(json).unwrap();
    let internal = params.try_into_params(&Vec::new()).unwrap();

    match &internal.input.system {
        Some(System::Text(s)) => assert_eq!(s, "You are helpful"),
        _ => panic!("Expected text system prompt"),
    }
}

#[test]
fn test_try_into_params_tools() {
    let json = r#"{
        "model": "my_function",
        "messages": [{"role": "user", "content": "Hello"}],
        "max_tokens": 100,
        "tools": [{"name": "get_weather", "description": "Get weather", "input_schema": {"type": "object"}}]
    }"#;
    let params = AnthropicMessagesParams::from_text(json).unwrap();
    let internal = params.try_into_params(&Vec::new()).unwrap();

    match &internal.dynamic_tool_params.additional_tools {
        Some(tools) => {
            assert_eq!(tools.len(), 1);
            match &tools[0] {
                Tool::Function(f) => {
                    assert_eq!(f.name, "get_weather");
                }
            }
        }
        None => panic!("Expected additional tools"),
    }
}

#[test]
fn test_try_into_params_tool_choice() {
    let json = r#"{
        "model": "my_function",
        "messages": [{"role": "user", "content": "Hello"}],
        "max_tokens": 100,
        "tool_choice": {"type": "tool", "name": "get_weather"}
    }"#;
    let params = AnthropicMessagesParams::from_text(json).unwrap();
    let internal = params.try_into_params(&Vec::new()).unwrap();

    match &internal.dynamic_tool_params.tool_choice {
        Some(ToolChoice::Specific(name)) => assert_eq!(name, "get_weather"),
        _ => panic!("Expected Specific tool choice"),
    }
}

#[test]
fn test_try_into_params_metadata_tags() {
    let json = r#"{
        "model": "my_function",
        "messages": [{"role": "user", "content": "Hello"}],
        "max_tokens": 100,
        "metadata": {
            "user_id": "user_42",
            "tensorzero": {
                "tags": {"team": "infra"},
                "episode_id": "00000000-0000-0000-0000-000000000001"
            }
        }
    }"#;
    let params = AnthropicMessagesParams::from_text(json).unwrap();
    let internal = params.try_into_params(&Vec::new()).unwrap();

    assert_eq!(
        internal.tags.get("tensorzero::user"),
        Some(&"user_42".to_string())
    );
    assert_eq!(internal.tags.get("team"), Some(&"infra".to_string()));
    assert_eq!(internal.episode_id, Some(uuid::Uuid::from_u128(1).as_u128()));
}

#[test]
fn test_try_into_params_empty_model() {
    let json = r#"{
        "model": "",
        "messages": [{"role": "user", "content": "Hello"}],
        "max_tokens": 100
    }"#;
    let params = AnthropicMessagesParams::from_text(json).unwrap();
    let result = params.try_into_params(&Vec::new());
    assert!(result.is_err());
    assert!(
        result
            .unwrap_err()
            .to_string()
            .contains("model is required")
    );
}

#[test]
fn test_try_into_params_empty_messages() {
    let json = r#"{
        "model": "my_function",
        "messages": [],
        "max_tokens": 100
    }"#;
    let params = AnthropicMessagesParams::from_text(json).unwrap();
    let result = params.try_into_params(&Vec::new());
    assert!(result.is_err());
    assert!(
        result
            .unwrap_err()
            .to_string()
            .contains("messages is required")
    );
}

#[test]
fn test_try_into_params_temperature_and_max_tokens() {
    let json = r#"{
        "model": "my_function",
        "messages": [{"role": "user", "content": "Hello"}],
        "max_tokens": 200,
        "temperature": 0.7,
        "top_p": 0.9
    }"#;
    let params = AnthropicMessagesParams::from_text(json).unwrap();
    let internal = params.try_into_params(&Vec::new()).unwrap();

    assert_eq!(internal.params.chat_completion.temperature, Some(JsonNumber::Fractional("0.7".to_string())));
    assert_eq!(internal.params.chat_completion.max_tokens, Some(200));
    assert_eq!(internal.params.chat_completion.top_p, Some(JsonNumber::Fractional("0.9".to_string())));
}

#[test]
fn test_try_into_params_thinking_blocks() {
    let json = r#"{
        "model": "my_function",
        "messages": [{
            "role": "assistant",
            "content": [
                {"type": "thinking", "thinking": "Let me think", "signature": "sig123"}
            ]
        }],
        "max_tokens": 100
    }"#;
    let params = AnthropicMessagesParams::from_text(json).unwrap();
    let internal = params.try_into_params(&Vec::new()).unwrap();

    assert_eq!(internal.input.messages.len(), 1);
    assert!(matches!(internal.input.messages[0].role, Role::Assistant));
    match &internal.input.messages[0].content[0] {
        InputMessageContent::Thought(thought) => {
            assert_eq!(thought.text, Some("Let me think".to_string()));
            assert_eq!(thought.signature, Some("sig123".to_string()));
        }
        other => panic!("Expected Thought, got {other:?}"),
    }
}

#[test]
fn test_try_into_params_redacted_thinking() {
    let json = r#"{
        "model": "my_function",
        "messages": [{
            "role": "assistant",
            "content": [
                {"type": "redacted_thinking", "data": "encrypted"}
            ]
        }],
        "max_tokens": 100
    }"#;
    let params = AnthropicMessagesParams::from_text(json).unwrap();
    let internal = params.try_into_params(&Vec::new()).unwrap();

    match &internal.input.messages[0].content[0] {
        InputMessageContent::Unknown(u) => {
            assert_eq!(u.data, Json::String("encrypted".to_string()));
        }
        other => panic!("Expected Unknown, got {other:?}"),
    }
}

#[test]
fn test_try_into_params_tool_use_blocks() {
    let json = r#"{
        "model": "my_function",
        "messages": [{
            "role": "assistant",
            "content": [
                {"type": "text", "text": "Let me call a tool"},
                {"type": "tool_use", "id": "tu1", "name": "get_weather", "input": {"location": "NYC"}}
            ]
        }],
        "max_tokens": 100
    }"#;
    let params = AnthropicMessagesParams::from_text(json).unwrap();
    let internal = params.try_into_params(&Vec::new()).unwrap();

    assert_eq!(internal.input.messages[0].content.len(), 2);
    match &internal.input.messages[0].content[0] {
        InputMessageContent::Text(t) => assert_eq!(t.text, "Let me call a tool"),
        other => panic!("Expected Text, got {other:?}"),
    }
    match &internal.input.messages[0].content[1] {
        InputMessageContent::ToolCall(wrapper) => {
            let tc = wrapper;
            assert_eq!(tc.id, "tu1");
            assert_eq!(tc.name, "get_weather");
            assert_eq!(tc.arguments, r#"{"location":"NYC"}"#);
        }
        other => panic!("Expected ToolCall, got {other:?}"),
    }
}

#[test]
fn test_try_into_params_tool_result_resolves_name() {
    // Simulates a full conversation: assistant calls tool, user returns result.
    // The tool_use_id in the result should resolve to the tool name from the
    // earlier tool_use block.
    let json = r#"{
        "model": "my_function",
        "messages": [
            {"role": "user", "content": "What's the weather in NYC?"},
            {"role": "assistant", "content": [{"type": "tool_use", "id": "tu1", "name": "get_weather", "input": {"location": "NYC"}}]},
            {"role": "user", "content": [{"type": "tool_result", "tool_use_id": "tu1", "content": "Sunny, 72F"}]}
        ],
        "max_tokens": 100
    }"#;
    let params = AnthropicMessagesParams::from_text(json).unwrap();
    let internal = params.try_into_params(&Vec::new()).unwrap();

    // Message 0: user text
    assert_eq!(internal.input.messages[0].content.len(), 1);
    // Message 1: assistant tool_use
    assert_eq!(internal.input.messages[1].content.len(), 1);
    // Message 2: user tool_result — should have resolved name
    match &internal.input.messages[2].content[0] {
        InputMessageContent::ToolResult(tr) => {
            assert_eq!(tr.id, "tu1");
            assert_eq!(tr.name, "get_weather");
            assert_eq!(tr.result, "Sunny, 72F");
        }
        other => panic!("Expected ToolResult, got {other:?}"),
    }
}

#[test]
fn test_try_into_params_stream_flag() {
    let json = r#"{
        "model": "my_function",
        "messages": [{"role": "user", "content": "Hello"}],
        "max_tokens": 100,
        "stream": true
    }"#;
    let params = AnthropicMessagesParams::from_text(json).unwrap();
    let internal = params.try_into_params(&Vec::new()).unwrap();

    assert_eq!(internal.stream, Some(true));
}

#[test]
fn test_try_into_params_tool_result_non_text_error() {
    // Non-text sub-blocks inside tool_result should return an error,
    // not be silently dropped.
    let json = r#"{
        "model": "my_function",
        "messages": [
            {"role": "user", "content": "Check this"},
            {"role": "assistant", "content": [{"type": "tool_use", "id": "tu1", "name": "analyze", "input": {"field": "value"}}]},
            {"role": "user", "content": [{"type": "tool_result", "tool_use_id": "tu1", "content": [{"type": "image", "source": {"type": "base64", "data": "abc", "media_type": "image/png"}}]}]}
        ],
        "max_tokens": 100
    }"#;
    let params = AnthropicMessagesParams::from_text(json).unwrap();
    let result = params.try_into_params(&Vec::new());
    assert!(result.is_err());
    assert!(
        result
            .unwrap_err()
            .to_string()
            .contains("Unsupported content block type 'image' inside tool_result")
    );
}

#[test]
fn test_try_into_params_stop_sequences() {
    let json = r#"{
        "model": "my_function",
        "messages": [{"role": "user", "content": "Hello"}],
        "max_tokens": 100,
        "stop_sequences": ["\n\n", "END"]
    }"#;
    let params = AnthropicMessagesParams::from_text(json).unwrap();
    let internal = params.try_into_params(&Vec::new()).unwrap();

    assert_eq!(
        internal.params.chat_completion.stop_sequences,
        Some(vec!["\n\n".to_string(), "END".to_string()])
    );
}

#[test]
fn test_try_into_params_image_content_block_base64() {
    let json = r#"{
        "model": "my_function",
        "messages": [{
            "role": "user",
            "content": [
                {"type": "image", "source": {"type": "base64", "data": "abc", "media_type": "image/png"}}
            ]
        }],
        "max_tokens": 100
    }"#;
    let params = AnthropicMessagesParams::from_text(json).unwrap();
    let result = params.try_into_params(&Vec::new()).unwrap();
    let msg = &result.input.messages[0];
    assert_eq!(msg.content.len(), 1);
    match &msg.content[0] {
        InputMessageContent::File(file) => match file {
            File::Base64(b64) => {
                assert_eq!(b64.mime_type.to_string(), "image/png");
                assert_eq!(b64.data, "abc");
            }
            other => panic!("Expected File::Base64, got {other:?}"),
        },
        other => panic!("Expected File variant, got {other:?}"),
    }
}

#[test]
fn test_try_into_params_image_content_block_url() {
    let json = r#"{
        "model": "my_function",
        "messages": [{
            "role": "user",
            "content": [
                {"type": "image", "source": {"type": "url", "url": "https://example.com/image.png"}}
            ]
        }],
        "max_tokens": 100
    }"#;
    let params = AnthropicMessagesParams::from_text(json).unwrap();
    let result = params.try_into_params(&Vec::new()).unwrap();
    let msg = &result.input.messages[0];
    assert_eq!(msg.content.len(), 1);
    match &msg.content[0] {
        InputMessageContent::File(file) => match file {
            File::Url(url_file) => {
                assert_eq!(url_file.url.as_str(), "https://example.com/image.png");
            }
            other => panic!("Expected File::Url, got {other:?}"),
        },
        other => panic!("Expected File variant, got {other:?}"),
    }
}

#[test]
fn test_try_into_params_document_content_block_base64() {
    let json = r#"{
        "model": "my_function",
        "messages": [{
            "role": "user",
            "content": [
                {"type": "document", "source": {"type": "base64", "data": "def", "media_type": "application/pdf"}}
            ]
        }],
        "max_tokens": 100
    }"#;
    let params = AnthropicMessagesParams::from_text(json).unwrap();
    let result = params.try_into_params(&Vec::new()).unwrap();
    let msg = &result.input.messages[0];
    assert_eq!(msg.content.len(), 1);
    match &msg.content[0] {
        InputMessageContent::File(file) => match file {
            File::Base64(b64) => {
                assert_eq!(b64.mime_type.to_string(), "application/pdf");
                assert_eq!(b64.data, "def");
            }
            other => panic!("Expected File::Base64, got {other:?}"),
        },
        other => panic!("Expected File variant, got {other:?}"),
    }
}

#[test]
fn test_try_into_params_document_content_block_url() {
    let json = r#"{
        "model": "my_function",
        "messages": [{
            "role": "user",
            "content": [
                {"type": "document", "source": {"type": "url", "url": "https://example.com/doc.pdf"}}
            ]
        }],
        "max_tokens": 100
    }"#;
    let params = AnthropicMessagesParams::from_text(json).unwrap();
    let result = params.try_into_params(&Vec::new()).unwrap();
    let msg = &result.input.messages[0];
    assert_eq!(msg.content.len(), 1);
    match &msg.content[0] {
        InputMessageContent::File(file) => match file {
            File::Url(url_file) => {
                assert_eq!(url_file.url.as_str(), "https://example.com/doc.pdf");
            }
            other => panic!("Expected File::Url, got {other:?}"),
        },
        other => panic!("Expected File variant, got {other:?}"),
    }
}

#[test]
fn test_try_into_params_cache_control_spans() {
    let json = r#"{
        "model": "my_function",
        "messages": [
            {"role": "user", "content": [
                {"type": "text", "text": "Hello", "cache_control": {"type": "ephemeral"}},
                {"type": "image", "source": {"type": "base64", "data": "abc", "media_type": "image/png"}, "cache_control": {"type": "ephemeral"}}
            ]},
            {"role": "assistant", "content": [
                {"type": "tool_use", "id": "tu1", "name": "get_weather", "input": {}, "cache_control": {"type": "ephemeral"}}
            ]},
            {"role": "user", "content": [
                {"type": "tool_result", "tool_use_id": "tu1", "content": "sunny", "cache_control": {"type": "ephemeral"}}
            ]}
        ],
        "max_tokens": 100,
        "system": [
            {"type": "text", "text": "Sys1", "cache_control": {"type": "ephemeral"}},
            {"type": "text", "text": "Sys2"}
        ],
        "tools": [
            {"name": "get_weather", "description": "Get weather", "input_schema": {"type": "object"}, "cache_control": {"type": "ephemeral"}}
        ]
    }"#;
    let params = AnthropicMessagesParams::from_text(json).unwrap();
    let internal = params.try_into_params(&Vec::new()).unwrap();

    let spans = internal.cache_control_spans;
    assert_eq!(
        spans.len(),
        6,
        "expected 6 cache_control spans, got {spans:?}"
    );

    // system block 0
    assert!(
        spans
            .iter()
            .any(|s| matches!(s.target, CacheControlTarget::SystemBlock { block_idx: 0 }))
    );
    // message 0, content 0 (text)
    assert!(spans.iter().any(|s| matches!(
        s.target,
        CacheControlTarget::MessageContent {
            message_idx: 0,
            content_idx: 0
        }
    )));
    // message 0, content 1 (image)
    assert!(spans.iter().any(|s| matches!(
        s.target,
        CacheControlTarget::MessageContent {
            message_idx: 0,
            content_idx: 1
        }
    )));
    // message 1, content 0 (tool_use)
    assert!(spans.iter().any(|s| matches!(
        s.target,
        CacheControlTarget::MessageContent {
            message_idx: 1,
            content_idx: 0
        }
    )));
    // message 2, content 0 (tool_result)
    assert!(spans.iter().any(|s| matches!(
        s.target,
        CacheControlTarget::MessageContent {
            message_idx: 2,
            content_idx: 0
        }
    )));
    // tool 0
    assert!(
        spans
            .iter()
            .any(|s| matches!(s.target, CacheControlTarget::Tool { tool_idx: 0 }))
    );
}

fn translate(text: &str) -> Result<anthropic_compatible::inference::Params, String> {
    AnthropicMessagesParams::from_text(text)
        .unwrap()
        .try_into_params(&Vec::new())
        .map_err(|e| {
            assert_eq!(e.status_code(), 400);
            e.to_string()
        })
}

fn with_blocks(blocks: &str) -> Result<anthropic_compatible::inference::Params, String> {
    translate(&format!(
        r#"{{"model": "f", "messages": [{{"role": "user", "content": [{blocks}]}}], "max_tokens": 1}}"#
    ))
}

fn with_fields(fields: &str) -> anthropic_compatible::inference::Params {
    translate(&format!(
        r#"{{"model": "f", "messages": [{{"role": "user", "content": "x"}}], "max_tokens": 1{fields}}}"#
    ))
    .unwrap()
}

#[test]
fn files_that_cannot_be_read_are_refused() {
    assert_eq!(
        with_blocks(r#"{"type": "image", "source": {"type": "base64", "media_type": "png", "data": "x"}}"#)
            .unwrap_err(),
        "Invalid MIME type in base64 image: `png`"
    );
    assert_eq!(
        with_blocks(r#"{"type": "document", "source": {"type": "base64", "media_type": "", "data": "x"}}"#)
            .unwrap_err(),
        "Invalid MIME type in base64 document: ``"
    );
    assert_eq!(
        with_blocks(r#"{"type": "image", "source": {"type": "url", "url": "not a url"}}"#)
            .unwrap_err(),
        "Invalid URL in image content block: `not a url`"
    );
    assert_eq!(
        with_blocks(r#"{"type": "document", "source": {"type": "url", "url": "/doc.pdf"}}"#)
            .unwrap_err(),
        "Invalid URL in document content block: `/doc.pdf`"
    );
}

#[test]
fn urls_and_mime_types_are_normalized() {
    let params = with_blocks(
        r#"{"type": "image", "source": {"type": "url", "url": "HTTPS://Example.COM/a/../b"}},
        {"type": "image", "source": {"type": "base64", "media_type": "IMAGE/PNG", "data": "x"}}"#,
    )
    .unwrap();
    let content = &params.input.messages[0].content;
    match &content[0] {
        InputMessageContent::File(File::Url(f)) => assert_eq!(f.url, "https://example.com/b"),
        other => panic!("Expected File::Url, got {other:?}"),
    }
    match &content[1] {
        InputMessageContent::File(File::Base64(f)) => assert_eq!(f.mime_type, "image/png"),
        other => panic!("Expected File::Base64, got {other:?}"),
    }
}

#[test]
fn data_that_the_engine_refuses() {
    let text = r#"{"model": "f", "messages": [
        {"role": "user", "content": "no files"},
        {"role": "user", "content": [
            {"type": "image", "source": {"type": "base64", "media_type": "image/png", "data": "abc"}},
            {"type": "text", "text": "between"},
            {"type": "document", "source": {"type": "url", "url": "https://h/"}},
            {"type": "document", "source": {"type": "base64", "media_type": "application/pdf", "data": "def"}}
        ]}
    ], "max_tokens": 1}"#;
    let request = || AnthropicMessagesParams::from_text(text).unwrap();
    let sources = request().base64_sources();
    let found: Vec<(&str, &str)> = sources
        .iter()
        .map(|s| (s.media_type.as_str(), s.data.as_str()))
        .collect();
    assert_eq!(found, vec![("image/png", "abc"), ("application/pdf", "def")]);

    let refusal = |media_type: &str, data: &str| Base64Refusal {
        media_type: media_type.to_string(),
        data: data.to_string(),
        reason: "not base64".to_string(),
    };
    let error = |refusals: Vec<Base64Refusal>| {
        request()
            .try_into_params(&refusals)
            .unwrap_err()
            .to_string()
    };
    assert_eq!(
        error(vec![refusal("image/png", "abc")]),
        "Invalid base64 image data: not base64"
    );
    assert_eq!(
        error(vec![refusal("application/pdf", "def")]),
        "Invalid base64 document data: not base64"
    );
    assert!(
        request()
            .try_into_params(&vec![refusal("image/png", "def")])
            .is_ok()
    );
}

#[test]
fn tool_results_are_joined_by_lines() {
    let result = |content: &str| {
        let params = with_blocks(&format!(
            r#"{{"type": "tool_result", "tool_use_id": "t", "content": {content}}}"#
        ))
        .unwrap();
        match params.input.messages.into_iter().next().unwrap().content.into_iter().next() {
            Some(InputMessageContent::ToolResult(r)) => {
                assert_eq!(r.name, "");
                r.result
            }
            other => panic!("Expected ToolResult, got {other:?}"),
        }
    };
    assert_eq!(result(r#""plain""#), "plain");
    assert_eq!(result("[]"), "");
    assert_eq!(
        result(r#"[{"type": "text", "text": "a"}, {"type": "text", "text": "b"}]"#),
        "a\nb"
    );
    assert_eq!(
        result(r#"[{"type": "text", "text": ""}, {"type": "text", "text": "b"}]"#),
        "b"
    );
    assert_eq!(
        result(r#"[{"type": "text", "text": "a"}, {"type": "text", "text": ""}]"#),
        "a\n"
    );
}

#[test]
fn a_later_call_renames_an_id() {
    let params = translate(
        r#"{"model": "f", "messages": [
            {"role": "user", "content": [{"type": "tool_result", "tool_use_id": "t", "content": "x"}]},
            {"role": "assistant", "content": [{"type": "tool_use", "id": "t", "name": "first", "input": {}}]},
            {"role": "assistant", "content": [{"type": "tool_use", "id": "t", "name": "second", "input": {}}]}
        ], "max_tokens": 1}"#,
    )
    .unwrap();
    match &params.input.messages[0].content[0] {
        InputMessageContent::ToolResult(r) => assert_eq!(r.name, "second"),
        other => panic!("Expected ToolResult, got {other:?}"),
    }
}

#[test]
fn empty_thoughts_hold_nothing() {
    let params = with_blocks(r#"{"type": "thinking", "thinking": "", "signature": ""}"#).unwrap();
    match &params.input.messages[0].content[0] {
        InputMessageContent::Thought(t) => {
            assert_eq!(t.text, None);
            assert_eq!(t.signature, None);
            assert_eq!(t.summary, None);
            assert_eq!(t.provider_type, None);
            assert_eq!(t.extra_data, None);
        }
        other => panic!("Expected Thought, got {other:?}"),
    }
}

#[test]
fn tool_arguments_read_as_the_input() {
    let params = with_blocks(
        r#"{"type": "tool_use", "id": "t", "name": "n", "input": {"b": [1, -2, 3.5], "a": {"q": "\"\n"}}}"#,
    )
    .unwrap();
    match &params.input.messages[0].content[0] {
        InputMessageContent::ToolCall(call) => {
            assert_eq!(call.arguments, r#"{"a":{"q":"\"\n"},"b":[1,-2,3.5]}"#);
            let read = parse_json(&call.arguments).unwrap();
            let expected = parse_json(r#"{"b": [1, -2, 3.5], "a": {"q": "\"\n"}}"#).unwrap();
            assert_eq!(read, expected);
        }
        other => panic!("Expected ToolCall, got {other:?}"),
    }
}

#[test]
fn system_blocks_are_joined_by_lines() {
    let text_of = |system: &str| {
        with_fields(&format!(r#", "system": {system}"#))
            .input
            .system
            .map(|System::Text(s)| s)
    };
    assert_eq!(text_of(r#""""#), None);
    assert_eq!(text_of("[]"), None);
    assert_eq!(text_of(r#"[{"type": "text", "text": ""}]"#), None);
    assert_eq!(
        text_of(r#"[{"type": "text", "text": ""}, {"type": "text", "text": ""}]"#),
        Some("\n".to_string())
    );
    assert_eq!(
        text_of(r#"[{"type": "text", "text": "a"}, {"type": "text"}, {"type": "text", "text": "c"}]"#),
        Some("a\n\nc".to_string())
    );
}

#[test]
fn tool_choices_become_the_engines() {
    let choice = |text: &str| with_fields(&format!(r#", "tool_choice": {text}"#)).dynamic_tool_params;
    let auto = choice(r#""auto""#);
    assert!(matches!(auto.tool_choice, Some(ToolChoice::Auto)));
    assert_eq!(auto.parallel_tool_calls, None);
    let any = choice(r#"{"type": "any", "disable_parallel_tool_use": true}"#);
    assert!(matches!(any.tool_choice, Some(ToolChoice::Required)));
    assert_eq!(any.parallel_tool_calls, Some(true));
    let none = choice(r#""none""#);
    assert!(matches!(none.tool_choice, Some(ToolChoice::NoTool)));
    assert!(with_fields("").dynamic_tool_params.tool_choice.is_none());
}

#[test]
fn tools_have_defaults() {
    let params = with_fields(r#", "tools": [{"name": "t", "input_schema": 1}, {"name": "u", "input_schema": 2, "strict": true}]"#);
    let tools = params.dynamic_tool_params.additional_tools.unwrap();
    let Tool::Function(first) = &tools[0];
    assert_eq!(first.description, "");
    assert!(!first.strict);
    assert_eq!(first.parameters, Json::count(1));
    let Tool::Function(second) = &tools[1];
    assert!(second.strict);
}

#[test]
fn extension_parameters_come_first() {
    let params = with_fields(
        r#", "temperature": 0.5, "top_p": 0.25, "stop_sequences": ["a"], "metadata": {"tensorzero": {
            "params": {"chat_completion": {"temperature": 0.75, "seed": 3}}
        }}"#,
    );
    let chat = params.params.chat_completion;
    assert_eq!(chat.temperature, Some(JsonNumber::Fractional("0.75".to_string())));
    assert_eq!(chat.top_p, Some(JsonNumber::Fractional("0.25".to_string())));
    assert_eq!(chat.max_tokens, Some(1));
    assert_eq!(chat.stop_sequences, Some(vec!["a".to_string()]));
    assert_eq!(chat.other.len(), 1);
    assert_eq!(chat.other[0].key, "seed");
}

#[test]
fn a_token_limit_of_zero_is_none() {
    let params = translate(
        r#"{"model": "f", "messages": [{"role": "user", "content": "x"}], "max_tokens": 0}"#,
    )
    .unwrap();
    assert_eq!(params.params.chat_completion.max_tokens, None);
}

#[test]
fn extension_fields_reach_the_engine() {
    let params = with_fields(
        r#", "metadata": {"user_id": "u", "tensorzero": {
            "variant_name": "ignored", "dryrun": true, "namespace": "n", "cache_options": 1,
            "extra_body": 2, "extra_headers": 3, "credentials": {"k": "v"},
            "tags": {"tensorzero::user": "overwritten", "a": "b"}, "include_raw_usage": true
        }}"#,
    );
    assert_eq!(params.variant_name, None);
    assert_eq!(params.dryrun, Some(true));
    assert_eq!(params.namespace, Some("n".to_string()));
    assert_eq!(params.cache_options, Some(Json::count(1)));
    assert_eq!(params.extra_body, Some(Json::count(2)));
    assert_eq!(params.extra_headers, Some(Json::count(3)));
    assert_eq!(params.credentials.get("k"), Some(&"v".to_string()));
    assert_eq!(params.tags.get("tensorzero::user"), Some(&"u".to_string()));
    assert_eq!(params.tags.get("a"), Some(&"b".to_string()));
    assert_eq!(params.tags.pairs().len(), 2);
    assert!(params.include_raw_usage);
    let plain = with_fields("");
    assert_eq!(plain.dryrun, None);
    assert_eq!(plain.stream, None);
    assert!(plain.tags.pairs().is_empty());
    assert!(!plain.include_raw_usage);
    assert!(!plain.internal);
    assert!(plain.cache_control_spans.is_empty());
    let off = with_fields(r#", "metadata": {"tensorzero": {"dryrun": false}}"#);
    assert_eq!(off.dryrun, None);
}

#[test]
fn cache_markers_keep_their_places() {
    let params = translate(
        r#"{"model": "f", "messages": [
            {"role": "user", "content": "plain"},
            {"role": "user", "content": [
                {"type": "thinking", "thinking": "t", "signature": "s"},
                {"type": "text", "text": "a"},
                {"type": "document", "source": {"type": "url", "url": "https://h/"}, "cache_control": {"type": "ephemeral"}}
            ]}
        ], "max_tokens": 1,
        "tools": [{"name": "t", "input_schema": 1}, {"name": "u", "input_schema": 1, "cache_control": {"type": "ephemeral"}}],
        "system": [{"type": "text", "text": "x"}, {"type": "text", "text": "y", "cache_control": {"type": "ephemeral"}}]}"#,
    )
    .unwrap();
    let targets: Vec<CacheControlTarget> =
        params.cache_control_spans.iter().map(|s| s.target).collect();
    assert_eq!(
        targets,
        vec![
            CacheControlTarget::SystemBlock { block_idx: 1 },
            CacheControlTarget::MessageContent {
                message_idx: 1,
                content_idx: 2
            },
            CacheControlTarget::Tool { tool_idx: 1 },
        ]
    );
    assert_eq!(params.input.messages[1].content.len(), 3);
}

#[test]
fn the_first_failing_block_is_reported() {
    assert_eq!(
        with_blocks(
            r#"{"type": "text", "text": "fine"},
            {"type": "image", "source": {"type": "url", "url": "one"}},
            {"type": "image", "source": {"type": "url", "url": "two"}}"#
        )
        .unwrap_err(),
        "Invalid URL in image content block: `one`"
    );
}
