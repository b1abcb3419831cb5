use anthropic_compatible::json::{Json, JsonEntry, JsonNumber};
use anthropic_compatible::outside::parse_json;
use anthropic_compatible::types::messages::{
    AnthropicContentBlockOwned, AnthropicMessageContentOwned, AnthropicMessagesParams,
    AnthropicSystem, AnthropicToolChoiceOwned, get_disable_parallel,
};
use anthropic_compatible::types::metadata_reader::uuid_or_message;

#[test]
fn test_deserialize_simple_request() {
    let json = r#"{
        "model": "tensorzero::function_name::test_model",
        "messages": [{"role": "user", "content": "Hello"}],
        "max_tokens": 100
    }"#;
    let params = AnthropicMessagesParams::from_text(json).unwrap();
    assert_eq!(params.model, "tensorzero::function_name::test_model");
    assert_eq!(params.messages.len(), 1);
    assert_eq!(params.max_tokens, 100);
}

#[test]
fn test_deserialize_system_as_string() {
    let json = r#"{
        "model": "test",
        "messages": [{"role": "user", "content": "Hi"}],
        "max_tokens": 100,
        "system": "You are a helpful assistant"
    }"#;
    let params = AnthropicMessagesParams::from_text(json).unwrap();
    match params.system {
        AnthropicSystem::String(s) => assert_eq!(s, "You are a helpful assistant"),
        AnthropicSystem::Blocks(_) => {
            panic!("Expected system string")
        }
    }
}

#[test]
fn test_deserialize_content_blocks() {
    let json = r#"{
        "model": "test",
        "messages": [{
            "role": "user",
            "content": [
                {"type": "text", "text": "Hello"},
                {"type": "tool_use", "id": "tu1", "name": "get_weather", "input": {"location": "NYC"}}
            ]
        }],
        "max_tokens": 100
    }"#;
    let params = AnthropicMessagesParams::from_text(json).unwrap();
    match &params.messages[0].content {
        AnthropicMessageContentOwned::Blocks(blocks) => {
            assert_eq!(blocks.len(), 2);
            match &blocks[0] {
                AnthropicContentBlockOwned::Text { text, .. } => assert_eq!(text, "Hello"),
                other => panic!("Expected Text, got {}", other.kind()),
            }
            match &blocks[1] {
                AnthropicContentBlockOwned::ToolUse { name, .. } => {
                    assert_eq!(name, "get_weather");
                }
                other => panic!("Expected ToolUse, got {}", other.kind()),
            }
        }
        AnthropicMessageContentOwned::String(_) => {
            panic!("Expected Blocks")
        }
    }
}

#[test]
fn test_deserialize_tool_choice() {
    let json = r#"{
        "model": "test",
        "messages": [{"role": "user", "content": "Hi"}],
        "max_tokens": 100,
        "tool_choice": {"type": "tool", "name": "my_tool"}
    }"#;
    let params = AnthropicMessagesParams::from_text(json).unwrap();
    match params.tool_choice {
        Some(AnthropicToolChoiceOwned::Tool { name, .. }) => assert_eq!(name, "my_tool"),
        _ => panic!("Expected Tool variant"),
    }
}

#[test]
fn test_deserialize_thinking_block() {
    let json = r#"{
        "model": "test",
        "messages": [{
            "role": "assistant",
            "content": [
                {"type": "thinking", "thinking": "Let me think", "signature": "abc123"},
                {"type": "text", "text": "The answer is 42"}
            ]
        }],
        "max_tokens": 100
    }"#;
    let params = AnthropicMessagesParams::from_text(json).unwrap();
    match &params.messages[0].content {
        AnthropicMessageContentOwned::Blocks(blocks) => {
            assert_eq!(blocks.len(), 2);
            match &blocks[0] {
                AnthropicContentBlockOwned::Thinking {
                    thinking,
                    signature,
                } => {
                    assert_eq!(thinking, "Let me think");
                    assert_eq!(signature, "abc123");
                }
                other => panic!("Expected Thinking, got {}", other.kind()),
            }
        }
        AnthropicMessageContentOwned::String(_) => {
            panic!("Expected Blocks")
        }
    }
}

#[test]
fn test_deserialize_redacted_thinking() {
    let json = r#"{
        "model": "test",
        "messages": [{
            "role": "assistant",
            "content": [
                {"type": "redacted_thinking", "data": "encrypted"}
            ]
        }],
        "max_tokens": 100
    }"#;
    let params = AnthropicMessagesParams::from_text(json).unwrap();
    match &params.messages[0].content {
        AnthropicMessageContentOwned::Blocks(blocks) => match &blocks[0] {
            AnthropicContentBlockOwned::RedactedThinking { data } => {
                assert_eq!(data, "encrypted");
            }
            other => panic!("Expected RedactedThinking, got {}", other.kind()),
        },
        AnthropicMessageContentOwned::String(_) => {
            panic!("Expected Blocks")
        }
    }
}

#[test]
fn test_deserialize_metadata() {
    let json = r#"{
        "model": "test",
        "messages": [{"role": "user", "content": "Hi"}],
        "max_tokens": 100,
        "metadata": {
            "user_id": "user_42",
            "tensorzero": {
                "episode_id": "00000000-0000-0000-0000-000000000001",
                "tags": {"team": "infra"}
            }
        }
    }"#;
    let params = AnthropicMessagesParams::from_text(json).unwrap();
    let meta = params.metadata.unwrap();
    assert_eq!(meta.user_id, Some("user_42".to_string()));
    let tz = meta.tensorzero.unwrap();
    assert_eq!(tz.tags.get("team"), Some(&"infra".to_string()));
}

#[test]
fn test_tool_choice_string_deserialize() {
    let json = r#""auto""#;
    let choice = AnthropicToolChoiceOwned::deserialize(&parse_json(json).unwrap()).unwrap();
    assert!(matches!(choice, AnthropicToolChoiceOwned::Auto { .. }));

    let json = r#""any""#;
    let choice = AnthropicToolChoiceOwned::deserialize(&parse_json(json).unwrap()).unwrap();
    assert!(matches!(choice, AnthropicToolChoiceOwned::Any { .. }));

    let json = r#""none""#;
    let choice = AnthropicToolChoiceOwned::deserialize(&parse_json(json).unwrap()).unwrap();
    assert!(matches!(choice, AnthropicToolChoiceOwned::NoTool { .. }));
}

#[test]
fn test_tool_choice_object_deserialize() {
    let json = r#"{"type": "auto"}"#;
    let choice = AnthropicToolChoiceOwned::deserialize(&parse_json(json).unwrap()).unwrap();
    assert!(matches!(choice, AnthropicToolChoiceOwned::Auto { .. }));

    let json = r#"{"type": "any", "disable_parallel_tool_use": true}"#;
    let choice = AnthropicToolChoiceOwned::deserialize(&parse_json(json).unwrap()).unwrap();
    assert!(matches!(
        choice,
        AnthropicToolChoiceOwned::Any {
            disable_parallel_tool_use: Some(true)
        }
    ));
}

fn request_with(field: &str) -> Result<AnthropicMessagesParams, String> {
    let text = format!(
        r#"{{"model": "m", "messages": [{{"role": "user", "content": "Hi"}}], "max_tokens": 1{field}}}"#
    );
    AnthropicMessagesParams::from_text(&text)
}

fn message_with(content: &str) -> Result<AnthropicMessagesParams, String> {
    let text = format!(
        r#"{{"model": "m", "messages": [{{"role": "user", "content": {content}}}], "max_tokens": 1}}"#
    );
    AnthropicMessagesParams::from_text(&text)
}

fn first_block(content: &str) -> AnthropicContentBlockOwned {
    let params = message_with(content).unwrap();
    let message = params.messages.into_iter().next().unwrap();
    match message.content {
        AnthropicMessageContentOwned::Blocks(blocks) => blocks.into_iter().next().unwrap(),
        AnthropicMessageContentOwned::String(_) => panic!("Expected Blocks"),
    }
}

#[test]
fn fields_that_are_left_out_have_defaults() {
    let params = request_with("").unwrap();
    assert!(matches!(params.system, AnthropicSystem::String(ref s) if s.is_empty()));
    assert_eq!(params.temperature, None);
    assert_eq!(params.top_p, None);
    assert_eq!(params.top_k, None);
    assert_eq!(params.stop_sequences, None);
    assert!(!params.stream);
    assert!(params.tools.is_none());
    assert!(params.tool_choice.is_none());
    assert!(params.metadata.is_none());
    assert!(params.service_tier.is_none());
    assert!(params.container.is_none());
    let text = r#"{"model": "m", "messages": [{"role": "user"}], "max_tokens": 1}"#;
    let params = AnthropicMessagesParams::from_text(text).unwrap();
    assert!(
        matches!(params.messages[0].content, AnthropicMessageContentOwned::String(ref s) if s.is_empty())
    );
}

#[test]
fn optional_fields_may_be_null() {
    let params = request_with(
        r#", "temperature": null, "top_p": null, "top_k": null, "stop_sequences": null,
        "tools": null, "tool_choice": null, "metadata": null, "service_tier": null,
        "container": null"#,
    )
    .unwrap();
    assert!(params.tools.is_none());
    assert!(params.metadata.is_none());
    assert!(request_with(r#", "stream": null"#).is_err());
}

#[test]
fn fields_that_are_not_known_are_ignored() {
    assert!(request_with(r#", "mystery": {"a": [1]}"#).is_ok());
}

#[test]
fn required_fields_are_required() {
    let missing = |text: &str| AnthropicMessagesParams::from_text(text).unwrap_err();
    assert_eq!(
        missing(r#"{"messages": [], "max_tokens": 1}"#),
        "missing field `model`"
    );
    assert_eq!(
        missing(r#"{"model": "m", "max_tokens": 1}"#),
        "missing field `messages`"
    );
    assert_eq!(
        missing(r#"{"model": "m", "messages": []}"#),
        "missing field `max_tokens`"
    );
    assert_eq!(
        missing(r#"{"model": "m", "messages": [{"content": "x"}], "max_tokens": 1}"#),
        "missing field `role`"
    );
    assert_eq!(
        missing(r#"{"model": null, "messages": [], "max_tokens": 1}"#),
        "invalid type: null, expected a string"
    );
    assert!(AnthropicMessagesParams::from_text("{").is_err());
    assert!(AnthropicMessagesParams::from_text("3").is_err());
}

#[test]
fn numbers_have_their_ranges() {
    let with_max = |max: &str| {
        AnthropicMessagesParams::from_text(&format!(
            r#"{{"model": "m", "messages": [], "max_tokens": {max}}}"#
        ))
    };
    assert_eq!(with_max("4294967295").unwrap().max_tokens, 4294967295);
    assert!(with_max("4294967296").is_err());
    assert!(with_max("-1").is_err());
    assert!(with_max("1.0").is_err());
    assert!(with_max("\"1\"").is_err());
    assert_eq!(request_with(r#", "top_k": -5"#).unwrap().top_k, Some(-5));
    assert_eq!(
        request_with(r#", "top_k": 2147483647"#).unwrap().top_k,
        Some(2147483647)
    );
    assert!(request_with(r#", "top_k": 2147483648"#).is_err());
    assert_eq!(
        request_with(r#", "top_k": -2147483648"#).unwrap().top_k,
        Some(-2147483648)
    );
    assert!(request_with(r#", "top_k": -2147483649"#).is_err());
}

#[test]
fn system_prompts() {
    let params = request_with(
        r#", "system": [{"type": "text", "text": "a", "cache_control": {"type": "ephemeral"}}, {"type": "text"}]"#,
    )
    .unwrap();
    assert!(matches!(params.system, AnthropicSystem::Blocks(ref b) if b.len() == 2));
    assert_eq!(
        request_with(r#", "system": 3"#).unwrap_err(),
        "system must be a string or array of content blocks"
    );
    assert_eq!(
        request_with(r#", "system": null"#).unwrap_err(),
        "system must be a string or array of content blocks"
    );
    assert_eq!(
        request_with(r#", "system": [{"type": "image"}]"#).unwrap_err(),
        "Unknown system content block type: image"
    );
    assert_eq!(
        request_with(r#", "system": [{"text": "a"}]"#).unwrap_err(),
        "missing field `type`"
    );
    assert_eq!(
        request_with(r#", "system": [{"type": "text", "cache_control": {"type": "forever"}}]"#)
            .unwrap_err(),
        "unknown variant `forever`, expected `ephemeral`"
    );
}

#[test]
fn message_content_is_text_or_blocks() {
    let expected = "message content must be a string or array of content blocks";
    assert_eq!(message_with("7").unwrap_err(), expected);
    assert_eq!(message_with("null").unwrap_err(), expected);
    assert_eq!(message_with("{}").unwrap_err(), expected);
    assert_eq!(
        message_with(r#"[{"type": "video"}]"#).unwrap_err(),
        "Unknown content block type: video"
    );
    assert_eq!(message_with("[{}]").unwrap_err(), "missing field `type`");
    assert_eq!(
        message_with(r#"["text"]"#).unwrap_err(),
        r#"invalid type: string "text", expected struct BlockHeader"#
    );
}

#[test]
fn the_first_bad_block_is_reported() {
    assert_eq!(
        message_with(r#"[{"type": "text", "text": "a"}, {"type": "one"}, {"type": "two"}]"#)
            .unwrap_err(),
        "Unknown content block type: one"
    );
}

#[test]
fn blocks_need_their_fields() {
    let error = |block: &str| message_with(&format!("[{block}]")).unwrap_err();
    assert_eq!(error(r#"{"type": "text"}"#), "missing field `text`");
    assert_eq!(error(r#"{"type": "image"}"#), "missing field `source`");
    assert_eq!(error(r#"{"type": "document"}"#), "missing field `source`");
    assert_eq!(
        error(r#"{"type": "tool_use", "name": "n", "input": {}}"#),
        "missing field `id`"
    );
    assert_eq!(
        error(r#"{"type": "tool_use", "id": "i", "input": {}}"#),
        "missing field `name`"
    );
    assert_eq!(
        error(r#"{"type": "tool_use", "id": "i", "name": "n"}"#),
        "missing field `input`"
    );
    assert_eq!(
        error(r#"{"type": "tool_result", "content": "x"}"#),
        "missing field `tool_use_id`"
    );
    assert_eq!(
        error(r#"{"type": "tool_result", "tool_use_id": "t"}"#),
        "tool_result content must be string or array"
    );
    assert_eq!(
        error(r#"{"type": "tool_result", "tool_use_id": "t", "content": 1}"#),
        "tool_result content must be string or array"
    );
    assert_eq!(
        error(r#"{"type": "thinking", "signature": "s"}"#),
        "missing field `thinking`"
    );
    assert_eq!(
        error(r#"{"type": "thinking", "thinking": "t"}"#),
        "missing field `signature`"
    );
    assert_eq!(
        error(r#"{"type": "redacted_thinking"}"#),
        "missing field `data`"
    );
    assert_eq!(
        error(r#"{"type": "image", "source": {"type": "file"}}"#),
        "unknown variant `file`, expected `base64` or `url`"
    );
    assert_eq!(
        error(r#"{"type": "image", "source": {"type": "base64", "data": "d"}}"#),
        "missing field `media_type`"
    );
    assert_eq!(
        error(r#"{"type": "document", "source": {"type": "url"}}"#),
        "missing field `url`"
    );
    assert_eq!(
        error(r#"{"type": "tool_result", "tool_use_id": "t", "content": "x", "is_error": 1}"#),
        "invalid type: integer `1`, expected a boolean"
    );
}

#[test]
fn tool_results_hold_text_or_blocks() {
    match first_block(
        r#"[{"type": "tool_result", "tool_use_id": "t", "content": "x", "is_error": true}]"#,
    ) {
        AnthropicContentBlockOwned::ToolResult {
            tool_use_id,
            content,
            is_error,
            cache_control,
        } => {
            assert_eq!(tool_use_id, "t");
            assert_eq!(content.len(), 1);
            assert!(
                matches!(&content[0], AnthropicContentBlockOwned::Text { text, .. } if text == "x")
            );
            assert_eq!(is_error, Some(true));
            assert!(cache_control.is_none());
        }
        other => panic!("Expected ToolResult, got {}", other.kind()),
    }
    match first_block(
        r#"[{"type": "tool_result", "tool_use_id": "t", "content": [
            {"type": "tool_result", "tool_use_id": "u", "content": [{"type": "text", "text": "deep"}]}
        ]}]"#,
    ) {
        AnthropicContentBlockOwned::ToolResult { content, .. } => match &content[0] {
            AnthropicContentBlockOwned::ToolResult { content, .. } => assert!(
                matches!(&content[0], AnthropicContentBlockOwned::Text { text, .. } if text == "deep")
            ),
            other => panic!("Expected ToolResult, got {}", other.kind()),
        },
        other => panic!("Expected ToolResult, got {}", other.kind()),
    }
}

#[test]
fn records_may_be_arrays() {
    let params =
        AnthropicMessagesParams::from_text(r#"["m", [["user", "Hi"]], "s", 5]"#).unwrap();
    assert_eq!(params.model, "m");
    assert_eq!(params.max_tokens, 5);
    assert!(
        matches!(&params.messages[0].content, AnthropicMessageContentOwned::String(s) if s == "Hi")
    );
    assert_eq!(
        AnthropicMessagesParams::from_text(r#"["m", [["user", "Hi", 1]], "s", 5]"#).unwrap_err(),
        "trailing characters"
    );
    match first_block(r#"[{"type": "image", "source": ["base64", "image/png", "abc"]}]"#) {
        AnthropicContentBlockOwned::Image { .. } => {}
        other => panic!("Expected Image, got {}", other.kind()),
    }
}

#[test]
fn roles() {
    let with_role = |role: &str| {
        AnthropicMessagesParams::from_text(&format!(
            r#"{{"model": "m", "messages": [{{"role": {role}, "content": "x"}}], "max_tokens": 1}}"#
        ))
    };
    assert!(with_role(r#""assistant""#).is_ok());
    assert!(with_role(r#"{"user": null}"#).is_ok());
    assert_eq!(
        with_role(r#""system""#).unwrap_err(),
        "unknown variant `system`, expected `user` or `assistant`"
    );
    assert_eq!(
        with_role(r#"{"user": 1}"#).unwrap_err(),
        "invalid type: integer `1`, expected unit"
    );
    assert_eq!(
        with_role(r#"{"user": null, "user": null}"#).unwrap_err(),
        "invalid value: map, expected map with a single key"
    );
    assert_eq!(
        with_role("1").unwrap_err(),
        "invalid type: integer `1`, expected string or map"
    );
}

#[test]
fn repeated_fields_are_refused() {
    let error = |text: &str| AnthropicMessagesParams::from_text(text).unwrap_err();
    assert_eq!(
        error(r#"{"model": "a", "model": "b", "messages": [], "max_tokens": 1}"#),
        "duplicate field `model`"
    );
    assert_eq!(
        error(
            r#"{"model": "a", "messages": [{"role": "user", "content": "x", "content": "y"}], "max_tokens": 1}"#
        ),
        "duplicate field `content`"
    );
    assert_eq!(
        request_with(r#", "tools": [{"name": "a", "input_schema": 1, "input_schema": 2}]"#)
            .unwrap_err(),
        "duplicate field `input_schema`"
    );
    assert_eq!(
        request_with(
            r#", "tools": [{"name": "a", "input_schema": 1, "cache_control": {"type": "ephemeral", "type": "ephemeral"}}]"#
        )
        .unwrap_err(),
        "duplicate field `type`"
    );
    assert_eq!(
        request_with(r#", "metadata": {"user_id": "a", "user_id": null}"#).unwrap_err(),
        "duplicate field `user_id`"
    );
    assert_eq!(
        request_with(r#", "metadata": {"tensorzero": {"tags": {}, "dryrun": true, "tags": {}}}"#)
            .unwrap_err(),
        "duplicate field `tags`"
    );
    assert_eq!(
        request_with(
            r#", "metadata": {"tensorzero": {"params": {"chat_completion": {"top_p": 1, "top_p": 2}}}}"#
        )
        .unwrap_err(),
        "duplicate field `top_p`"
    );
    let params = request_with(r#", "unknown": 1, "unknown": 2"#).unwrap();
    assert_eq!(params.max_tokens, 1);
}

#[test]
fn values_keep_the_last_of_repeated_keys() {
    match first_block(r#"[{"type": "image", "text": "a", "type": "text", "text": "b"}]"#) {
        AnthropicContentBlockOwned::Text { text, .. } => assert_eq!(text, "b"),
        other => panic!("Expected Text, got {}", other.kind()),
    }
    let params = request_with(r#", "metadata": {"tensorzero": {"tags": {"k": "1", "k": "2"}}}"#)
        .unwrap();
    let tags = params.metadata.unwrap().tensorzero.unwrap().tags;
    assert_eq!(tags.get("k"), Some(&"2".to_string()));
}

#[test]
fn what_is_ignored_is_skipped() {
    let deep = format!("{}{}", "[".repeat(500), "]".repeat(500));
    for value in ["1e999", deep.as_str(), r#"{"a": 1e999, "a": [" }] "]}"#] {
        assert!(request_with(&format!(r#", "mystery" : {value} "#)).is_ok());
        assert!(request_with(&format!(r#", "metadata": {{"x": {value}}}"#)).is_ok());
        assert!(request_with(&format!(r#", "system": [{value}]"#)).is_err());
        let text = format!(
            r#"{{"model": "m", "messages": [{{"x": {value}, "role": "user"}}], "max_tokens": 1}}"#
        );
        assert!(AnthropicMessagesParams::from_text(&text).is_ok());
    }
    assert!(request_with(r#", "temperature": 1e999"#).is_err());
    assert!(request_with(r#", "mystery": 01"#).is_err());
    assert!(request_with(r#", "mystery": 1, "#).is_err());
    assert!(AnthropicMessagesParams::from_text("[\"m\", [], \"\", 1] x").is_err());
}

#[test]
fn space_may_stand_between_the_parts() {
    let params = AnthropicMessagesParams::from_text(
        " {\n\t\"model\" : \"m\" ,\r\n \"messages\":[ { \"role\" : \"user\" } , [ \"assistant\" , \"x\" ] ] , \"max_tokens\" :1 } ",
    )
    .unwrap();
    assert_eq!(params.model, "m");
    assert_eq!(params.messages.len(), 2);
    let params =
        AnthropicMessagesParams::from_text(r#"{"m\u006fdel": "m", "messages": [], "max_tokens": 1}"#)
            .unwrap();
    assert_eq!(params.model, "m");
}

#[test]
fn values_are_nested_up_to_the_limit() {
    let nested = |depth: usize| format!("{}{}", "[".repeat(depth), "]".repeat(depth));
    let with_schema = |depth: usize| {
        request_with(&format!(
            r#", "tools": [{{"name": "t", "input_schema": {}}}]"#,
            nested(depth)
        ))
    };
    assert!(with_schema(124).is_ok());
    assert_eq!(with_schema(125).unwrap_err(), "recursion limit exceeded");
}

#[test]
fn the_first_error_in_the_text_is_reported() {
    let error = |text: &str| AnthropicMessagesParams::from_text(text).unwrap_err();
    assert_eq!(
        error(r#"{"max_tokens": "1", "model": 2}"#),
        r#"invalid type: string "1", expected u32"#
    );
    assert_eq!(
        error(r#"{"model": 2, "max_tokens": "1"}"#),
        "invalid type: integer `2`, expected a string"
    );
    assert_eq!(
        error(r#"{"max_tokens": 4294967296, "model": 2}"#),
        "invalid value: integer `4294967296`, expected u32"
    );
    assert_eq!(
        error(r#"{"max_tokens": 1e2}"#),
        "invalid type: floating point `100.0`, expected u32"
    );
    assert_eq!(
        error(r#"{"messages": [{"content": "x"}, {"role": 1}], "model": 2}"#),
        "missing field `role`"
    );
    assert_eq!(
        error(r#"{"temperature": true}"#),
        "invalid type: boolean `true`, expected f32"
    );
    assert_eq!(
        error(r#"["m", []]"#),
        "invalid length 3, expected struct AnthropicMessagesParams with 14 elements"
    );
    assert_eq!(
        error("7"),
        "invalid type: integer `7`, expected struct AnthropicMessagesParams"
    );
}

#[test]
fn a_value_is_read_as_its_text() {
    let text = r#"{"model": "m", "messages": [{"role": "user", "content": "Hi"}], "max_tokens": 3, "stream": true}"#;
    let from_value = AnthropicMessagesParams::from_value(&parse_json(text).unwrap()).unwrap();
    let from_text = AnthropicMessagesParams::from_text(text).unwrap();
    assert_eq!(from_value.model, from_text.model);
    assert_eq!(from_value.messages.len(), from_text.messages.len());
    assert_eq!(from_value.max_tokens, 3);
    assert!(from_value.stream && from_text.stream);
    let repeated = Json::object(vec![
        JsonEntry::new("model", Json::text("a")),
        JsonEntry::new("model", Json::text("b")),
    ]);
    assert_eq!(
        AnthropicMessagesParams::from_value(&repeated).unwrap_err(),
        "duplicate field `model`"
    );
    let long = Json::array(vec![Json::text("text"), Json::Null]);
    assert_eq!(
        AnthropicContentBlockOwned::from_value(&long).unwrap_err(),
        "invalid length 2, expected fewer elements in array"
    );
}

#[test]
fn source_errors() {
    let error = |source: &str| {
        message_with(&format!(r#"[{{"type": "image", "source": {source}}}]"#)).unwrap_err()
    };
    assert_eq!(
        error(r#""x""#),
        r#"invalid type: string "x", expected internally tagged enum AnthropicImageSourceOwned"#
    );
    assert_eq!(error("{}"), "missing field `type`");
    assert_eq!(error("[]"), "missing field `type`");
    assert_eq!(
        error(r#"{"type": 1}"#),
        "invalid type: integer `1`, expected variant identifier"
    );
    assert_eq!(
        error(r#"["base64", "image/png"]"#),
        "invalid length 1, expected struct variant AnthropicImageSourceOwned::Base64 with 2 elements"
    );
    assert_eq!(
        error(r#"["url", "u", "v"]"#),
        "invalid length 2, expected 1 element in sequence"
    );
    assert_eq!(
        error(r#"["url"]"#),
        "invalid length 0, expected struct variant AnthropicImageSourceOwned::Url with 1 element"
    );
    assert_eq!(
        error(r#"{"type": "url", "url": null}"#),
        "invalid type: null, expected a string"
    );
    assert_eq!(
        message_with(r#"[{"type": "document", "source": true}]"#).unwrap_err(),
        "invalid type: boolean `true`, expected internally tagged enum AnthropicDocumentSourceOwned"
    );
}

#[test]
fn parsed_identifiers_are_passed_on() {
    assert_eq!(uuid_or_message(Ok(7)), Ok(7));
    assert_eq!(
        uuid_or_message(Err("bad".to_string())),
        Err("UUID parsing failed: bad".to_string())
    );
}

#[test]
fn tool_choice_errors() {
    let error = |text: &str| {
        AnthropicToolChoiceOwned::deserialize(&parse_json(text).unwrap()).unwrap_err()
    };
    assert_eq!(
        error(r#""tool""#),
        "Invalid tool choice string: tool. Expected 'auto', 'any', or 'none'."
    );
    assert_eq!(
        error("{}"),
        "Tool choice must have a 'type' field if it is an object"
    );
    assert_eq!(
        error(r#"{"type": 1}"#),
        "Tool choice 'type' field must be a string"
    );
    assert_eq!(
        error(r#"{"type": "some"}"#),
        "Invalid tool choice type: some"
    );
    assert_eq!(error("[]"), "Tool choice must be a string or object");
    assert_eq!(error(r#"{"type": "tool"}"#), "missing field `name`");
    assert_eq!(
        error(r#"{"type": "auto", "disable_parallel_tool_use": "no"}"#),
        r#"invalid type: string "no", expected a boolean"#
    );
}

#[test]
fn tool_choices_say_whether_calls_are_parallel() {
    let read = |text: &str| {
        AnthropicToolChoiceOwned::deserialize(&parse_json(text).unwrap()).unwrap()
    };
    assert_eq!(
        get_disable_parallel(&read(r#"{"type": "none", "disable_parallel_tool_use": false}"#)),
        Some(false)
    );
    assert_eq!(
        get_disable_parallel(&read(
            r#"{"type": "tool", "name": "t", "disable_parallel_tool_use": true}"#
        )),
        Some(true)
    );
    assert_eq!(get_disable_parallel(&read(r#""auto""#)), None);
    assert_eq!(get_disable_parallel(&read(r#"{"type": "any"}"#)), None);
}

#[test]
fn tools_are_read() {
    let params = request_with(
        r#", "tools": [{"name": "t", "input_schema": {"type": "object"}, "strict": true, "cache_control": {"type": "ephemeral"}}]"#,
    )
    .unwrap();
    let tools = params.tools.unwrap();
    assert_eq!(tools[0].name, "t");
    assert_eq!(tools[0].description, None);
    assert_eq!(tools[0].strict, Some(true));
    assert!(tools[0].cache_control.is_some());
    assert_eq!(
        request_with(r#", "tools": [{"name": "t"}]"#).unwrap_err(),
        "missing field `input_schema`"
    );
    assert_eq!(
        request_with(r#", "tools": {}"#).unwrap_err(),
        "invalid type: map, expected a sequence"
    );
}

#[test]
fn extension_fields_are_read() {
    let params = request_with(
        r#", "metadata": {"tensorzero": {
            "episode_id": "urn:uuid:00000000-0000-0000-0000-0000000000ff",
            "variant_name": "v",
            "cache_options": {"enabled": "on"},
            "extra_body": [1],
            "extra_headers": [2],
            "dryrun": true,
            "namespace": "n",
            "credentials": {"k": "s"},
            "params": {"chat_completion": {"temperature": 1, "max_tokens": 9, "seed": 4}},
            "include_raw_usage": true
        }}"#,
    )
    .unwrap();
    let extension = params.metadata.unwrap().tensorzero.unwrap();
    assert_eq!(extension.episode_id, Some(255));
    assert_eq!(extension.variant_name, Some("v".to_string()));
    assert_eq!(extension.cache_options, parse_json(r#"{"enabled": "on"}"#).ok());
    assert_eq!(extension.extra_body, parse_json("[1]").ok());
    assert_eq!(extension.extra_headers, parse_json("[2]").ok());
    assert_eq!(extension.dryrun, Some(true));
    assert_eq!(extension.namespace, Some("n".to_string()));
    assert_eq!(extension.credentials.get("k"), Some(&"s".to_string()));
    assert_eq!(extension.include_raw_usage, Some(true));
    let chat = extension.params.unwrap().chat_completion;
    assert_eq!(chat.temperature, Some(JsonNumber::Unsigned(1)));
    assert_eq!(chat.max_tokens, Some(9));
    assert_eq!(chat.other, vec![JsonEntry::new("seed", Json::count(4))]);
}

#[test]
fn extension_field_errors() {
    let error = |fields: &str| {
        request_with(&format!(r#", "metadata": {{"tensorzero": {{{fields}}}}}"#)).unwrap_err()
    };
    assert_eq!(
        error(r#""episode_id": "not-a-uuid""#),
        format!(
            "UUID parsing failed: {}",
            uuid::Uuid::parse_str("not-a-uuid").unwrap_err()
        )
    );
    assert_eq!(
        error(r#""tags": {"a": 1}"#),
        "invalid type: integer `1`, expected a string"
    );
    assert_eq!(error(r#""tags": []"#), "invalid type: sequence, expected a map");
    assert_eq!(
        error(r#""dryrun": "yes""#),
        r#"invalid type: string "yes", expected a boolean"#
    );
    assert_eq!(
        error(r#""params": 1"#),
        "invalid type: integer `1`, expected struct InferenceParams"
    );
    assert_eq!(
        error(r#""episode_id": -5"#),
        "invalid type: integer `-5`, expected a formatted UUID string"
    );
    assert_eq!(
        error(r#""params": {"chat_completion": {"max_tokens": -1}}"#),
        "invalid value: integer `-1`, expected u32"
    );
}

#[test]
fn kinds_name_the_blocks() {
    let kinds = [
        (r#"{"type": "text", "text": ""}"#, "text"),
        (r#"{"type": "image", "source": {"type": "url", "url": ""}}"#, "image"),
        (r#"{"type": "document", "source": {"type": "url", "url": ""}}"#, "document"),
        (r#"{"type": "tool_use", "id": "", "name": "", "input": null}"#, "tool_use"),
        (r#"{"type": "tool_result", "tool_use_id": "", "content": []}"#, "tool_result"),
        (r#"{"type": "thinking", "thinking": "", "signature": ""}"#, "thinking"),
        (r#"{"type": "redacted_thinking", "data": ""}"#, "redacted_thinking"),
    ];
    for (block, kind) in kinds {
        assert_eq!(first_block(&format!("[{block}]")).kind(), kind);
    }
}
