use anthropic_compatible::inference::{
    ChatInferenceResponse, ContentBlockChatOutput, FinishReason, InferenceOutput,
    InferenceResponse, InferenceResponseToolCall, JsonInferenceOutput, JsonInferenceResponse, Text,
    Thought, Unknown, Usage,
};
use anthropic_compatible::json::{Json, JsonEntry};
use anthropic_compatible::outside::{parse_json, print_json};
use anthropic_compatible::provider::{AnthropicCacheControl, AnthropicStopReason};
use anthropic_compatible::types::messages::{
    AnthropicContentBlockOwned, AnthropicResponseContentBlock,
};
use anthropic_compatible::types::response::{
    chat_output_to_anthropic_block, inference_response_to_anthropic, usage_to_anthropic,
};
use anthropic_compatible::types::streaming::AnthropicStreamUsage;

#[test]
fn test_inference_response_to_anthropic_stop_reason() {

    let build_output = |finish_reason: Option<FinishReason>| {
        InferenceOutput::NonStreaming(InferenceResponse::Chat(ChatInferenceResponse {
            inference_id: uuid::Uuid::default().as_u128(),
            episode_id: uuid::Uuid::default().as_u128(),
            variant_name: "test_variant".to_string(),
            content: vec![ContentBlockChatOutput::Text(Text {
                text: "Hello".to_string(),
            })],
            usage: Usage::default(),
            finish_reason,
        }))
    };

    let model_prefix = "tensorzero::function_name::my_function::variant_name::";

    // Stop → EndTurn
    let resp =
        inference_response_to_anthropic(build_output(Some(FinishReason::Stop)), model_prefix)
            .unwrap();
    assert_eq!(resp.stop_reason, Some(AnthropicStopReason::EndTurn));

    // Length → MaxTokens
    let resp =
        inference_response_to_anthropic(build_output(Some(FinishReason::Length)), model_prefix)
            .unwrap();
    assert_eq!(resp.stop_reason, Some(AnthropicStopReason::MaxTokens));

    // ToolCall → ToolUse
    let resp = inference_response_to_anthropic(
        build_output(Some(FinishReason::ToolCall)),
        model_prefix,
    )
    .unwrap();
    assert_eq!(resp.stop_reason, Some(AnthropicStopReason::ToolUse));

    // StopSequence → StopSequence
    let resp = inference_response_to_anthropic(
        build_output(Some(FinishReason::StopSequence)),
        model_prefix,
    )
    .unwrap();
    assert_eq!(resp.stop_reason, Some(AnthropicStopReason::StopSequence));

    // ContentFilter → None
    let resp = inference_response_to_anthropic(
        build_output(Some(FinishReason::ContentFilter)),
        model_prefix,
    )
    .unwrap();
    assert_eq!(resp.stop_reason, None);

    // Unknown → None
    let resp = inference_response_to_anthropic(
        build_output(Some(FinishReason::Unknown)),
        model_prefix,
    )
    .unwrap();
    assert_eq!(resp.stop_reason, None);

    // None → None
    let resp = inference_response_to_anthropic(build_output(None), model_prefix).unwrap();
    assert_eq!(resp.stop_reason, None);
}

#[test]
fn test_inference_response_to_anthropic_unknown_block_handling() {

    let build_output = |content: Vec<ContentBlockChatOutput>| {
        InferenceOutput::NonStreaming(InferenceResponse::Chat(ChatInferenceResponse {
            inference_id: uuid::Uuid::default().as_u128(),
            episode_id: uuid::Uuid::default().as_u128(),
            variant_name: "test_variant".to_string(),
            content,
            usage: Usage::default(),
            finish_reason: Some(FinishReason::Stop),
        }))
    };

    let model_prefix = "tensorzero::function_name::my_function::variant_name::";

    // String data Unknown → RedactedThinking
    let resp = inference_response_to_anthropic(
        build_output(vec![ContentBlockChatOutput::Unknown(Unknown {
            data: Json::String("encrypted-data-here".to_string()),
            model_name: None,
            provider_name: None,
        })]),
        model_prefix,
    )
    .unwrap();
    assert_eq!(resp.content.len(), 1);
    match &resp.content[0] {
        AnthropicResponseContentBlock::RedactedThinking { data } => {
            assert_eq!(data, "encrypted-data-here");
        }
        other => panic!("Expected RedactedThinking, got {other:?}"),
    }

    // Object data Unknown → Text (not RedactedThinking)
    let resp = inference_response_to_anthropic(
        build_output(vec![ContentBlockChatOutput::Unknown(Unknown {
            data: Json::object(vec![
                JsonEntry::new("type", Json::text("tool_use")),
                JsonEntry::new("id", Json::text("tool_123")),
            ]),
            model_name: None,
            provider_name: None,
        })]),
        model_prefix,
    )
    .unwrap();
    assert_eq!(resp.content.len(), 1);
    match &resp.content[0] {
        AnthropicResponseContentBlock::Text { text, .. } => {
            assert!(text.contains("tool_use"));
        }
        other => panic!("Expected Text, got {other:?}"),
    }
}

#[test]
fn test_inference_response_to_anthropic_json_with_raw() {

    let response = InferenceResponse::Json(JsonInferenceResponse {
        inference_id: uuid::Uuid::nil().as_u128(),
        episode_id: uuid::Uuid::nil().as_u128(),
        variant_name: "test_variant".to_string(),
        output: JsonInferenceOutput {
            raw: Some(r#"{"key":"value"}"#.to_string()),
            parsed: Some(parse_json(r#"{"key": "value"}"#).unwrap()),
        },
        usage: Usage::default(),
        finish_reason: None,
    });
    let output = InferenceOutput::NonStreaming(response);
    let resp = inference_response_to_anthropic(output, "tensorzero::").unwrap();

    assert_eq!(resp.content.len(), 1);
    match &resp.content[0] {
        AnthropicResponseContentBlock::Text { text, .. } => {
            assert_eq!(text, r#"{"key":"value"}"#);
        }
        other => panic!("Expected Text, got {other:?}"),
    }
    assert_eq!(resp.model, "tensorzero::test_variant");
    assert!(resp.stop_reason.is_none());
}

#[test]
fn test_inference_response_to_anthropic_json_with_parsed() {

    let response = InferenceResponse::Json(JsonInferenceResponse {
        inference_id: uuid::Uuid::nil().as_u128(),
        episode_id: uuid::Uuid::nil().as_u128(),
        variant_name: "json_func".to_string(),
        output: JsonInferenceOutput {
            raw: None,
            parsed: Some(parse_json(r#"{"count": 42}"#).unwrap()),
        },
        usage: Usage::default(),
        finish_reason: None,
    });
    let output = InferenceOutput::NonStreaming(response);
    let resp = inference_response_to_anthropic(output, "").unwrap();

    assert_eq!(resp.content.len(), 1);
    match &resp.content[0] {
        AnthropicResponseContentBlock::Text { text, .. } => {
            assert!(text.contains("42"));
        }
        other => panic!("Expected Text, got {other:?}"),
    }
    assert_eq!(resp.model, "json_func");
}

fn chat(content: Vec<ContentBlockChatOutput>, usage: Usage) -> InferenceOutput {
    InferenceOutput::NonStreaming(InferenceResponse::Chat(ChatInferenceResponse {
        inference_id: 0x0190_0000_0000_7000_8000_0000_0000_00ab,
        episode_id: 0,
        variant_name: "v".to_string(),
        content,
        usage,
        finish_reason: Some(FinishReason::Stop),
    }))
}

fn tool_call(arguments: &str) -> ContentBlockChatOutput {
    ContentBlockChatOutput::ToolCall(InferenceResponseToolCall {
        id: "t".to_string(),
        raw_name: "n".to_string(),
        raw_arguments: arguments.to_string(),
    })
}

#[test]
fn the_id_of_a_response_is_the_inference_id() {
    let response = inference_response_to_anthropic(chat(Vec::new(), Usage::default()), "p::").unwrap();
    assert_eq!(response.id, "01900000-0000-7000-8000-0000000000ab");
    let id: uuid::Uuid = response.id.parse().unwrap();
    assert_eq!(id.as_u128(), 0x0190_0000_0000_7000_8000_0000_0000_00ab);
    assert_eq!(response.response_type, "message");
    assert_eq!(response.role, "assistant");
    assert_eq!(response.model, "p::v");
    assert_eq!(response.stop_sequence, None);
}

#[test]
fn usage_is_reported() {
    let usage = Usage {
        input_tokens: Some(3),
        output_tokens: None,
        provider_cache_read_input_tokens: Some(2),
        provider_cache_write_input_tokens: None,
        cost: None,
    };
    let response = inference_response_to_anthropic(chat(Vec::new(), usage), "").unwrap();
    assert_eq!(response.usage.input_tokens, 3);
    assert_eq!(response.usage.output_tokens, 0);
    assert_eq!(response.usage.cache_creation_input_tokens, None);
    assert_eq!(response.usage.cache_read_input_tokens, Some(2));
}

#[test]
fn tool_calls_carry_their_input() {
    let block = chat_output_to_anthropic_block(&tool_call(r#"{"a": 1}"#));
    match block {
        AnthropicResponseContentBlock::ToolUse { id, name, input, .. } => {
            assert_eq!(id, "t");
            assert_eq!(name, "n");
            assert_eq!(input, parse_json(r#"{"a": 1}"#).unwrap());
        }
        other => panic!("Expected ToolUse, got {other:?}"),
    }
    match chat_output_to_anthropic_block(&tool_call("{oops")) {
        AnthropicResponseContentBlock::ToolUse { input, .. } => {
            assert_eq!(input, Json::text("{oops"));
        }
        other => panic!("Expected ToolUse, got {other:?}"),
    }
}

#[test]
fn thoughts_are_never_missing() {
    let thought = ContentBlockChatOutput::Thought(Thought {
        text: None,
        signature: Some("s".to_string()),
        summary: None,
        provider_type: None,
        extra_data: None,
    });
    match chat_output_to_anthropic_block(&thought) {
        AnthropicResponseContentBlock::Thinking { thinking, signature } => {
            assert_eq!(thinking, "");
            assert_eq!(signature, "s");
        }
        other => panic!("Expected Thinking, got {other:?}"),
    }
}

#[test]
fn a_json_answer_without_output_is_null() {
    let output = InferenceOutput::NonStreaming(InferenceResponse::Json(JsonInferenceResponse {
        inference_id: 0,
        episode_id: 0,
        variant_name: "v".to_string(),
        output: JsonInferenceOutput {
            raw: None,
            parsed: None,
        },
        usage: Usage::default(),
        finish_reason: Some(FinishReason::Stop),
    }));
    let response = inference_response_to_anthropic(output, "").unwrap();
    assert!(
        matches!(&response.content[0], AnthropicResponseContentBlock::Text { text, .. } if text == "null")
    );
    assert_eq!(response.stop_reason, None);
}

#[test]
fn a_stream_is_no_answer() {
    let error = inference_response_to_anthropic(InferenceOutput::Streaming, "").unwrap_err();
    assert_eq!(error.status_code(), 400);
    assert_eq!(
        error.to_string(),
        "Streaming responses are not expected for non-streaming requests."
    );
}

#[test]
fn responses_are_written_as_json() {
    let usage = Usage {
        input_tokens: Some(1),
        output_tokens: Some(2),
        provider_cache_read_input_tokens: None,
        provider_cache_write_input_tokens: Some(3),
        cost: None,
    };
    let content = vec![
        ContentBlockChatOutput::Text(Text {
            text: "hi".to_string(),
        }),
        tool_call(r#"{"a":1}"#),
        ContentBlockChatOutput::Unknown(Unknown {
            data: Json::text("enc"),
            model_name: None,
            provider_name: None,
        }),
    ];
    let response = inference_response_to_anthropic(chat(content, usage), "p::").unwrap();
    assert_eq!(
        print_json(&response.to_json()),
        concat_lines(&[
            r#"{"content":[{"text":"hi","type":"text"},"#,
            r#"{"id":"t","input":{"a":1},"name":"n","type":"tool_use"},"#,
            r#"{"data":"enc","type":"redacted_thinking"}],"#,
            r#""id":"01900000-0000-7000-8000-0000000000ab","model":"p::v","role":"assistant","#,
            r#""stop_reason":"end_turn","type":"message","#,
            r#""usage":{"cache_creation_input_tokens":3,"input_tokens":1,"output_tokens":2}}"#,
        ])
    );
}

fn concat_lines(lines: &[&str]) -> String {
    lines.concat()
}

#[test]
fn a_response_can_be_sent_back() {
    let blocks = [
        AnthropicResponseContentBlock::Text {
            text: "hi".to_string(),
            cache_control: Some(AnthropicCacheControl::Ephemeral),
        },
        AnthropicResponseContentBlock::ToolUse {
            id: "t".to_string(),
            name: "n".to_string(),
            input: parse_json(r#"{"a": [1]}"#).unwrap(),
            cache_control: None,
        },
        AnthropicResponseContentBlock::Thinking {
            thinking: "hm".to_string(),
            signature: "s".to_string(),
        },
        AnthropicResponseContentBlock::RedactedThinking {
            data: "enc".to_string(),
        },
    ];
    let read: Vec<AnthropicContentBlockOwned> = blocks
        .iter()
        .map(|b| AnthropicContentBlockOwned::from_value(&b.to_json()).unwrap())
        .collect();
    assert!(matches!(
        &read[0],
        AnthropicContentBlockOwned::Text { text, cache_control: Some(AnthropicCacheControl::Ephemeral) } if text == "hi"
    ));
    match &read[1] {
        AnthropicContentBlockOwned::ToolUse { id, name, input, cache_control } => {
            assert_eq!(id, "t");
            assert_eq!(name, "n");
            assert_eq!(*input, parse_json(r#"{"a": [1]}"#).unwrap());
            assert!(cache_control.is_none());
        }
        other => panic!("Expected ToolUse, got {}", other.kind()),
    }
    assert!(matches!(
        &read[2],
        AnthropicContentBlockOwned::Thinking { thinking, signature } if thinking == "hm" && signature == "s"
    ));
    assert!(matches!(
        &read[3],
        AnthropicContentBlockOwned::RedactedThinking { data } if data == "enc"
    ));
}

#[test]
fn streamed_usage_is_the_same() {
    let usage = Usage {
        input_tokens: Some(1),
        output_tokens: None,
        provider_cache_read_input_tokens: Some(2),
        provider_cache_write_input_tokens: Some(3),
        cost: None,
    };
    assert_eq!(
        AnthropicStreamUsage::from(usage).to_json(),
        usage_to_anthropic(&usage).to_json()
    );
    assert_eq!(
        AnthropicStreamUsage::from(&usage),
        AnthropicStreamUsage {
            input_tokens: 1,
            output_tokens: 0,
            cache_creation_input_tokens: Some(3),
            cache_read_input_tokens: Some(2),
        }
    );
}
