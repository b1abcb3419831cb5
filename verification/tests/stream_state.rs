use anthropic_compatible::inference::{
    ChatInferenceResponseChunk, ContentBlockChunk, FinishReason, InferenceResponseChunk, TextChunk,
    ThoughtChunk, ToolCallChunk, UnknownChunk, Usage,
};
use anthropic_compatible::json::Json;
use anthropic_compatible::provider::AnthropicStopReason;
use anthropic_compatible::types::stream_state::AnthropicStreamState;
use anthropic_compatible::types::streaming::AnthropicStreamMessage;
use uuid::Uuid;

fn make_chat_chunk(
    inference_id: Uuid,
    episode_id: Uuid,
    content: Vec<ContentBlockChunk>,
    usage: Option<Usage>,
    finish_reason: Option<FinishReason>,
) -> InferenceResponseChunk {
    InferenceResponseChunk::Chat(ChatInferenceResponseChunk {
        inference_id: inference_id.as_u128(),
        episode_id: episode_id.as_u128(),
        variant_name: "test".to_string(),
        content,
        usage,
        finish_reason,
    })
}

fn assert_event_type(events: &[AnthropicStreamMessage], idx: usize, expected_type: &str) {
    let found = match &events[idx] {
        AnthropicStreamMessage::MessageStart { response_type, .. } => response_type.as_str(),
        AnthropicStreamMessage::ContentBlockStart { content_type, .. } => content_type.as_str(),
        AnthropicStreamMessage::ContentBlockDelta { delta_type, .. } => delta_type.as_str(),
        AnthropicStreamMessage::ContentBlockStop { .. } => "content_block_stop",
        AnthropicStreamMessage::MessageDelta { delta_type, .. } => delta_type.as_str(),
        AnthropicStreamMessage::MessageStop => "message_stop",
    };
    assert_eq!(found, expected_type, "event type mismatch at index {idx}");
}

// Text-only stream
#[test]
fn test_text_only_stream() {
    let inference_id = Uuid::from_u128(0x0190_0000_0000_7000_8000_0000_0000_0001);
    let episode_id = Uuid::from_u128(0x0190_0000_0000_7000_8000_0000_0000_0001);
    let model = "test_model";
    let mut state = AnthropicStreamState::default();

    // Chunk 1: first text block starts.
    let chunk = make_chat_chunk(
        inference_id,
        episode_id,
        vec![ContentBlockChunk::Text(TextChunk {
            id: "1".to_string(),
            text: "Hello".to_string(),
        })],
        Some(Usage {
            input_tokens: Some(10),
            output_tokens: Some(5),
            provider_cache_read_input_tokens: None,
            provider_cache_write_input_tokens: None,
            cost: None,
        }),
        None,
    );

    let events = state.process_chunk(&chunk, &inference_id.to_string(), model);
    assert_eq!(
        events.len(),
        3,
        "should emit message_start + content_block_start + content_block_delta"
    );
    assert_event_type(&events, 0, "message");
    assert_event_type(&events, 1, "text");
    assert_event_type(&events, 2, "text_delta");

    // Chunk 2: text delta continues.
    let chunk2 = make_chat_chunk(
        inference_id,
        episode_id,
        vec![ContentBlockChunk::Text(TextChunk {
            id: "1".to_string(),
            text: " World".to_string(),
        })],
        Some(Usage {
            input_tokens: None,
            output_tokens: Some(3),
            provider_cache_read_input_tokens: None,
            provider_cache_write_input_tokens: None,
            cost: None,
        }),
        None,
    );

    let events2 = state.process_chunk(&chunk2, &inference_id.to_string(), model);
    assert_eq!(events2.len(), 1, "should emit only content_block_delta");
    assert_event_type(&events2, 0, "text_delta");

    // Finalize.
    let final_events = state.finalize();
    assert_eq!(
        final_events.len(),
        2,
        "should emit message_delta + message_stop"
    );
    assert_event_type(&final_events, 0, "message_delta");
    assert_event_type(&final_events, 1, "message_stop");

    // Check aggregated usage: 5 + 3 = 8 output tokens.
    let message_delta = &final_events[0];
    if let AnthropicStreamMessage::MessageDelta { usage, .. } = message_delta {
        assert_eq!(
            usage.output_tokens, 8,
            "output tokens should be aggregated: 5 + 3"
        );
        assert_eq!(
            usage.input_tokens, 10,
            "input tokens should be accumulated (only first chunk has it)"
        );
    } else {
        panic!("expected MessageDelta");
    }
}

// Tool-only stream (one tool call)
#[test]
fn test_tool_only_stream() {
    let inference_id = Uuid::from_u128(0x0190_0000_0000_7000_8000_0000_0000_0001);
    let episode_id = Uuid::from_u128(0x0190_0000_0000_7000_8000_0000_0000_0001);
    let mut state = AnthropicStreamState::default();

    let chunk = make_chat_chunk(
        inference_id,
        episode_id,
        vec![ContentBlockChunk::ToolCall(ToolCallChunk {
            id: "tool_1".to_string(),
            raw_name: Some("get_weather".to_string()),
            raw_arguments: r#"{"location":"Tokyo"}"#.to_string(),
        })],
        None,
        None,
    );

    let events = state.process_chunk(&chunk, &inference_id.to_string(), "test_model");
    assert_eq!(
        events.len(),
        3,
        "should emit content_block_start + input_json_delta (+ message_start was emitted first)"
    );
    // message_start is only emitted on first chunk (events.is_empty check inside process_chunk)
    // Actually the first chunk always emits message_start, so:
    // message_start, content_block_start, content_block_delta(input_json_delta)
    assert_event_type(&events, 0, "message");
    assert_event_type(&events, 1, "tool_use");
    assert_event_type(&events, 2, "input_json_delta");

    // Finalize without finish reason (no ToolCall finish reason since model hasn't stopped).
    let final_events = state.finalize();
    assert_eq!(final_events.len(), 2);
    assert_event_type(&final_events, 0, "message_delta");
    assert_event_type(&final_events, 1, "message_stop");
}

// Mixed text → tool_use → text
#[test]
fn test_mixed_text_tool_use_text() {
    let inference_id = Uuid::from_u128(0x0190_0000_0000_7000_8000_0000_0000_0001);
    let episode_id = Uuid::from_u128(0x0190_0000_0000_7000_8000_0000_0000_0001);
    let mut state = AnthropicStreamState::default();

    // Chunk 1: initial text.
    let chunk1 = make_chat_chunk(
        inference_id,
        episode_id,
        vec![ContentBlockChunk::Text(TextChunk {
            id: "1".to_string(),
            text: "Let me check.".to_string(),
        })],
        None,
        None,
    );
    let events1 = state.process_chunk(&chunk1, &inference_id.to_string(), "model");
    assert_eq!(events1.len(), 3); // message_start + block_start + delta
    assert_event_type(&events1, 1, "text");

    // Chunk 2: tool_use — closes text block, opens tool block.
    let chunk2 = make_chat_chunk(
        inference_id,
        episode_id,
        vec![ContentBlockChunk::ToolCall(ToolCallChunk {
            id: "tool_1".to_string(),
            raw_name: Some("search".to_string()),
            raw_arguments: r#"{"query":"weather"}"#.to_string(),
        })],
        None,
        None,
    );
    let events2 = state.process_chunk(&chunk2, &inference_id.to_string(), "model");
    assert!(
        events2.len() >= 2,
        "should close text block and open tool block, got {events2:?}"
    );
    // Find the content_block_stop and check ordering
    let has_stop = events2
        .iter()
        .any(|e| matches!(e, AnthropicStreamMessage::ContentBlockStop { .. }));
    assert!(
        has_stop,
        "should have a content_block_stop closing text block"
    );

    // Chunk 3: more text after tool_use — closes tool block, opens new text block.
    let chunk3 = make_chat_chunk(
        inference_id,
        episode_id,
        vec![ContentBlockChunk::Text(TextChunk {
            id: "2".to_string(),
            text: "Done!".to_string(),
        })],
        None,
        None,
    );
    let events3 = state.process_chunk(&chunk3, &inference_id.to_string(), "model");
    let has_tool_stop = events3
        .iter()
        .any(|e| matches!(e, AnthropicStreamMessage::ContentBlockStop { .. }));
    assert!(
        has_tool_stop,
        "should close tool block before opening text block"
    );

    // Finalize: verify total blocks.
    let final_events = state.finalize();
    assert_event_type(&final_events, 0, "message_delta");
    assert_event_type(&final_events, 1, "message_stop");
}

// Thinking + text (reasoning models)
#[test]
fn test_thinking_then_text() {
    let inference_id = Uuid::from_u128(0x0190_0000_0000_7000_8000_0000_0000_0001);
    let episode_id = Uuid::from_u128(0x0190_0000_0000_7000_8000_0000_0000_0001);
    let mut state = AnthropicStreamState::default();

    // Chunk 1: thinking block.
    let chunk1 = make_chat_chunk(
        inference_id,
        episode_id,
        vec![ContentBlockChunk::Thought(ThoughtChunk {
            id: "1".to_string(),
            text: Some("Let me think about this...".to_string()),
            signature: Some("sig001".to_string()),
        })],
        None,
        None,
    );
    let events1 = state.process_chunk(&chunk1, &inference_id.to_string(), "model");
    assert!(events1.iter().any(|e| matches!(e, AnthropicStreamMessage::ContentBlockStart { content_type, .. } if content_type == "thinking")));

    // Chunk 2: thinking delta — same block, new signature.
    let chunk2 = make_chat_chunk(
        inference_id,
        episode_id,
        vec![ContentBlockChunk::Thought(ThoughtChunk {
            id: "1".to_string(),
            text: Some(" More thinking...".to_string()),
            signature: Some("sig002".to_string()),
        })],
        None,
        None,
    );
    let events2 = state.process_chunk(&chunk2, &inference_id.to_string(), "model");
    let thinking_deltas: Vec<_> = events2.iter()
        .filter(|e| matches!(e, AnthropicStreamMessage::ContentBlockDelta { delta_type, .. } if delta_type == "thinking_delta"))
        .collect();
    assert!(
        !thinking_deltas.is_empty(),
        "should emit thinking_delta for continuation"
    );

    // Chunk 3: text after thinking — should close thinking block.
    let chunk3 = make_chat_chunk(
        inference_id,
        episode_id,
        vec![ContentBlockChunk::Text(TextChunk {
            id: "2".to_string(),
            text: "Here is my answer.".to_string(),
        })],
        None,
        None,
    );
    let events3 = state.process_chunk(&chunk3, &inference_id.to_string(), "model");
    let has_thinking_stop = events3
        .iter()
        .any(|e| matches!(e, AnthropicStreamMessage::ContentBlockStop { .. }));
    assert!(
        has_thinking_stop,
        "should close thinking block before opening text block"
    );

    let text_starts = events3.iter()
        .filter(|e| matches!(e, AnthropicStreamMessage::ContentBlockStart { content_type, .. } if content_type == "text"));
    assert!(
        text_starts.count() >= 1,
        "should open text block after thinking"
    );

    // Finalize: finish reason should show up.
    let finalizer = state;
    let stop_events = finalizer.finalize();
    assert_eq!(stop_events.len(), 2);
}

// Empty content then finish
#[test]
fn test_empty_content_then_finish() {
    let inference_id = Uuid::from_u128(0x0190_0000_0000_7000_8000_0000_0000_0001);
    let episode_id = Uuid::from_u128(0x0190_0000_0000_7000_8000_0000_0000_0001);
    let mut state = AnthropicStreamState::default();

    // Chunk with empty content blocks and a finish reason.
    let chunk = make_chat_chunk(
        inference_id,
        episode_id,
        vec![],
        None,
        Some(FinishReason::Stop),
    );
    let events = state.process_chunk(&chunk, &inference_id.to_string(), "model");
    assert!(!events.is_empty(), "should emit at least message_start");
    assert_event_type(&events, 0, "message");

    let final_events = state.finalize();
    assert_eq!(final_events.len(), 2);
    assert_event_type(&final_events, 0, "message_delta");
    assert_event_type(&final_events, 1, "message_stop");

    // Stop reason should be EndTurn.
    if let AnthropicStreamMessage::MessageDelta { stop_reason, .. } = &final_events[0] {
        assert_eq!(*stop_reason, Some(AnthropicStopReason::EndTurn));
    } else {
        panic!("expected MessageDelta");
    }
}

// Multiple tool_use blocks in parallel
#[test]
fn test_multiple_tool_use_blocks() {
    let inference_id = Uuid::from_u128(0x0190_0000_0000_7000_8000_0000_0000_0001);
    let episode_id = Uuid::from_u128(0x0190_0000_0000_7000_8000_0000_0000_0001);
    let mut state = AnthropicStreamState::default();

    // Chunk with two parallel tool calls.
    let chunk = make_chat_chunk(
        inference_id,
        episode_id,
        vec![
            ContentBlockChunk::ToolCall(ToolCallChunk {
                id: "tool_1".to_string(),
                raw_name: Some("search_1".to_string()),
                raw_arguments: r#"{"q":"weather"}"#.to_string(),
            }),
            ContentBlockChunk::ToolCall(ToolCallChunk {
                id: "tool_2".to_string(),
                raw_name: Some("search_2".to_string()),
                raw_arguments: r#"{"q":"news"}"#.to_string(),
            }),
        ],
        None,
        None,
    );

    let events = state.process_chunk(&chunk, &inference_id.to_string(), "model");
    // message_start + tool_1 start + tool_1 delta + tool_1 stop + tool_2 start + tool_2 delta
    assert_eq!(
        events.len(),
        6,
        "should emit message_start + 2 tool_use blocks with deltas and block stop"
    );

    // Verify block indices are monotonic.
    let starts: Vec<_> = events
        .iter()
        .filter_map(|e| match e {
            AnthropicStreamMessage::ContentBlockStart { index, .. } => Some(*index),
            _ => None,
        })
        .collect();
    assert_eq!(starts, vec![0, 1], "indices should be monotonic: 0, 1");

    // Same tool ID should get same index.
    // Send another chunk with the same tool_1.
    let chunk2 = make_chat_chunk(
        inference_id,
        episode_id,
        vec![ContentBlockChunk::ToolCall(ToolCallChunk {
            id: "tool_1".to_string(),
            raw_name: Some("search_1".to_string()),
            raw_arguments: r#"{"q":"updated"}"#.to_string(),
        })],
        None,
        None,
    );
    let events2 = state.process_chunk(&chunk2, &inference_id.to_string(), "model");
    let delta_indices: Vec<_> = events2
        .iter()
        .filter_map(|e| match e {
            AnthropicStreamMessage::ContentBlockDelta { index, .. } => Some(*index),
            _ => None,
        })
        .collect();
    assert!(
        delta_indices.iter().all(|&i| i == 0),
        "same tool_id should reuse index 0, got deltas at indices {delta_indices:?}"
    );
}

// Signature delta arriving separately from thinking delta
#[test]
fn test_separate_signature_delta() {
    let inference_id = Uuid::from_u128(0x0190_0000_0000_7000_8000_0000_0000_0001);
    let episode_id = Uuid::from_u128(0x0190_0000_0000_7000_8000_0000_0000_0001);
    let mut state = AnthropicStreamState::default();

    // Chunk 1: thinking without signature.
    let chunk1 = make_chat_chunk(
        inference_id,
        episode_id,
        vec![ContentBlockChunk::Thought(ThoughtChunk {
            id: "1".to_string(),
            text: Some("Thinking...".to_string()),
            signature: None,
        })],
        None,
        None,
    );
    let events1 = state.process_chunk(&chunk1, &inference_id.to_string(), "model");
    let start = events1.iter()
        .find(|e| matches!(e, AnthropicStreamMessage::ContentBlockStart { content_type, .. } if content_type == "thinking"));
    assert!(start.is_some(), "should start thinking block");

    // Chunk 2: thinking with signature delta.
    let chunk2 = make_chat_chunk(
        inference_id,
        episode_id,
        vec![ContentBlockChunk::Thought(ThoughtChunk {
            id: "1".to_string(),
            text: None, // no text, just signature.
            signature: Some("sig-abc".to_string()),
        })],
        None,
        None,
    );
    let events2 = state.process_chunk(&chunk2, &inference_id.to_string(), "model");
    let thinking_delta = events2.iter()
        .filter(|e| matches!(e, AnthropicStreamMessage::ContentBlockDelta { delta_type, .. } if delta_type == "thinking_delta"));
    assert!(
        thinking_delta.count() >= 1,
        "should emit thinking_delta for the signature-only chunk"
    );

    // Chunk 3: another text block — should close thinking.
    let chunk3 = make_chat_chunk(
        inference_id,
        episode_id,
        vec![ContentBlockChunk::Text(TextChunk {
            id: "2".to_string(),
            text: "Answer.".to_string(),
        })],
        None,
        None,
    );
    let events3 = state.process_chunk(&chunk3, &inference_id.to_string(), "model");
    assert!(
        events3
            .iter()
            .any(|e| matches!(e, AnthropicStreamMessage::ContentBlockStop { .. })),
        "should close thinking block"
    );
}

// message_delta carries final accumulated usage
#[test]
fn test_accumulated_usage_in_message_delta() {
    let inference_id = Uuid::from_u128(0x0190_0000_0000_7000_8000_0000_0000_0001);
    let episode_id = Uuid::from_u128(0x0190_0000_0000_7000_8000_0000_0000_0001);
    let mut state = AnthropicStreamState::default();

    // Three chunks with increasing usage.
    for i in 0..3u32 {
        let chunk = make_chat_chunk(
            inference_id,
            episode_id,
            vec![ContentBlockChunk::Text(TextChunk {
                id: "1".to_string(),
                text: format!("chunk {i}"),
            })],
            Some(Usage {
                input_tokens: Some(10),     // every chunk reports 10 input tokens
                output_tokens: Some(i + 1), // 1, 2, 3 output tokens
                provider_cache_read_input_tokens: Some(5),
                provider_cache_write_input_tokens: None,
                cost: None,
            }),
            Some(FinishReason::Stop),
        );
        state.process_chunk(&chunk, &inference_id.to_string(), "model");
    }

    let final_events = state.finalize();
    if let AnthropicStreamMessage::MessageDelta {
        usage, stop_reason, ..
    } = &final_events[0]
    {
        // 10 + 10 + 10 = 30 input tokens accumulated.
        assert_eq!(
            usage.input_tokens, 30,
            "input tokens should be fully accumulated"
        );
        // 1 + 2 + 3 = 6 output tokens.
        assert_eq!(
            usage.output_tokens, 6,
            "output tokens should be summed to 6"
        );
        // Cache read: 5 + 5 + 5 = 15.
        assert_eq!(
            usage.cache_creation_input_tokens, None,
            "no cache write tokens"
        );
        assert_eq!(
            usage.cache_read_input_tokens,
            Some(15),
            "cache read tokens should be accumulated"
        );
        assert_eq!(
            *stop_reason,
            Some(AnthropicStopReason::EndTurn),
            "stop_reason should be EndTurn"
        );
    } else {
        panic!("expected MessageDelta");
    }
}

// RedactedThinking (Unknown) block
#[test]
fn test_redacted_thinking_block() {
    let inference_id = Uuid::from_u128(0x0190_0000_0000_7000_8000_0000_0000_0001);
    let episode_id = Uuid::from_u128(0x0190_0000_0000_7000_8000_0000_0000_0001);
    let mut state = AnthropicStreamState::default();

    let chunk = make_chat_chunk(
        inference_id,
        episode_id,
        vec![ContentBlockChunk::Unknown(UnknownChunk {
            id: "1".to_string(),
            data: Json::String("redacted reasoning content".to_string()),
        })],
        None,
        None,
    );

    let events = state.process_chunk(&chunk, &inference_id.to_string(), "model");
    let thinking_start = events.iter()
        .find(|e| matches!(e, AnthropicStreamMessage::ContentBlockStart { content_type, .. } if content_type == "redacted_thinking"));
    assert!(
        thinking_start.is_some(),
        "should open redacted_thinking block"
    );

    let has_delta = events.iter()
        .any(|e| matches!(e, AnthropicStreamMessage::ContentBlockDelta { delta_type, .. } if delta_type == "thinking_delta"));
    assert!(has_delta, "should emit thinking_delta for redacted content");
}

// What a chunk gives, by the chunk before.
#[test]
fn events_follow_from_the_chunk_before() {
    let text = |s: &str| {
        ContentBlockChunk::Text(TextChunk {
            id: s.to_string(),
            text: s.to_string(),
        })
    };
    let tool = |id: &str| {
        ContentBlockChunk::ToolCall(ToolCallChunk {
            id: id.to_string(),
            raw_name: None,
            raw_arguments: String::new(),
        })
    };
    let shape = |events: Vec<AnthropicStreamMessage>| -> Vec<(&'static str, usize)> {
        events
            .iter()
            .map(|e| match e {
                AnthropicStreamMessage::ContentBlockStart { index, .. } => ("start", *index),
                AnthropicStreamMessage::ContentBlockDelta { index, .. } => ("delta", *index),
                AnthropicStreamMessage::ContentBlockStop { index, .. } => ("stop", *index),
                other => panic!("unexpected event {other:?}"),
            })
            .collect()
    };
    let mut state = AnthropicStreamState::default();
    assert!(state.can_open_block());
    assert_eq!(shape(state.ensure_block(&text("a"))), vec![("start", 0), ("delta", 0)]);
    assert_eq!(shape(state.ensure_block(&text("b"))), vec![("delta", 0)]);
    assert_eq!(
        shape(state.ensure_block(&tool("t"))),
        vec![("stop", 0), ("start", 1), ("delta", 1)]
    );
    assert_eq!(shape(state.ensure_block(&tool("t"))), vec![("delta", 1)]);
    assert_eq!(
        shape(state.ensure_block(&tool("u"))),
        vec![("stop", 1), ("start", 2), ("delta", 2)]
    );
    assert_eq!(
        shape(state.ensure_block(&tool("t"))),
        vec![("stop", 2), ("start", 1), ("delta", 1)]
    );
}

#[test]
fn the_last_signature_is_sent_with_the_stop() {
    let thought = |text: Option<&str>, signature: Option<&str>| {
        ContentBlockChunk::Thought(ThoughtChunk {
            id: "0".to_string(),
            text: text.map(str::to_string),
            signature: signature.map(str::to_string),
        })
    };
    let stop_of = |chunks: &[ContentBlockChunk]| {
        let mut state = AnthropicStreamState::default();
        for chunk in chunks {
            state.ensure_block(chunk);
        }
        state.open_block_stop().unwrap().to_sse_event(0).data
    };
    assert_eq!(
        stop_of(&[
            thought(Some("a"), Some("first")),
            thought(Some("b"), None),
            thought(None, Some("second")),
        ]),
        r#"{"index":0,"signature":"second"}"#
    );
    assert_eq!(stop_of(&[thought(Some("a"), None)]), r#"{"index":0}"#);
    let text = ContentBlockChunk::Text(TextChunk {
        id: "0".to_string(),
        text: "x".to_string(),
    });
    assert_eq!(stop_of(&[text]), r#"{"index":0}"#);

    let mut state = AnthropicStreamState::default();
    state.ensure_block(&thought(Some("a"), Some("sig")));
    let switched = state.ensure_block(&ContentBlockChunk::ToolCall(ToolCallChunk {
        id: "t".to_string(),
        raw_name: None,
        raw_arguments: String::new(),
    }));
    assert!(matches!(
        &switched[0],
        AnthropicStreamMessage::ContentBlockStop { index: 0, signature: Some(s) } if s == "sig"
    ));
    assert!(matches!(
        state.open_block_stop(),
        Some(AnthropicStreamMessage::ContentBlockStop { index: 1, signature: None })
    ));
}
