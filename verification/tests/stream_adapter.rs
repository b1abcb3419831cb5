use anthropic_compatible::inference::{
    ChatInferenceResponseChunk, ContentBlockChunk, Cost, FinishReason, InferenceResponseChunk,
    JsonInferenceResponseChunk, TextChunk, ThoughtChunk, ToolCallChunk, UnknownChunk, Usage,
};
use anthropic_compatible::json::{Json, JsonNumber};
use anthropic_compatible::outside::parse_json;
use anthropic_compatible::types::sse::SseEvent;
use anthropic_compatible::types::streaming::accumulate_usage;
use anthropic_compatible::types::stream_adapter::{
    AnthropicStreamAdapter, StreamAction, StreamInput, convert_to_anthropic_stream,
};

const ID: u128 = 0x0190_0000_0000_7000_8000_0000_0000_00cd;
const ID_TEXT: &str = "01900000-0000-7000-8000-0000000000cd";

fn text(s: &str) -> ContentBlockChunk {
    ContentBlockChunk::Text(TextChunk {
        id: "0".to_string(),
        text: s.to_string(),
    })
}

fn tool(id: &str, arguments: &str) -> ContentBlockChunk {
    ContentBlockChunk::ToolCall(ToolCallChunk {
        id: id.to_string(),
        raw_name: Some(format!("name_{id}")),
        raw_arguments: arguments.to_string(),
    })
}

fn tokens(input: u32, output: u32) -> Option<Usage> {
    Some(Usage {
        input_tokens: Some(input),
        output_tokens: Some(output),
        provider_cache_read_input_tokens: None,
        provider_cache_write_input_tokens: None,
        cost: None,
    })
}

fn chat(
    content: Vec<ContentBlockChunk>,
    usage: Option<Usage>,
    finish_reason: Option<FinishReason>,
) -> StreamInput {
    StreamInput::Chunk(InferenceResponseChunk::Chat(ChatInferenceResponseChunk {
        inference_id: ID,
        episode_id: 0,
        variant_name: "v".to_string(),
        content,
        usage,
        finish_reason,
    }))
}

fn json(raw: &str, usage: Option<Usage>, finish_reason: Option<FinishReason>) -> StreamInput {
    StreamInput::Chunk(InferenceResponseChunk::Json(JsonInferenceResponseChunk {
        inference_id: ID,
        episode_id: 0,
        variant_name: "v".to_string(),
        raw: raw.to_string(),
        usage,
        finish_reason,
    }))
}

/// Runs the adapter as its driver does: an input is fed whenever one is asked for.
fn drive(inputs: Vec<StreamInput>) -> Vec<SseEvent> {
    let mut adapter = convert_to_anthropic_stream("prefix::".to_string());
    let mut inputs = inputs.into_iter();
    let mut events = Vec::new();
    loop {
        match adapter.poll() {
            StreamAction::Emit(event) => events.push(event),
            StreamAction::Pull => {
                let input = inputs.next().unwrap_or(StreamInput::Ended);
                assert!(adapter.can_feed(&input));
                adapter.feed(&input);
            }
            StreamAction::Finish => return events,
        }
    }
}

fn names(events: &[SseEvent]) -> Vec<&str> {
    events.iter().map(|e| e.event.as_str()).collect()
}

fn field(event: &SseEvent, key: &str) -> Json {
    match parse_json(&event.data).unwrap() {
        Json::Object(entries) => entries
            .into_iter()
            .find(|e| e.key == key)
            .map(|e| e.value)
            .unwrap(),
        other => panic!("Expected an object, got {other:?}"),
    }
}

fn number(json: Json) -> u64 {
    match json {
        Json::Number(JsonNumber::Unsigned(n)) => n,
        other => panic!("Expected a number, got {other:?}"),
    }
}

fn joined_text(events: &[SseEvent]) -> String {
    events
        .iter()
        .filter(|e| {
            e.event == "content_block_delta" && field(e, "delta_type") == Json::text("text_delta")
        })
        .map(|e| match field(e, "text") {
            Json::String(s) => s,
            other => panic!("Expected a text, got {other:?}"),
        })
        .collect()
}

/// Checks the order of events that clients rely on.
fn assert_well_formed(events: &[SseEvent]) {
    assert_eq!(events.first().unwrap().event, "message_start");
    assert_eq!(events.last().unwrap().event, "message_stop");
    assert_eq!(events[events.len() - 2].event, "message_delta");
    let mut open: Option<u64> = None;
    for event in &events[1..events.len() - 2] {
        let index = number(field(event, "index"));
        match event.event.as_str() {
            "content_block_start" => {
                assert_eq!(open, None);
                open = Some(index);
            }
            "content_block_delta" => assert_eq!(open, Some(index)),
            "content_block_stop" => {
                assert_eq!(open, Some(index));
                open = None;
            }
            other => panic!("unexpected event {other}"),
        }
    }
    assert_eq!(open, None);
}

#[test]
fn a_text_response() {
    let events = drive(vec![
        chat(vec![text("Hello")], tokens(10, 5), None),
        chat(vec![text(" World")], tokens(0, 3), Some(FinishReason::Stop)),
    ]);
    assert_eq!(
        names(&events),
        vec![
            "message_start",
            "content_block_start",
            "content_block_delta",
            "content_block_delta",
            "content_block_stop",
            "message_delta",
            "message_stop",
        ]
    );
    assert_well_formed(&events);
    assert_eq!(joined_text(&events), "Hello World");
    assert_eq!(
        events[0].data,
        format!(
            r#"{{"id":"msg_{ID_TEXT}","model":"prefix::","stop_sequence":null,"type":"message","usage":{{"input_tokens":10,"output_tokens":5}}}}"#
        )
    );
    assert_eq!(
        events[1].data,
        r#"{"id":"block_0","index":0,"name":null,"signature":null,"thinking":null,"type":"text"}"#
    );
    assert_eq!(
        events[2].data,
        r#"{"delta_type":"text_delta","index":0,"input":null,"name":null,"text":"Hello","tool_use_id":null,"type":"text_delta"}"#
    );
    assert_eq!(events[4].data, r#"{"index":0}"#);
    assert_eq!(
        events[5].data,
        r#"{"stop_reason":"end_turn","stop_sequence":null,"type":"message_delta","usage":{"input_tokens":10,"output_tokens":8}}"#
    );
    assert_eq!(events[6].data, "{}");
}

#[test]
fn ids_are_distinct() {
    let events = drive(vec![
        chat(vec![text("a"), tool("t", "{}")], None, None),
        chat(vec![text("b")], None, None),
    ]);
    let mut ids: Vec<usize> = events.iter().map(|e| e.id.parse().unwrap()).collect();
    ids.sort();
    assert_eq!(ids, (0..events.len()).collect::<Vec<usize>>());
}

#[test]
fn ids_of_one_chunk_count_down() {
    let events = drive(vec![chat(vec![text("a")], None, None)]);
    let ids: Vec<&str> = events.iter().map(|e| e.id.as_str()).collect();
    assert_eq!(ids, vec!["2", "1", "0", "5", "4", "3"]);
}

#[test]
fn a_tool_call() {
    let events = drive(vec![
        chat(vec![tool("t", r#"{"a":1}"#)], None, Some(FinishReason::ToolCall)),
        chat(vec![tool("t", "not json")], None, None),
    ]);
    assert_well_formed(&events);
    assert_eq!(field(&events[1], "type"), Json::text("tool_use"));
    assert_eq!(field(&events[1], "name"), Json::text("name_t"));
    assert_eq!(field(&events[2], "delta_type"), Json::text("input_json_delta"));
    assert_eq!(field(&events[2], "input"), parse_json(r#"{"a":1}"#).unwrap());
    assert_eq!(field(&events[3], "input"), parse_json("{}").unwrap());
    let delta = &events[events.len() - 2];
    assert_eq!(field(delta, "stop_reason"), Json::text("tool_use"));
}

#[test]
fn blocks_are_numbered_in_order() {
    let thought = || {
        ContentBlockChunk::Thought(ThoughtChunk {
            id: "0".to_string(),
            text: Some("hm".to_string()),
            signature: Some(String::new()),
        })
    };
    let redacted = ContentBlockChunk::Unknown(UnknownChunk {
        id: "0".to_string(),
        data: parse_json("[1, 2]").unwrap(),
    });
    let events = drive(vec![chat(
        vec![thought(), redacted, text("a"), tool("t", "{}"), text("b"), tool("u", "{}")],
        None,
        None,
    )]);
    assert_well_formed(&events);
    let starts: Vec<&SseEvent> = events
        .iter()
        .filter(|e| e.event == "content_block_start")
        .collect();
    let indices: Vec<u64> = starts.iter().map(|e| number(field(e, "index"))).collect();
    assert_eq!(indices, vec![0, 1, 2, 3, 4, 5]);
    assert_eq!(field(starts[0], "thinking"), Json::text("hm"));
    assert_eq!(field(starts[0], "signature"), Json::Null);
    assert_eq!(field(starts[1], "thinking"), Json::text("[1,2]"));
    assert_eq!(field(starts[5], "id"), Json::text("block_5"));
}

#[test]
fn a_resumed_tool_call_keeps_its_block() {
    let events = drive(vec![
        chat(vec![tool("t", "{}"), tool("u", "{}"), tool("t", "{}"), text("x")], None, None),
    ]);
    assert_well_formed(&events);
    let indices: Vec<u64> = events
        .iter()
        .filter(|e| e.event == "content_block_start")
        .map(|e| number(field(e, "index")))
        .collect();
    assert_eq!(indices, vec![0, 1, 0, 2]);
}

#[test]
fn a_json_response() {
    let events = drive(vec![
        json(r#"{"answer":"#, tokens(4, 1), None),
        json(r#""Tokyo"}"#, tokens(0, 2), Some(FinishReason::Stop)),
    ]);
    assert_eq!(
        names(&events),
        vec![
            "message_start",
            "content_block_start",
            "content_block_delta",
            "content_block_delta",
            "content_block_stop",
            "message_delta",
            "message_stop",
        ]
    );
    assert_well_formed(&events);
    assert_eq!(joined_text(&events), r#"{"answer":"Tokyo"}"#);
    assert_eq!(field(&events[0], "id"), Json::text("msg_"));
    assert_eq!(field(&events[1], "id"), Json::text("-text-0"));
    assert_eq!(
        events[5].data,
        r#"{"stop_reason":"end_turn","stop_sequence":null,"type":"message_delta","usage":{"input_tokens":4,"output_tokens":3}}"#
    );
    let ids: Vec<&str> = events.iter().map(|e| e.id.as_str()).collect();
    assert_eq!(ids, vec!["0", "1", "2", "3", "6", "5", "4"]);
}

#[test]
fn a_response_that_changes_its_kind_leaves_no_block_open() {
    let events = drive(vec![
        json("{", None, None),
        chat(Vec::new(), None, None),
        json("}", None, None),
        chat(vec![text("a")], None, None),
        json("[]", None, None),
        chat(vec![tool("t", "{}")], None, None),
    ]);
    assert_well_formed(&events);
    assert_eq!(
        names(&events),
        vec![
            "message_start",
            "content_block_start",
            "content_block_delta",
            "content_block_delta",
            "content_block_stop",
            "content_block_start",
            "content_block_delta",
            "content_block_stop",
            "content_block_start",
            "content_block_delta",
            "content_block_stop",
            "content_block_start",
            "content_block_delta",
            "content_block_stop",
            "message_delta",
            "message_stop",
        ]
    );
    assert_eq!(joined_text(&events), "{}a[]");
}

#[test]
fn blocks_have_distinct_ids() {
    let events = drive(vec![
        chat(vec![tool("t", "{}"), tool("u", "{}")], None, None),
        chat(vec![tool("t", "{}"), text("x")], None, None),
    ]);
    let ids: Vec<Json> = events
        .iter()
        .filter(|e| e.event == "content_block_start")
        .map(|e| field(e, "id"))
        .collect();
    let expected: Vec<Json> = (0..4).map(|n| Json::text(&format!("block_{n}"))).collect();
    assert_eq!(ids, expected);
}

#[test]
fn a_failure_is_reported_and_ends_the_response() {
    let events = drive(vec![
        chat(vec![text("partial")], None, None),
        StreamInput::Failed("provider \"gone\"".to_string()),
        chat(vec![text("never seen")], None, None),
    ]);
    assert_eq!(
        names(&events),
        vec![
            "message_start",
            "content_block_start",
            "content_block_delta",
            "error",
            "content_block_stop",
            "message_delta",
            "message_stop",
        ]
    );
    assert_eq!(
        events[3].data,
        r#"{"error":{"message":"provider \"gone\"","type":"api_error"},"type":"error"}"#
    );
    assert_eq!(events[3].id, "3");
}

#[test]
fn nothing_comes_after_the_end() {
    let mut adapter = convert_to_anthropic_stream("p".to_string());
    adapter.feed(&chat(vec![text("a")], None, None));
    adapter.feed(&StreamInput::Ended);
    adapter.feed(&chat(vec![text("b")], None, None));
    adapter.feed(&StreamInput::Failed("late".to_string()));
    let mut seen = 0;
    while let StreamAction::Emit(_) = adapter.poll() {
        seen += 1;
    }
    assert_eq!(seen, 6);
    assert!(matches!(adapter.poll(), StreamAction::Finish));
    assert!(matches!(adapter.poll(), StreamAction::Finish));
}

#[test]
fn an_empty_stream_only_ends() {
    assert_eq!(names(&drive(Vec::new())), vec!["message_delta", "message_stop"]);
}

#[test]
fn sending_early_or_late_is_the_same() {
    let early = drive(vec![chat(vec![text("a")], None, None), chat(vec![text("b")], None, None)]);
    let mut adapter: AnthropicStreamAdapter = convert_to_anthropic_stream("prefix::".to_string());
    adapter.feed(&chat(vec![text("a")], None, None));
    adapter.feed(&chat(vec![text("b")], None, None));
    adapter.feed(&StreamInput::Ended);
    let mut late = Vec::new();
    while let StreamAction::Emit(event) = adapter.poll() {
        late.push(event);
    }
    let pairs = |events: &[SseEvent]| -> Vec<(String, String)> {
        events.iter().map(|e| (e.id.clone(), e.data.clone())).collect()
    };
    assert_eq!(pairs(&early), pairs(&late));
}

#[test]
fn usage_that_does_not_fit_is_not_taken() {
    let mut adapter = convert_to_anthropic_stream("p".to_string());
    let most = chat(Vec::new(), tokens(u32::MAX, 0), None);
    assert!(adapter.can_feed(&most));
    adapter.feed(&most);
    assert!(!adapter.can_feed(&chat(Vec::new(), tokens(1, 0), None)));
    assert!(adapter.can_feed(&chat(Vec::new(), tokens(0, u32::MAX), None)));
    assert!(adapter.can_feed(&chat(Vec::new(), None, None)));
}

#[test]
fn the_last_finish_reason_counts() {
    let events = drive(vec![
        chat(vec![text("a")], None, Some(FinishReason::Stop)),
        chat(vec![text("b")], None, Some(FinishReason::Length)),
        chat(Vec::new(), None, None),
    ]);
    assert_eq!(
        field(&events[events.len() - 2], "stop_reason"),
        Json::text("max_tokens")
    );
    assert_eq!(joined_text(&events), "ab");
}

#[test]
fn the_cost_is_the_first_reported() {
    let cost = |n| {
        Some(Cost {
            mantissa: n,
            scale: 2,
        })
    };
    let reporting = |n| Usage {
        cost: cost(n),
        ..Usage::default()
    };
    let mut total = Usage::default();
    accumulate_usage(&mut total, &reporting(5));
    accumulate_usage(&mut total, &reporting(7));
    assert_eq!(total.cost, cost(5));
    assert_eq!(total.input_tokens, None);
}
