//! Stream events as server-sent events.
use crate::json::{Json, JsonEntry, JsonView, count_json, integer_json, nullable, nullable_text};
use crate::outside::{json_text, print_json, reads_back};
use crate::provider::AnthropicStopReason;
use crate::text::{decimal, numeral, owned};
use crate::types::streaming::{AnthropicStreamMessage, AnthropicStreamUsage, EventView};
use vstd::prelude::*;

verus! {

/// A server-sent event.
#[derive(Debug)]
pub struct SseEvent {
    /// The `event:` field.
    pub event: String,
    /// The `id:` field.
    pub id: String,
    /// The `data:` field.
    pub data: String,
}

pub struct SseEventView {
    pub event: Seq<char>,
    pub id: Seq<char>,
    pub data: Seq<char>,
}

impl DeepView for SseEvent {
    type V = SseEventView;

    open spec fn deep_view(&self) -> SseEventView {
        SseEventView { event: self.event@, id: self.id@, data: self.data@ }
    }
}

/// The name of an event.
pub open spec fn event_name(message: EventView) -> Seq<char> {
    match message {
        EventView::MessageStart { .. } => "message_start"@,
        EventView::ContentBlockStart { .. } => "content_block_start"@,
        EventView::ContentBlockDelta { .. } => "content_block_delta"@,
        EventView::ContentBlockStop { .. } => "content_block_stop"@,
        EventView::MessageDelta { .. } => "message_delta"@,
        EventView::MessageStop => "message_stop"@,
    }
}

/// An entry with a count, where there is one.
pub open spec fn count_entry(key: Seq<char>, n: Option<u32>) -> Seq<(Seq<char>, JsonView)> {
    match n {
        Some(count) => seq![(key, count_json(count as nat))],
        None => Seq::empty(),
    }
}

/// The JSON form of the usage in an event. A cache count that is not known is
/// left out.
pub open spec fn usage_json(usage: AnthropicStreamUsage) -> JsonView {
    JsonView::Object(
        seq![
            ("input_tokens"@, count_json(usage.input_tokens as nat)),
            ("output_tokens"@, count_json(usage.output_tokens as nat)),
        ] + count_entry("cache_creation_input_tokens"@, usage.cache_creation_input_tokens)
            + count_entry("cache_read_input_tokens"@, usage.cache_read_input_tokens),
    )
}

/// The JSON form of a stop sequence.
pub open spec fn stop_sequence_json(stop_sequence: Option<i32>) -> JsonView {
    match stop_sequence {
        Some(n) => integer_json(n),
        None => JsonView::Null,
    }
}

/// The JSON form of a stop reason.
pub open spec fn stop_reason_json(reason: Option<AnthropicStopReason>) -> JsonView {
    match reason {
        Some(r) => JsonView::String(r.wire_name()),
        None => JsonView::Null,
    }
}

/// An entry with a text, where there is one.
pub open spec fn text_entry(key: Seq<char>, text: Option<Seq<char>>) -> Seq<
    (Seq<char>, JsonView),
> {
    match text {
        Some(s) => seq![(key, JsonView::String(s))],
        None => Seq::empty(),
    }
}

/// The data of an event. A content block delta names its kind under `type` and
/// under `delta_type`. A stop has a signature only where there is one.
pub open spec fn event_json(message: EventView) -> JsonView {
    match message {
        EventView::MessageStart { id, response_type, model, stop_sequence, usage } =>
            JsonView::Object(
                seq![
                    ("id"@, JsonView::String(id)),
                    ("type"@, JsonView::String(response_type)),
                    ("model"@, JsonView::String(model)),
                    ("stop_sequence"@, stop_sequence_json(stop_sequence)),
                    ("usage"@, usage_json(usage)),
                ],
            ),
        EventView::ContentBlockStart { index, content_type, id, thinking, signature, name } =>
            JsonView::Object(
                seq![
                    ("index"@, count_json(index)),
                    ("type"@, JsonView::String(content_type)),
                    ("id"@, JsonView::String(id)),
                    ("thinking"@, nullable_text(thinking)),
                    ("signature"@, nullable_text(signature)),
                    ("name"@, nullable_text(name)),
                ],
            ),
        EventView::ContentBlockDelta { index, delta_type, text, tool_use_id, name, input } =>
            JsonView::Object(
                seq![
                    ("index"@, count_json(index)),
                    ("type"@, JsonView::String(delta_type)),
                    ("delta_type"@, JsonView::String(delta_type)),
                    ("text"@, nullable_text(text)),
                    ("tool_use_id"@, nullable_text(tool_use_id)),
                    ("name"@, nullable_text(name)),
                    ("input"@, nullable(input)),
                ],
            ),
        EventView::ContentBlockStop { index, signature } => JsonView::Object(
            seq![("index"@, count_json(index))] + text_entry("signature"@, signature),
        ),
        EventView::MessageDelta { delta_type, stop_reason, stop_sequence, usage } =>
            JsonView::Object(
                seq![
                    ("type"@, JsonView::String(delta_type)),
                    ("stop_reason"@, stop_reason_json(stop_reason)),
                    ("stop_sequence"@, stop_sequence_json(stop_sequence)),
                    ("usage"@, usage_json(usage)),
                ],
            ),
        EventView::MessageStop => JsonView::Object(Seq::empty()),
    }
}

/// The server-sent event of a message.
pub open spec fn sse_of(message: EventView, id: nat) -> SseEventView {
    SseEventView {
        event: event_name(message),
        id: numeral(id),
        data: json_text(event_json(message)),
    }
}

/// The data of the event that reports a failure.
pub open spec fn failure_json(message: Seq<char>) -> JsonView {
    JsonView::Object(
        seq![
            ("type"@, JsonView::String("error"@)),
            (
                "error"@,
                JsonView::Object(
                    seq![
                        ("type"@, JsonView::String("api_error"@)),
                        ("message"@, JsonView::String(message)),
                    ],
                ),
            ),
        ],
    )
}

/// The server-sent event that reports a failure.
pub open spec fn failure_sse(message: Seq<char>, id: nat) -> SseEventView {
    SseEventView { event: "error"@, id: numeral(id), data: json_text(failure_json(message)) }
}

/// The server-sent event that reports a failure.
pub fn failure_event(message: &str, event_id: usize) -> (r: SseEvent)
    ensures
        r.deep_view() == failure_sse(message@, event_id as nat),
        reads_back(failure_json(message@)),
{
    let error: Vec<JsonEntry> = vec![
        JsonEntry::new("type", Json::text("api_error")),
        JsonEntry::new("message", Json::text(message)),
    ];
    assert(error.deep_view() =~= seq![
        ("type"@, JsonView::String("api_error"@)),
        ("message"@, JsonView::String(message@)),
    ]);
    let data: Vec<JsonEntry> = vec![
        JsonEntry::new("type", Json::text("error")),
        JsonEntry::new("error", Json::object(error)),
    ];
    assert(JsonView::Object(data.deep_view()) =~= failure_json(message@)) by {
        assert(data.deep_view() =~= failure_json(message@)->Object_0);
    }
    SseEvent {
        event: owned("error"),
        id: decimal(event_id),
        data: print_json(&Json::object(data)),
    }
}

pub(crate) fn push_count(entries: &mut Vec<JsonEntry>, key: &str, n: Option<u32>)
    ensures
        final(entries).deep_view() == old(entries).deep_view() + count_entry(key@, n),
{
    let ghost before = entries.deep_view();
    if let Some(count) = n {
        entries.push(JsonEntry::new(key, Json::count(count as usize)));
    }
    assert(entries.deep_view() =~= before + count_entry(key@, n));
}

impl AnthropicStreamUsage {
    /// The JSON form of the usage.
    pub fn to_json(&self) -> (r: Json)
        ensures
            r@ == usage_json(*self),
    {
        let mut entries: Vec<JsonEntry> = vec![
            JsonEntry::new("input_tokens", Json::count(self.input_tokens as usize)),
            JsonEntry::new("output_tokens", Json::count(self.output_tokens as usize)),
        ];
        assert(entries.deep_view() =~= seq![
            ("input_tokens"@, count_json(self.input_tokens as nat)),
            ("output_tokens"@, count_json(self.output_tokens as nat)),
        ]);
        push_count(&mut entries, "cache_creation_input_tokens", self.cache_creation_input_tokens);
        push_count(&mut entries, "cache_read_input_tokens", self.cache_read_input_tokens);
        Json::object(entries)
    }
}

pub(crate) fn stop_sequence_value(stop_sequence: &Option<i32>) -> (r: Json)
    ensures
        r@ == stop_sequence_json(*stop_sequence),
{
    match stop_sequence {
        Some(n) => Json::integer(*n),
        None => Json::Null,
    }
}

pub(crate) fn stop_reason_value(reason: &Option<AnthropicStopReason>) -> (r: Json)
    ensures
        r@ == stop_reason_json(*reason),
{
    match reason {
        Some(r) => Json::text(r.name()),
        None => Json::Null,
    }
}

impl AnthropicStreamMessage {
    /// The name of the event.
    pub fn event_name(&self) -> (r: &'static str)
        ensures
            r@ == event_name(self.deep_view()),
    {
        match self {
            AnthropicStreamMessage::MessageStart { .. } => "message_start",
            AnthropicStreamMessage::ContentBlockStart { .. } => "content_block_start",
            AnthropicStreamMessage::ContentBlockDelta { .. } => "content_block_delta",
            AnthropicStreamMessage::ContentBlockStop { .. } => "content_block_stop",
            AnthropicStreamMessage::MessageDelta { .. } => "message_delta",
            AnthropicStreamMessage::MessageStop => "message_stop",
        }
    }

    /// The data of the event.
    pub fn to_json(&self) -> (r: Json)
        ensures
            r@ == event_json(self.deep_view()),
    {
        let entries: Vec<JsonEntry> = match self {
            AnthropicStreamMessage::MessageStart {
                id,
                response_type,
                model,
                stop_sequence,
                usage,
            } => vec![
                JsonEntry::new("id", Json::text(id.as_str())),
                JsonEntry::new("type", Json::text(response_type.as_str())),
                JsonEntry::new("model", Json::text(model.as_str())),
                JsonEntry::new("stop_sequence", stop_sequence_value(stop_sequence)),
                JsonEntry::new("usage", usage.to_json()),
            ],
            AnthropicStreamMessage::ContentBlockStart {
                index,
                content_type,
                id,
                thinking,
                signature,
                name,
            } => vec![
                JsonEntry::new("index", Json::count(*index)),
                JsonEntry::new("type", Json::text(content_type.as_str())),
                JsonEntry::new("id", Json::text(id.as_str())),
                JsonEntry::new("thinking", Json::optional_text(thinking)),
                JsonEntry::new("signature", Json::optional_text(signature)),
                JsonEntry::new("name", Json::optional_text(name)),
            ],
            AnthropicStreamMessage::ContentBlockDelta {
                index,
                delta_type,
                text,
                tool_use_id,
                name,
                input,
            } => vec![
                JsonEntry::new("index", Json::count(*index)),
                JsonEntry::new("type", Json::text(delta_type.as_str())),
                JsonEntry::new("delta_type", Json::text(delta_type.as_str())),
                JsonEntry::new("text", Json::optional_text(text)),
                JsonEntry::new("tool_use_id", Json::optional_text(tool_use_id)),
                JsonEntry::new("name", Json::optional_text(name)),
                JsonEntry::new("input", Json::optional(input)),
            ],
            AnthropicStreamMessage::ContentBlockStop { index, signature } => {
                let mut stop: Vec<JsonEntry> = vec![JsonEntry::new("index", Json::count(*index))];
                if let Some(text) = signature {
                    stop.push(JsonEntry::new("signature", Json::text(text.as_str())));
                }
                stop
            },
            AnthropicStreamMessage::MessageDelta {
                delta_type,
                stop_reason,
                stop_sequence,
                usage,
            } => vec![
                JsonEntry::new("type", Json::text(delta_type.as_str())),
                JsonEntry::new("stop_reason", stop_reason_value(stop_reason)),
                JsonEntry::new("stop_sequence", stop_sequence_value(stop_sequence)),
                JsonEntry::new("usage", usage.to_json()),
            ],
            AnthropicStreamMessage::MessageStop => Vec::new(),
        };
        assert(entries.deep_view() =~= event_json(self.deep_view())->Object_0);
        Json::object(entries)
    }

    /// The server-sent event, with the name of the event in its `event:` field.
    pub fn to_sse_event(&self, event_id: usize) -> (r: SseEvent)
        ensures
            r.deep_view() == sse_of(self.deep_view(), event_id as nat),
            reads_back(event_json(self.deep_view())),
    {
        SseEvent {
            event: owned(self.event_name()),
            id: decimal(event_id),
            data: print_json(&self.to_json()),
        }
    }
}

} // verus!
