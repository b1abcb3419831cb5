//! Stream events, and the state machine that turns the flat chunks of an
//! inference into Anthropic's block-oriented events:
//!
//! ```text
//! message_start
//! content_block_start (one per block, monotonic index)
//! content_block_delta (zero or more inside a block)
//! content_block_stop (one per block)
//! message_delta (stop_reason + final usage)
//! message_stop
//! ```
use crate::inference::{
    ChunkView, ContentBlockChunk, ContentBlockChunkView, FinishReason, InferenceResponseChunk,
    Usage, no_usage,
};
use crate::json::{Json, JsonView};
use crate::model::{nonempty, nonempty_text, or_else, or_value, outcome};
use crate::outside::{json_text, parse_json, parsed_json, print_json};
use crate::provider::{AnthropicStopReason, stop_reason_of};
use vstd::prelude::*;

verus! {

// ---------------------------------------------------------------------------
// Events
// ---------------------------------------------------------------------------

/// Usage in a stream event.
#[derive(Clone, Copy, Debug, PartialEq, Eq, Structural)]
pub struct AnthropicStreamUsage {
    pub input_tokens: u32,
    pub output_tokens: u32,
    pub cache_creation_input_tokens: Option<u32>,
    pub cache_read_input_tokens: Option<u32>,
}

/// The usage that a stream event reports for a usage of the engine.
pub open spec fn stream_usage(usage: Usage) -> AnthropicStreamUsage {
    AnthropicStreamUsage {
        input_tokens: or_value(usage.input_tokens, 0),
        output_tokens: or_value(usage.output_tokens, 0),
        cache_creation_input_tokens: usage.provider_cache_write_input_tokens,
        cache_read_input_tokens: usage.provider_cache_read_input_tokens,
    }
}

impl From<Usage> for AnthropicStreamUsage {
    fn from(usage: Usage) -> (r: AnthropicStreamUsage) {
        AnthropicStreamUsage {
            input_tokens: usage.input_tokens.unwrap_or(0),
            output_tokens: usage.output_tokens.unwrap_or(0),
            cache_creation_input_tokens: usage.provider_cache_write_input_tokens,
            cache_read_input_tokens: usage.provider_cache_read_input_tokens,
        }
    }
}

impl vstd::std_specs::convert::FromSpecImpl<Usage> for AnthropicStreamUsage {
    open spec fn obeys_from_spec() -> bool {
        true
    }

    open spec fn from_spec(usage: Usage) -> AnthropicStreamUsage {
        stream_usage(usage)
    }
}

impl From<&Usage> for AnthropicStreamUsage {
    fn from(usage: &Usage) -> (r: AnthropicStreamUsage) {
        AnthropicStreamUsage {
            input_tokens: usage.input_tokens.unwrap_or(0),
            output_tokens: usage.output_tokens.unwrap_or(0),
            cache_creation_input_tokens: usage.provider_cache_write_input_tokens,
            cache_read_input_tokens: usage.provider_cache_read_input_tokens,
        }
    }
}

impl vstd::std_specs::convert::FromSpecImpl<&Usage> for AnthropicStreamUsage {
    open spec fn obeys_from_spec() -> bool {
        true
    }

    open spec fn from_spec(usage: &Usage) -> AnthropicStreamUsage {
        stream_usage(*usage)
    }
}

impl Default for AnthropicStreamUsage {
    fn default() -> (r: AnthropicStreamUsage)
        ensures
            r == stream_usage(no_usage()),
    {
        AnthropicStreamUsage {
            input_tokens: 0,
            output_tokens: 0,
            cache_creation_input_tokens: None,
            cache_read_input_tokens: None,
        }
    }
}

/// An event of a streamed response.
#[derive(Debug)]
pub enum AnthropicStreamMessage {
    MessageStart {
        id: String,
        response_type: String,
        model: String,
        stop_sequence: Option<i32>,
        usage: AnthropicStreamUsage,
    },
    ContentBlockStart {
        index: usize,
        content_type: String,
        id: String,
        thinking: Option<String>,
        signature: Option<String>,
        name: Option<String>,
    },
    ContentBlockDelta {
        index: usize,
        delta_type: String,
        text: Option<String>,
        tool_use_id: Option<String>,
        name: Option<String>,
        input: Option<Json>,
    },
    /// The stop of a thinking block carries the signature of the thought.
    ContentBlockStop { index: usize, signature: Option<String> },
    MessageDelta {
        delta_type: String,
        stop_reason: Option<AnthropicStopReason>,
        stop_sequence: Option<i32>,
        usage: AnthropicStreamUsage,
    },
    MessageStop,
}

pub enum EventView {
    MessageStart {
        id: Seq<char>,
        response_type: Seq<char>,
        model: Seq<char>,
        stop_sequence: Option<i32>,
        usage: AnthropicStreamUsage,
    },
    ContentBlockStart {
        index: nat,
        content_type: Seq<char>,
        id: Seq<char>,
        thinking: Option<Seq<char>>,
        signature: Option<Seq<char>>,
        name: Option<Seq<char>>,
    },
    ContentBlockDelta {
        index: nat,
        delta_type: Seq<char>,
        text: Option<Seq<char>>,
        tool_use_id: Option<Seq<char>>,
        name: Option<Seq<char>>,
        input: Option<JsonView>,
    },
    ContentBlockStop { index: nat, signature: Option<Seq<char>> },
    MessageDelta {
        delta_type: Seq<char>,
        stop_reason: Option<AnthropicStopReason>,
        stop_sequence: Option<i32>,
        usage: AnthropicStreamUsage,
    },
    MessageStop,
}

impl DeepView for AnthropicStreamMessage {
    type V = EventView;

    open spec fn deep_view(&self) -> EventView {
        match self {
            AnthropicStreamMessage::MessageStart {
                id,
                response_type,
                model,
                stop_sequence,
                usage,
            } => EventView::MessageStart {
                id: id@,
                response_type: response_type@,
                model: model@,
                stop_sequence: *stop_sequence,
                usage: *usage,
            },
            AnthropicStreamMessage::ContentBlockStart {
                index,
                content_type,
                id,
                thinking,
                signature,
                name,
            } => EventView::ContentBlockStart {
                index: *index as nat,
                content_type: content_type@,
                id: id@,
                thinking: thinking.deep_view(),
                signature: signature.deep_view(),
                name: name.deep_view(),
            },
            AnthropicStreamMessage::ContentBlockDelta {
                index,
                delta_type,
                text,
                tool_use_id,
                name,
                input,
            } => EventView::ContentBlockDelta {
                index: *index as nat,
                delta_type: delta_type@,
                text: text.deep_view(),
                tool_use_id: tool_use_id.deep_view(),
                name: name.deep_view(),
                input: input.deep_view(),
            },
            AnthropicStreamMessage::ContentBlockStop { index, signature } =>
                EventView::ContentBlockStop {
                    index: *index as nat,
                    signature: signature.deep_view(),
                },
            AnthropicStreamMessage::MessageDelta {
                delta_type,
                stop_reason,
                stop_sequence,
                usage,
            } => EventView::MessageDelta {
                delta_type: delta_type@,
                stop_reason: *stop_reason,
                stop_sequence: *stop_sequence,
                usage: *usage,
            },
            AnthropicStreamMessage::MessageStop => EventView::MessageStop,
        }
    }
}

// ---------------------------------------------------------------------------
// Chunks
// ---------------------------------------------------------------------------

/// The kind of a content block.
#[derive(Clone, Copy, Debug, PartialEq, Eq, Structural)]
pub enum BlockKind {
    Text,
    ToolCall,
    Thinking,
    RedactedThinking,
}

/// The kind of block that a chunk belongs to.
pub open spec fn kind_of(chunk: ContentBlockChunkView) -> BlockKind {
    match chunk {
        ContentBlockChunkView::Text { .. } => BlockKind::Text,
        ContentBlockChunkView::ToolCall { .. } => BlockKind::ToolCall,
        ContentBlockChunkView::Thought { .. } => BlockKind::Thinking,
        ContentBlockChunkView::Unknown { .. } => BlockKind::RedactedThinking,
    }
}

impl BlockKind {
    /// The kind of block that a chunk belongs to.
    pub fn from_chunk(chunk: &ContentBlockChunk) -> (r: BlockKind)
        ensures
            r == kind_of(chunk.deep_view()),
    {
        match chunk {
            ContentBlockChunk::Text(_) => BlockKind::Text,
            ContentBlockChunk::ToolCall(_) => BlockKind::ToolCall,
            ContentBlockChunk::Thought(_) => BlockKind::Thinking,
            ContentBlockChunk::Unknown(_) => BlockKind::RedactedThinking,
        }
    }
}

/// The text of a text chunk.
pub open spec fn text_of(chunk: ContentBlockChunkView) -> Option<Seq<char>> {
    match chunk {
        ContentBlockChunkView::Text { text } => Some(text),
        _ => None,
    }
}

/// The text of a text chunk.
pub fn extract_text(chunk: &ContentBlockChunk) -> (r: Option<String>)
    ensures
        r.deep_view() == text_of(chunk.deep_view()),
{
    match chunk {
        ContentBlockChunk::Text(t) => Some(t.text.clone()),
        _ => None,
    }
}

/// An optional text, or nothing where it is empty.
pub open spec fn present(s: Option<Seq<char>>) -> Option<Seq<char>> {
    match s {
        Some(text) => nonempty(text),
        None => None,
    }
}

fn present_text(s: &Option<String>) -> (r: Option<String>)
    ensures
        r.deep_view() == present(s.deep_view()),
{
    match s {
        Some(text) => nonempty_text(text.as_str()),
        None => None,
    }
}

/// The text and the signature of a thought, each where it is not empty.
pub open spec fn thought_of(chunk: ContentBlockChunkView) -> (Option<Seq<char>>, Option<Seq<char>>) {
    match chunk {
        ContentBlockChunkView::Thought { text, signature } => (present(text), present(signature)),
        _ => (None, None),
    }
}

/// The text and the signature of a thought, each where it is not empty.
pub fn extract_thought_fields(chunk: &ContentBlockChunk) -> (r: (Option<String>, Option<String>))
    ensures
        r.deep_view() == thought_of(chunk.deep_view()),
{
    match chunk {
        ContentBlockChunk::Thought(t) => (present_text(&t.text), present_text(&t.signature)),
        _ => (None, None),
    }
}

/// The data of an unknown block: a string as it is, anything else as JSON text.
pub open spec fn unknown_data(data: JsonView) -> Seq<char> {
    match data {
        JsonView::String(s) => s,
        _ => json_text(data),
    }
}

/// The data of an unknown chunk, and nothing for another.
pub open spec fn unknown_of(chunk: ContentBlockChunkView) -> Seq<char> {
    match chunk {
        ContentBlockChunkView::Unknown { data } => unknown_data(data),
        _ => Seq::empty(),
    }
}

/// The data of an unknown chunk, and nothing for another.
pub fn extract_unknown_data(chunk: &ContentBlockChunk) -> (r: String)
    ensures
        r@ == unknown_of(chunk.deep_view()),
{
    match chunk {
        ContentBlockChunk::Unknown(u) => match &u.data {
            Json::String(s) => s.clone(),
            _ => print_json(&u.data),
        },
        _ => String::new(),
    }
}

/// A value that was read, or an empty object where nothing could be read.
pub open spec fn value_or_empty(read: Result<JsonView, Seq<char>>) -> JsonView {
    match read {
        Ok(value) => value,
        Err(_) => JsonView::Object(Seq::empty()),
    }
}

/// A value that was read, or an empty object where nothing could be read.
pub fn read_or_empty(read: Result<Json, String>) -> (r: Json)
    ensures
        r@ == value_or_empty(outcome(read)),
{
    match read {
        Ok(value) => value,
        Err(_) => {
            let empty: Json = Json::Object(Vec::new());
            assert(empty@->Object_0 =~= Seq::empty());
            empty
        },
    }
}

/// The input that a tool call's arguments spell: an empty object where they are
/// no JSON.
pub open spec fn tool_input(raw_arguments: Seq<char>) -> JsonView {
    value_or_empty(parsed_json(raw_arguments))
}

/// The ID, the name and the input of a tool call.
pub open spec fn tool_call_of(chunk: ContentBlockChunkView) -> (
    Seq<char>,
    Seq<char>,
    Option<JsonView>,
) {
    match chunk {
        ContentBlockChunkView::ToolCall { id, raw_name, raw_arguments } => (
            id,
            or_value(raw_name, Seq::empty()),
            Some(tool_input(raw_arguments)),
        ),
        _ => (Seq::empty(), Seq::empty(), None),
    }
}

/// The ID, the name and the input of a tool call.
pub fn extract_toolcall_fields(chunk: &ContentBlockChunk) -> (r: (String, String, Option<Json>))
    ensures
        r.deep_view() == tool_call_of(chunk.deep_view()),
{
    match chunk {
        ContentBlockChunk::ToolCall(t) => {
            let name: String = match &t.raw_name {
                Some(name) => name.clone(),
                None => String::new(),
            };
            let input: Json = read_or_empty(parse_json(t.raw_arguments.as_str()));
            assert(name@ =~= or_value(t.raw_name.deep_view(), Seq::empty()));
            (t.id.clone(), name, Some(input))
        },
        _ => (String::new(), String::new(), None),
    }
}

impl InferenceResponseChunk {
    /// The content blocks of a chat chunk.
    pub fn content_blocks(&self) -> (r: &[ContentBlockChunk])
        ensures
            match self {
                InferenceResponseChunk::Chat(c) => r@ == c.content@,
                InferenceResponseChunk::Json(_) => r@.len() == 0,
            },
    {
        match self {
            InferenceResponseChunk::Chat(c) => c.content.as_slice(),
            InferenceResponseChunk::Json(_) => &[],
        }
    }

    /// The usage that the chunk reports.
    pub fn usage(&self) -> (r: Option<&Usage>)
        ensures
            match r {
                Some(usage) => usage_of(self.deep_view()) == Some(*usage),
                None => usage_of(self.deep_view()) is None,
            },
    {
        match self {
            InferenceResponseChunk::Chat(c) => c.usage.as_ref(),
            InferenceResponseChunk::Json(j) => j.usage.as_ref(),
        }
    }

    /// The finish reason that the chunk reports.
    pub fn finish_reason(&self) -> (r: Option<&FinishReason>)
        ensures
            match r {
                Some(reason) => finish_of(self.deep_view()) == Some(*reason),
                None => finish_of(self.deep_view()) is None,
            },
    {
        match self {
            InferenceResponseChunk::Chat(c) => c.finish_reason.as_ref(),
            InferenceResponseChunk::Json(j) => j.finish_reason.as_ref(),
        }
    }
}

/// The usage that a chunk reports.
pub open spec fn usage_of(chunk: ChunkView) -> Option<Usage> {
    match chunk {
        ChunkView::Chat { usage, .. } => usage,
        ChunkView::Json { usage, .. } => usage,
    }
}

/// The finish reason that a chunk reports.
pub open spec fn finish_of(chunk: ChunkView) -> Option<FinishReason> {
    match chunk {
        ChunkView::Chat { finish_reason, .. } => finish_reason,
        ChunkView::Json { finish_reason, .. } => finish_reason,
    }
}

/// The content blocks of a chunk.
pub open spec fn blocks_of(chunk: ChunkView) -> Seq<ContentBlockChunkView> {
    match chunk {
        ChunkView::Chat { content, .. } => content,
        ChunkView::Json { .. } => Seq::empty(),
    }
}

// ---------------------------------------------------------------------------
// Usage
// ---------------------------------------------------------------------------

/// Two counts together: their sum, or the one that is there.
pub open spec fn sum_of(a: Option<u32>, b: Option<u32>) -> Option<u32> {
    match (a, b) {
        (Some(x), Some(y)) => Some((x + y) as u32),
        _ => or_else(a, b),
    }
}

/// Whether two counts together still fit.
pub open spec fn sum_fits(a: Option<u32>, b: Option<u32>) -> bool {
    match (a, b) {
        (Some(x), Some(y)) => x + y <= u32::MAX,
        _ => true,
    }
}

/// Two usages together. The cost is the first that was reported.
pub open spec fn added_usage(a: Usage, b: Usage) -> Usage {
    Usage {
        input_tokens: sum_of(a.input_tokens, b.input_tokens),
        output_tokens: sum_of(a.output_tokens, b.output_tokens),
        provider_cache_read_input_tokens: sum_of(
            a.provider_cache_read_input_tokens,
            b.provider_cache_read_input_tokens,
        ),
        provider_cache_write_input_tokens: sum_of(
            a.provider_cache_write_input_tokens,
            b.provider_cache_write_input_tokens,
        ),
        cost: or_else(a.cost, b.cost),
    }
}

/// Whether two usages together still fit.
pub open spec fn usage_fits(a: Usage, b: Usage) -> bool {
    &&& sum_fits(a.input_tokens, b.input_tokens)
    &&& sum_fits(a.output_tokens, b.output_tokens)
    &&& sum_fits(a.provider_cache_read_input_tokens, b.provider_cache_read_input_tokens)
    &&& sum_fits(a.provider_cache_write_input_tokens, b.provider_cache_write_input_tokens)
}

fn add_counts(a: Option<u32>, b: Option<u32>) -> (r: Option<u32>)
    requires
        sum_fits(a, b),
    ensures
        r == sum_of(a, b),
{
    match (a, b) {
        (Some(x), Some(y)) => Some(x + y),
        (Some(x), None) => Some(x),
        (None, y) => y,
    }
}

/// Adds the usage of a chunk to what was accumulated.
pub fn accumulate_usage(accum: &mut Usage, other: &Usage)
    requires
        usage_fits(*old(accum), *other),
    ensures
        *final(accum) == added_usage(*old(accum), *other),
{
    accum.input_tokens = add_counts(accum.input_tokens, other.input_tokens);
    accum.output_tokens = add_counts(accum.output_tokens, other.output_tokens);
    accum.provider_cache_read_input_tokens = add_counts(
        accum.provider_cache_read_input_tokens,
        other.provider_cache_read_input_tokens,
    );
    accum.provider_cache_write_input_tokens = add_counts(
        accum.provider_cache_write_input_tokens,
        other.provider_cache_write_input_tokens,
    );
    if accum.cost.is_none() {
        accum.cost = other.cost;
    }
}

fn counts_fit(a: Option<u32>, b: Option<u32>) -> (r: bool)
    ensures
        r == sum_fits(a, b),
{
    match (a, b) {
        (Some(x), Some(y)) => x <= u32::MAX - y,
        _ => true,
    }
}

/// Whether the usage of a chunk can be added to what was accumulated.
pub fn usage_can_grow(accum: &Usage, other: &Usage) -> (r: bool)
    ensures
        r == usage_fits(*accum, *other),
{
    counts_fit(accum.input_tokens, other.input_tokens) && counts_fit(
        accum.output_tokens,
        other.output_tokens,
    ) && counts_fit(
        accum.provider_cache_read_input_tokens,
        other.provider_cache_read_input_tokens,
    ) && counts_fit(
        accum.provider_cache_write_input_tokens,
        other.provider_cache_write_input_tokens,
    )
}

/// The stop reason that stands for why an inference stopped.
pub fn finish_reason_to_anthropic_stop_reason(reason: Option<FinishReason>) -> (r: Option<
    AnthropicStopReason,
>)
    ensures
        r == stop_reason_of(reason),
{
    match reason {
        None => None,
        Some(FinishReason::Stop) => Some(AnthropicStopReason::EndTurn),
        Some(FinishReason::Length) => Some(AnthropicStopReason::MaxTokens),
        Some(FinishReason::StopSequence) => Some(AnthropicStopReason::StopSequence),
        Some(FinishReason::ToolCall) => Some(AnthropicStopReason::ToolUse),
        Some(FinishReason::ContentFilter) => None,
        Some(FinishReason::Unknown) => None,
    }
}

} // verus!
