//! What the parts of the stream machinery take from a chunk and give to a client.
use crate::inference::{ChunkView, ContentBlockChunkView, Usage};
use crate::json::{Json, JsonNumber, JsonNumberView, JsonView, nested_at_most};
use crate::outside::{json_text, parsed_json};
use crate::text::numeral;
use crate::types::delta_laws::{is_reason_for, shows_usage, tokens};
use crate::types::messages::{AnthropicToolChoiceView, BlockView, block_kind, disables_parallel};
use crate::types::response::value_or_text;
use crate::types::sse::{event_json, event_name, failure_json, failure_sse, sse_of};
use crate::types::stream_adapter::{StreamInput, StreamInputView};
use crate::types::stream_state::{
    StreamStateView, after_blocks, after_chunk, blocks_events, chunk_events, final_events, noted,
    set_aside, stop_event,
};
use crate::types::streaming::{
    AnthropicStreamMessage, BlockKind, EventView, added_usage, blocks_of, finish_of, kind_of,
    text_of, thought_of, tool_call_of, unknown_of, usage_fits, usage_of, value_or_empty,
};
use crate::types::translate::marker_on;
use vstd::prelude::*;

verus! {

// ---------------------------------------------------------------------------
// Chunks
// ---------------------------------------------------------------------------

/// Each piece of an answer is of one kind of block.
pub proof fn pieces_have_their_kind(piece: ContentBlockChunkView)
    ensures
        piece is Text <==> kind_of(piece) == BlockKind::Text,
        piece is ToolCall <==> kind_of(piece) == BlockKind::ToolCall,
        piece is Thought <==> kind_of(piece) == BlockKind::Thinking,
        piece is Unknown <==> kind_of(piece) == BlockKind::RedactedThinking,
{
}

/// Only a text piece has a text.
pub proof fn text_is_taken(piece: ContentBlockChunkView)
    ensures
        match text_of(piece) {
            Some(text) => piece is Text && piece->Text_text == text,
            None => !(piece is Text),
        },
{
}

/// Only a thought has a thought and a signature, each where it is there and not empty.
pub proof fn thoughts_are_taken(piece: ContentBlockChunkView)
    ensures
        match thought_of(piece).0 {
            Some(text) => piece is Thought && piece->Thought_text == Some(text) && text.len() > 0,
            None => piece is Thought ==> piece->Thought_text is None
                || piece->Thought_text->0.len() == 0,
        },
        match thought_of(piece).1 {
            Some(signature) => piece is Thought && piece->Thought_signature == Some(signature)
                && signature.len() > 0,
            None => piece is Thought ==> piece->Thought_signature is None
                || piece->Thought_signature->0.len() == 0,
        },
{
}

/// The data of an unknown piece is a text as it is, or the JSON text of any other value.
pub proof fn unknown_data_are_taken(piece: ContentBlockChunkView)
    ensures
        match piece {
            ContentBlockChunkView::Unknown { data: JsonView::String(text) } => unknown_of(piece)
                == text,
            ContentBlockChunkView::Unknown { data } => unknown_of(piece) == json_text(data),
            _ => unknown_of(piece).len() == 0,
        },
{
}

/// A piece of a tool call has its ID, its name and the input that its arguments spell.
pub proof fn tool_calls_are_taken(piece: ContentBlockChunkView)
    ensures
        match piece {
            ContentBlockChunkView::ToolCall { id, raw_name, raw_arguments } => {
                &&& tool_call_of(piece).0 == id
                &&& raw_name matches Some(name) ==> tool_call_of(piece).1 == name
                &&& raw_name is None ==> tool_call_of(piece).1.len() == 0
                &&& match parsed_json(raw_arguments) {
                    Ok(input) => tool_call_of(piece).2 == Some(input),
                    Err(_) => tool_call_of(piece).2 == Some(JsonView::Object(Seq::empty())),
                }
            },
            _ => tool_call_of(piece).0.len() == 0 && tool_call_of(piece).1.len() == 0
                && tool_call_of(piece).2 is None,
        },
{
}

/// A value that was read is kept; where nothing was read, an empty object or the text
/// stands in its place.
pub proof fn what_was_read_is_kept(read: Result<JsonView, Seq<char>>, text: Seq<char>)
    ensures
        match read {
            Ok(v) => value_or_empty(read) == v && value_or_text(read, text) == v,
            Err(_) => value_or_empty(read) == JsonView::Object(Seq::empty()) && value_or_text(
                read,
                text,
            ) == JsonView::String(text),
        },
{
}

/// A chunk gives its own usage, finish reason and pieces.
pub proof fn chunks_give_their_parts(chunk: ChunkView)
    ensures
        match chunk {
            ChunkView::Chat { content, usage, finish_reason, .. } => usage_of(chunk) == usage
                && finish_of(chunk) == finish_reason && blocks_of(chunk) == content,
            ChunkView::Json { usage, finish_reason, .. } => usage_of(chunk) == usage && finish_of(
                chunk,
            ) == finish_reason && blocks_of(chunk).len() == 0,
        },
{
}

/// Two usages together count what both count. A count is there if one of them has it, and
/// the cost is the first that was reported.
pub proof fn usages_are_added(a: Usage, b: Usage)
    requires
        usage_fits(a, b),
    ensures
        ({
            let sum = added_usage(a, b);
            &&& is_sum(sum.input_tokens, a.input_tokens, b.input_tokens)
            &&& is_sum(sum.output_tokens, a.output_tokens, b.output_tokens)
            &&& is_sum(
                sum.provider_cache_read_input_tokens,
                a.provider_cache_read_input_tokens,
                b.provider_cache_read_input_tokens,
            )
            &&& is_sum(
                sum.provider_cache_write_input_tokens,
                a.provider_cache_write_input_tokens,
                b.provider_cache_write_input_tokens,
            )
            &&& a.cost is Some ==> sum.cost == a.cost
            &&& a.cost is None ==> sum.cost == b.cost
        }),
{
}

/// Whether a count is that of two counts together.
pub open spec fn is_sum(sum: Option<u32>, a: Option<u32>, b: Option<u32>) -> bool {
    &&& tokens(sum) == tokens(a) + tokens(b)
    &&& sum is Some <==> a is Some || b is Some
}

/// Usages can be added as long as no count exceeds 32 bits.
pub proof fn usages_fit(a: Usage, b: Usage)
    ensures
        usage_fits(a, b) <==> tokens(a.input_tokens) + tokens(b.input_tokens) <= u32::MAX && tokens(
            a.output_tokens,
        ) + tokens(b.output_tokens) <= u32::MAX && tokens(a.provider_cache_read_input_tokens)
            + tokens(b.provider_cache_read_input_tokens) <= u32::MAX && tokens(
            a.provider_cache_write_input_tokens,
        ) + tokens(b.provider_cache_write_input_tokens) <= u32::MAX,
{
}

// ---------------------------------------------------------------------------
// State machine
// ---------------------------------------------------------------------------

/// The events of a chunk begin with one `message_start` if none was sent before, and only
/// then. It carries the usage so far, this chunk's too. The events of its pieces follow.
pub proof fn chunks_open_the_message(
    s: StreamStateView,
    chunk: ChunkView,
    inference_id: Seq<char>,
    model: Seq<char>,
)
    requires
        chunk is Chat,
    ensures
        ({
            let events = chunk_events(s, chunk, inference_id, model);
            let pieces = blocks_events(noted(s, chunk), chunk->Chat_content);
            if s.started {
                events == pieces
            } else {
                let first = events[0];
                &&& events.len() == pieces.len() + 1
                &&& first is MessageStart
                &&& first->MessageStart_id == "msg_"@ + inference_id
                &&& first->MessageStart_response_type == "message"@
                &&& first->MessageStart_model == model
                &&& first->MessageStart_stop_sequence is None
                &&& shows_usage(
                    noted(s, chunk).usage,
                    first->MessageStart_usage.input_tokens,
                    first->MessageStart_usage.output_tokens,
                    first->MessageStart_usage.cache_creation_input_tokens,
                    first->MessageStart_usage.cache_read_input_tokens,
                )
                &&& forall|k: int|
                    0 <= k < pieces.len() ==> events[k + 1] == #[trigger] pieces[k]
            }
        }),
{
    let pieces = blocks_events(noted(s, chunk), chunk->Chat_content);
    assert(Seq::<EventView>::empty() + pieces =~= pieces);
}

/// A chunk adds its usage to what was seen, and its finish reason counts from then on. The
/// message has begun.
pub proof fn chunks_are_noted(s: StreamStateView, chunk: ChunkView)
    ensures
        ({
            let (usage, reason) = match chunk {
                ChunkView::Chat { usage, finish_reason, .. } => (usage, finish_reason),
                ChunkView::Json { usage, finish_reason, .. } => (usage, finish_reason),
            };
            &&& usage matches Some(u) ==> noted(s, chunk).usage == added_usage(s.usage, u)
            &&& usage is None ==> noted(s, chunk).usage == s.usage
            &&& reason is Some ==> noted(s, chunk).finish_reason == reason
            &&& reason is None ==> noted(s, chunk).finish_reason == s.finish_reason
            &&& noted(s, chunk).started
            &&& noted(s, chunk).open_kind == s.open_kind
            &&& noted(s, chunk).index == s.index
            &&& noted(s, chunk).tool_indices == s.tool_indices
            &&& noted(s, chunk).total_blocks == s.total_blocks
            &&& noted(s, chunk).block_ids == s.block_ids
            &&& noted(s, chunk).thinking_signature == s.thinking_signature
            &&& set_aside(s, chunk).usage == noted(s, chunk).usage
            &&& set_aside(s, chunk).finish_reason == noted(s, chunk).finish_reason
            &&& set_aside(s, chunk).open_kind is None
            &&& set_aside(s, chunk).started
            &&& set_aside(s, chunk).total_blocks == s.total_blocks
            &&& set_aside(s, chunk).block_ids == s.block_ids
            &&& chunk matches ChunkView::Chat { content, .. } ==> after_chunk(s, chunk)
                == after_blocks(noted(s, chunk), content)
        }),
{
}

/// A message ends with one `message_delta`, which carries the stop reason and the usage, and
/// `message_stop`.
pub proof fn messages_are_closed(s: StreamStateView)
    ensures
        ({
            let events = final_events(s);
            &&& events.len() == 2
            &&& events[0] is MessageDelta
            &&& events[0]->MessageDelta_delta_type == "message_delta"@
            &&& is_reason_for(events[0]->MessageDelta_stop_reason, s.finish_reason)
            &&& events[0]->MessageDelta_stop_sequence is None
            &&& shows_usage(
                s.usage,
                events[0]->MessageDelta_usage.input_tokens,
                events[0]->MessageDelta_usage.output_tokens,
                events[0]->MessageDelta_usage.cache_creation_input_tokens,
                events[0]->MessageDelta_usage.cache_read_input_tokens,
            )
            &&& events[1] is MessageStop
        }),
{
}

/// The stop of the open block names that block, and carries the last signature if the block
/// is a thought.
pub proof fn stops_name_their_block(s: StreamStateView)
    ensures
        stop_event(s) is ContentBlockStop,
        stop_event(s)->ContentBlockStop_index == s.index,
        s.open_kind == Some(BlockKind::Thinking) ==> stop_event(s)->ContentBlockStop_signature
            == s.thinking_signature,
        s.open_kind != Some(BlockKind::Thinking) ==> stop_event(
            s,
        )->ContentBlockStop_signature is None,
{
}

// ---------------------------------------------------------------------------
// Server-sent events
// ---------------------------------------------------------------------------

/// A message is sent under its name, with its number and its JSON text. A failure is sent as
/// an error.
pub proof fn events_are_written(message: EventView, failure: Seq<char>, id: nat)
    ensures
        sse_of(message, id).event == event_name(message),
        sse_of(message, id).id == numeral(id),
        sse_of(message, id).data == json_text(event_json(message)),
        failure_sse(failure, id).event == "error"@,
        failure_sse(failure, id).id == numeral(id),
        failure_sse(failure, id).data == json_text(failure_json(failure)),
{
}

/// The model of an event is of the kind of the event, and holds what it holds.
pub proof fn stream_messages_are_shown(x: AnthropicStreamMessage)
    ensures
        match x {
            AnthropicStreamMessage::MessageStart {
                id,
                response_type,
                model,
                stop_sequence,
                usage,
            } => x.deep_view() == (EventView::MessageStart {
                id: id@,
                response_type: response_type@,
                model: model@,
                stop_sequence,
                usage,
            }),
            AnthropicStreamMessage::ContentBlockStart {
                index,
                content_type,
                id,
                thinking,
                signature,
                name,
            } => x.deep_view() == (EventView::ContentBlockStart {
                index: index as nat,
                content_type: content_type@,
                id: id@,
                thinking: thinking.deep_view(),
                signature: signature.deep_view(),
                name: name.deep_view(),
            }),
            AnthropicStreamMessage::ContentBlockDelta {
                index,
                delta_type,
                text,
                tool_use_id,
                name,
                input,
            } => x.deep_view() == (EventView::ContentBlockDelta {
                index: index as nat,
                delta_type: delta_type@,
                text: text.deep_view(),
                tool_use_id: tool_use_id.deep_view(),
                name: name.deep_view(),
                input: input.deep_view(),
            }),
            AnthropicStreamMessage::ContentBlockStop { index, signature } => x.deep_view() == (
            EventView::ContentBlockStop {
                index: index as nat,
                signature: signature.deep_view(),
            }),
            AnthropicStreamMessage::MessageDelta {
                delta_type,
                stop_reason,
                stop_sequence,
                usage,
            } => x.deep_view() == (EventView::MessageDelta {
                delta_type: delta_type@,
                stop_reason,
                stop_sequence,
                usage,
            }),
            AnthropicStreamMessage::MessageStop => x.deep_view() == EventView::MessageStop,
        },
{
}

/// The model of what an inference yielded holds what it yielded.
pub proof fn stream_inputs_are_shown(x: StreamInput)
    ensures
        match x {
            StreamInput::Chunk(chunk) => x.deep_view() == StreamInputView::Chunk(
                chunk.deep_view(),
            ),
            StreamInput::Failed(message) => x.deep_view() == StreamInputView::Failed(message@),
            StreamInput::Ended => x.deep_view() == StreamInputView::Ended,
        },
{
}

// ---------------------------------------------------------------------------
// JSON and blocks
// ---------------------------------------------------------------------------

/// The model of a JSON value is of the kind of the value, and holds what it holds.
pub proof fn json_is_shown(x: Json)
    ensures
        match x {
            Json::Null => x@ == JsonView::Null,
            Json::Bool(b) => x@ == JsonView::Bool(b),
            Json::Number(JsonNumber::Unsigned(n)) => x@ == JsonView::Number(
                JsonNumberView::Unsigned(n),
            ),
            Json::Number(JsonNumber::Negative(n)) => x@ == JsonView::Number(
                JsonNumberView::Negative(n),
            ),
            Json::Number(JsonNumber::Fractional(t)) => x@ == JsonView::Number(
                JsonNumberView::Fractional(t@),
            ),
            Json::String(s) => x@ == JsonView::String(s@),
            Json::Array(items) => x@ is Array && x@->Array_0.len() == items@.len() && forall|k: int|
                0 <= k < items@.len() ==> x@->Array_0[k] == (#[trigger] items@[k])@,
            Json::Object(entries) => x@ is Object && x@->Object_0.len() == entries@.len()
                && forall|k: int|
                0 <= k < entries@.len() ==> x@->Object_0[k] == (
                    (#[trigger] entries@[k]).key@,
                    entries@[k].value@,
                ),
        },
        x.deep_view() == x@,
{
}

/// A value is nested one level deeper than what stands in it.
pub proof fn nesting_is_by_level(v: JsonView, n: nat)
    ensures
        !(v is Array || v is Object) ==> nested_at_most(v, n),
        (v is Array || v is Object) ==> !nested_at_most(v, 0),
        v matches JsonView::Array(items) ==> (nested_at_most(v, n + 1) <==> forall|k: int|
            0 <= k < items.len() ==> nested_at_most(#[trigger] items[k], n)),
        v matches JsonView::Object(entries) ==> (nested_at_most(v, n + 1) <==> forall|k: int|
            0 <= k < entries.len() ==> nested_at_most((#[trigger] entries[k]).1, n)),
{
}

/// A tool choice says of its own field whether it forbids parallel calls.
pub proof fn parallel_calls_are_taken(choice: AnthropicToolChoiceView)
    ensures
        match choice {
            AnthropicToolChoiceView::Auto { disable_parallel_tool_use } => disables_parallel(choice)
                == disable_parallel_tool_use,
            AnthropicToolChoiceView::Any { disable_parallel_tool_use } => disables_parallel(choice)
                == disable_parallel_tool_use,
            AnthropicToolChoiceView::Tool { disable_parallel_tool_use, .. } => disables_parallel(
                choice,
            ) == disable_parallel_tool_use,
            AnthropicToolChoiceView::NoTool { disable_parallel_tool_use } => disables_parallel(
                choice,
            ) == disable_parallel_tool_use,
        },
{
}

/// A block has the kind and the marker that it says.
pub proof fn blocks_have_their_kind(block: BlockView)
    ensures
        match block {
            BlockView::Text { cache_control, .. } => block_kind(block) == "text"@ && marker_on(block)
                == cache_control,
            BlockView::Image { cache_control, .. } => block_kind(block) == "image"@ && marker_on(
                block,
            ) == cache_control,
            BlockView::Document { cache_control, .. } => block_kind(block) == "document"@
                && marker_on(block) == cache_control,
            BlockView::ToolUse { cache_control, .. } => block_kind(block) == "tool_use"@
                && marker_on(block) == cache_control,
            BlockView::ToolResult { cache_control, .. } => block_kind(block) == "tool_result"@
                && marker_on(block) == cache_control,
            BlockView::Thinking { .. } => block_kind(block) == "thinking"@ && marker_on(
                block,
            ) is None,
            BlockView::RedactedThinking { .. } => block_kind(block) == "redacted_thinking"@
                && marker_on(block) is None,
        },
{
}

} // verus!
