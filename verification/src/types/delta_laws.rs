//! What a streamed response carries of each piece of an answer.
use crate::inference::{ChunkView, ContentBlockChunkView, FinishReason, Usage};
use crate::json::JsonView;
use crate::outside::{json_text, parsed_json, uuid_text};
use crate::provider::AnthropicStopReason;
use crate::text::numeral;
use crate::types::sse::event_name;
use crate::types::stream_adapter::{
    AdapterView, StreamInputView, can_take, chat_stop, chunk_messages, closing_messages, fed,
    initial_adapter, json_messages,
};
use crate::types::stream_laws::{
    Counter, all_blocks, all_chat, counted_in_all, deltas, each_piece_has_one_delta,
    last_finish_reason, message_delta_sums_up, messages_of, run, same_block,
    the_first_event_names_the_inference, total_usage, usage_is_the_sum, whole_response,
};
use crate::types::stream_state::{
    StreamStateView, after_block, after_blocks, block_events, block_keeps_state_ok, blocks_events,
    delta_event, has_room, initial_state, noted, opens_block, start_event, state_ok, tool_key,
};
use crate::types::streaming::{EventView, kind_of};
use vstd::prelude::*;

verus! {

// ---------------------------------------------------------------------------
// What events give together
// ---------------------------------------------------------------------------

/// What some events give together, in order, where each gives what `f` says.
pub open spec fn gathered<A>(events: Seq<EventView>, f: spec_fn(EventView) -> Seq<A>) -> Seq<A>
    decreases events.len(),
{
    if events.len() == 0 {
        Seq::empty()
    } else {
        gathered(events.drop_last(), f) + f(events.last())
    }
}

/// What some pieces of content give together, in order.
pub open spec fn gathered_of_pieces<A>(
    pieces: Seq<ContentBlockChunkView>,
    g: spec_fn(ContentBlockChunkView) -> Seq<A>,
) -> Seq<A>
    decreases pieces.len(),
{
    if pieces.len() == 0 {
        Seq::empty()
    } else {
        gathered_of_pieces(pieces.drop_last(), g) + g(pieces.last())
    }
}

/// What the content of some chunks gives together, in order.
pub open spec fn gathered_of_chunks<A>(
    chunks: Seq<ChunkView>,
    g: spec_fn(ContentBlockChunkView) -> Seq<A>,
) -> Seq<A>
    decreases chunks.len(),
{
    if chunks.len() == 0 {
        Seq::empty()
    } else {
        gathered_of_chunks(chunks.drop_last(), g) + match chunks.last() {
            ChunkView::Chat { content, .. } => gathered_of_pieces(content, g),
            ChunkView::Json { .. } => Seq::empty(),
        }
    }
}

proof fn gathered_in_both<A>(
    a: Seq<EventView>,
    b: Seq<EventView>,
    f: spec_fn(EventView) -> Seq<A>,
)
    ensures
        gathered(a + b, f) == gathered(a, f) + gathered(b, f),
    decreases b.len(),
{
    if b.len() == 0 {
        assert(a + b =~= a);
        assert(gathered(a, f) + gathered(b, f) =~= gathered(a, f));
    } else {
        assert((a + b).drop_last() =~= a + b.drop_last());
        gathered_in_both(a, b.drop_last(), f);
        assert(gathered(a + b, f) =~= gathered(a, f) + gathered(b, f));
    }
}

proof fn nothing_gathered<A>(events: Seq<EventView>, f: spec_fn(EventView) -> Seq<A>)
    requires
        forall|k: int| 0 <= k < events.len() ==> f(#[trigger] events[k]) == Seq::<A>::empty(),
    ensures
        gathered(events, f) == Seq::<A>::empty(),
    decreases events.len(),
{
    if events.len() > 0 {
        let rest = events.drop_last();
        assert forall|k: int| 0 <= k < rest.len() implies f(#[trigger] rest[k]) == Seq::<
            A,
        >::empty() by {
            assert(rest[k] == events[k]);
        }
        nothing_gathered(rest, f);
        assert(f(events[events.len() - 1]) == Seq::<A>::empty());
        assert(gathered(events, f) =~= Seq::empty());
    }
}

/// Whether `f` finds in the events of a piece what `g` finds in the piece, and nothing
/// in other events.
pub open spec fn finds<A>(
    f: spec_fn(EventView) -> Seq<A>,
    g: spec_fn(ContentBlockChunkView) -> Seq<A>,
) -> bool {
    &&& forall|e: EventView| !(e is ContentBlockDelta) ==> #[trigger] f(e) == Seq::<A>::empty()
    &&& forall|index: nat, piece: ContentBlockChunkView|
        f(#[trigger] delta_event(index, piece)) == g(piece)
    &&& forall|e: EventView|
        e is ContentBlockDelta && e->ContentBlockDelta_delta_type == "text_delta"@ && e
            ->ContentBlockDelta_input is None && e->ContentBlockDelta_name is None
            ==> #[trigger] f(e) == Seq::<A>::empty()
}

proof fn gathered_of_block<A>(
    s: StreamStateView,
    piece: ContentBlockChunkView,
    f: spec_fn(EventView) -> Seq<A>,
    g: spec_fn(ContentBlockChunkView) -> Seq<A>,
)
    requires
        finds(f, g),
    ensures
        gathered(block_events(s, piece), f) == g(piece),
{
    let events = block_events(s, piece);
    let head = events.drop_last();
    let delta = delta_event(after_block(s, piece).index, piece);
    assert(events.last() == delta);
    assert forall|k: int| 0 <= k < head.len() implies f(#[trigger] head[k]) == Seq::<
        A,
    >::empty() by {
        assert(!(head[k] is ContentBlockDelta));
    }
    nothing_gathered(head, f);
    assert(gathered(events, f) =~= g(piece));
}

proof fn gathered_of_blocks<A>(
    s: StreamStateView,
    pieces: Seq<ContentBlockChunkView>,
    f: spec_fn(EventView) -> Seq<A>,
    g: spec_fn(ContentBlockChunkView) -> Seq<A>,
)
    requires
        finds(f, g),
    ensures
        gathered(blocks_events(s, pieces), f) == gathered_of_pieces(pieces, g),
    decreases pieces.len(),
{
    if pieces.len() > 0 {
        let middle = after_blocks(s, pieces.drop_last());
        gathered_of_blocks(s, pieces.drop_last(), f, g);
        gathered_of_block(middle, pieces.last(), f, g);
        gathered_in_both(
            blocks_events(s, pieces.drop_last()),
            block_events(middle, pieces.last()),
            f,
        );
    }
}

proof fn gathered_of_messages<A>(
    model: Seq<char>,
    chunks: Seq<ChunkView>,
    f: spec_fn(EventView) -> Seq<A>,
    g: spec_fn(ContentBlockChunkView) -> Seq<A>,
)
    requires
        finds(f, g),
    ensures
        gathered(messages_of(model, chunks), f) == gathered_of_chunks(chunks, g),
    decreases chunks.len(),
{
    if chunks.len() > 0 {
        let rest = chunks.drop_last();
        let chunk = chunks.last();
        let a = run(model, rest);
        let messages = chunk_messages(a, chunk);
        gathered_of_messages(model, rest, f, g);
        gathered_in_both(messages_of(model, rest), messages, f);
        match chunk {
            ChunkView::Chat { content, .. } => {
                let s = noted(a.state, chunk);
                let body = blocks_events(s, content);
                let n = messages.len() - body.len();
                let head = messages.take(n);
                assert(messages =~= head + body);
                assert forall|k: int| 0 <= k < head.len() implies f(#[trigger] head[k]) == Seq::<
                    A,
                >::empty() by {
                    assert(!(head[k] is ContentBlockDelta));
                }
                nothing_gathered(head, f);
                gathered_in_both(head, body, f);
                gathered_of_blocks(s, content, f, g);
                assert(gathered(messages, f) =~= gathered_of_pieces(content, g));
            },
            ChunkView::Json { raw, .. } => {
                assert forall|k: int| 0 <= k < messages.len() implies f(
                    #[trigger] messages[k],
                ) == Seq::<A>::empty() by {
                    assert(messages[k] is ContentBlockDelta ==> k == messages.len() - 1);
                }
                nothing_gathered(messages, f);
                assert(gathered(messages, f) =~= Seq::empty());
            },
        }
    }
}

proof fn gathered_of_response<A>(
    model: Seq<char>,
    chunks: Seq<ChunkView>,
    f: spec_fn(EventView) -> Seq<A>,
    g: spec_fn(ContentBlockChunkView) -> Seq<A>,
)
    requires
        finds(f, g),
    ensures
        gathered(whole_response(model, chunks), f) == gathered_of_chunks(chunks, g),
{
    let closing = closing_messages(run(model, chunks));
    gathered_of_messages(model, chunks, f, g);
    gathered_in_both(messages_of(model, chunks), closing, f);
    assert forall|k: int| 0 <= k < closing.len() implies f(#[trigger] closing[k]) == Seq::<
        A,
    >::empty() by {
        assert(!(closing[k] is ContentBlockDelta));
    }
    nothing_gathered(closing, f);
    assert(gathered(whole_response(model, chunks), f) =~= gathered_of_chunks(chunks, g));
}

proof fn delta_types_differ()
    ensures
        "text_delta"@ != "thinking_delta"@,
        "text_delta"@ != "input_json_delta"@,
        "thinking_delta"@ != "input_json_delta"@,
{
    reveal_strlit("text_delta");
    reveal_strlit("thinking_delta");
    reveal_strlit("input_json_delta");
    assert("text_delta"@.len() == 10);
    assert("thinking_delta"@.len() == 14);
    assert("input_json_delta"@.len() == 16);
}

// ---------------------------------------------------------------------------
// Thoughts and tool calls
// ---------------------------------------------------------------------------

/// What an event adds to a thought.
pub open spec fn thinking_in(event: EventView) -> Seq<char> {
    match event {
        EventView::ContentBlockDelta { delta_type, text: Some(text), .. } => if delta_type
            == "thinking_delta"@ {
            text
        } else {
            Seq::empty()
        },
        _ => Seq::empty(),
    }
}

/// What a piece adds to a thought: its text, or its data where only the provider can
/// read it.
pub open spec fn thinking_of(piece: ContentBlockChunkView) -> Seq<char> {
    match piece {
        ContentBlockChunkView::Thought { text: Some(text), .. } => text,
        ContentBlockChunkView::Unknown { data: JsonView::String(text) } => text,
        ContentBlockChunkView::Unknown { data } => json_text(data),
        _ => Seq::empty(),
    }
}

/// A client that joins the thinking deltas of a response has the thoughts of the answer:
/// nothing of a thought is lost, repeated or reordered.
pub proof fn thoughts_are_streamed_whole(model: Seq<char>, chunks: Seq<ChunkView>)
    ensures
        gathered(whole_response(model, chunks), |e: EventView| thinking_in(e))
            == gathered_of_chunks(chunks, |p: ContentBlockChunkView| thinking_of(p)),
{
    let f = |e: EventView| thinking_in(e);
    let g = |p: ContentBlockChunkView| thinking_of(p);
    delta_types_differ();
    assert forall|index: nat, piece: ContentBlockChunkView| f(
        #[trigger] delta_event(index, piece),
    ) == g(piece) by {
        assert(f(delta_event(index, piece)) =~= g(piece));
    }
    gathered_of_response(model, chunks, f, g);
}

/// The name and the input that an event adds to a tool call.
pub open spec fn call_in(event: EventView) -> Seq<(Seq<char>, JsonView)> {
    match event {
        EventView::ContentBlockDelta { delta_type, name: Some(name), input: Some(input), .. } =>
            if delta_type == "input_json_delta"@ {
                seq![(name, input)]
            } else {
                Seq::empty()
            },
        _ => Seq::empty(),
    }
}

/// The name and the input that a piece adds to a tool call. Arguments that are no JSON
/// are an empty input.
pub open spec fn call_of(piece: ContentBlockChunkView) -> Seq<(Seq<char>, JsonView)> {
    match piece {
        ContentBlockChunkView::ToolCall { raw_name, raw_arguments, .. } => seq![
            (
                match raw_name {
                    Some(name) => name,
                    None => Seq::empty(),
                },
                match parsed_json(raw_arguments) {
                    Ok(input) => input,
                    Err(_) => JsonView::Object(Seq::empty()),
                },
            ),
        ],
        _ => Seq::empty(),
    }
}

/// Every piece of a tool call reaches the client, in order, with the name of the tool
/// and the input that its arguments spell.
pub proof fn tool_calls_are_streamed_whole(model: Seq<char>, chunks: Seq<ChunkView>)
    ensures
        gathered(whole_response(model, chunks), |e: EventView| call_in(e)) == gathered_of_chunks(
            chunks,
            |p: ContentBlockChunkView| call_of(p),
        ),
{
    let f = |e: EventView| call_in(e);
    let g = |p: ContentBlockChunkView| call_of(p);
    delta_types_differ();
    assert forall|index: nat, piece: ContentBlockChunkView| f(
        #[trigger] delta_event(index, piece),
    ) == g(piece) by {
        assert(f(delta_event(index, piece)) =~= g(piece));
    }
    gathered_of_response(model, chunks, f, g);
}

// ---------------------------------------------------------------------------
// One piece
// ---------------------------------------------------------------------------

/// Whether a delta carries a piece, and nothing else.
pub open spec fn carries(delta: EventView, piece: ContentBlockChunkView) -> bool {
    &&& delta is ContentBlockDelta
    &&& delta->ContentBlockDelta_tool_use_id is None
    &&& match piece {
        ContentBlockChunkView::Text { text } => {
            &&& delta->ContentBlockDelta_delta_type == "text_delta"@
            &&& delta->ContentBlockDelta_text == Some(text)
            &&& delta->ContentBlockDelta_name is None
            &&& delta->ContentBlockDelta_input is None
        },
        ContentBlockChunkView::Thought { text, .. } => {
            &&& delta->ContentBlockDelta_delta_type == "thinking_delta"@
            &&& match delta->ContentBlockDelta_text {
                Some(shown) => text == Some(shown) && shown.len() > 0,
                None => text is None || text->0.len() == 0,
            }
            &&& delta->ContentBlockDelta_name is None
            &&& delta->ContentBlockDelta_input is None
        },
        ContentBlockChunkView::Unknown { data } => {
            &&& delta->ContentBlockDelta_delta_type == "thinking_delta"@
            &&& match data {
                JsonView::String(text) => delta->ContentBlockDelta_text == Some(text),
                _ => delta->ContentBlockDelta_text == Some(json_text(data)),
            }
            &&& delta->ContentBlockDelta_name is None
            &&& delta->ContentBlockDelta_input is None
        },
        ContentBlockChunkView::ToolCall { raw_name, raw_arguments, .. } => {
            &&& delta->ContentBlockDelta_delta_type == "input_json_delta"@
            &&& delta->ContentBlockDelta_text is None
            &&& match raw_name {
                Some(name) => delta->ContentBlockDelta_name == Some(name),
                None => delta->ContentBlockDelta_name == Some(Seq::<char>::empty()),
            }
            &&& match parsed_json(raw_arguments) {
                Ok(input) => delta->ContentBlockDelta_input == Some(input),
                Err(_) => delta->ContentBlockDelta_input == Some(
                    JsonView::Object(Seq::empty()),
                ),
            }
        },
    }
}

/// Whether the start of a block is right for the piece that opens it.
pub open spec fn introduces(start: EventView, piece: ContentBlockChunkView) -> bool {
    &&& start is ContentBlockStart
    &&& match piece {
        ContentBlockChunkView::Text { .. } => {
            &&& start->ContentBlockStart_content_type == "text"@
            &&& start->ContentBlockStart_thinking is None
            &&& start->ContentBlockStart_signature is None
            &&& start->ContentBlockStart_name is None
        },
        ContentBlockChunkView::Thought { text, signature } => {
            &&& start->ContentBlockStart_content_type == "thinking"@
            &&& match start->ContentBlockStart_thinking {
                Some(shown) => text == Some(shown) && shown.len() > 0,
                None => text is None || text->0.len() == 0,
            }
            &&& match start->ContentBlockStart_signature {
                Some(shown) => signature == Some(shown) && shown.len() > 0,
                None => signature is None || signature->0.len() == 0,
            }
            &&& start->ContentBlockStart_name is None
        },
        ContentBlockChunkView::Unknown { data } => {
            &&& start->ContentBlockStart_content_type == "redacted_thinking"@
            &&& match data {
                JsonView::String(text) => start->ContentBlockStart_thinking == Some(text),
                _ => start->ContentBlockStart_thinking == Some(json_text(data)),
            }
            &&& start->ContentBlockStart_signature is None
            &&& start->ContentBlockStart_name is None
        },
        ContentBlockChunkView::ToolCall { raw_name, .. } => {
            &&& start->ContentBlockStart_content_type == "tool_use"@
            &&& start->ContentBlockStart_thinking is None
            &&& start->ContentBlockStart_signature is None
            &&& match raw_name {
                Some(name) => start->ContentBlockStart_name == Some(name),
                None => start->ContentBlockStart_name == Some(Seq::<char>::empty()),
            }
        },
    }
}

/// A piece of an answer gives one delta, as its last event, which carries it. A block
/// that it opens is introduced as the block of such a piece.
pub proof fn a_piece_is_carried(s: StreamStateView, piece: ContentBlockChunkView)
    ensures
        ({
            let events = block_events(s, piece);
            &&& events.len() > 0
            &&& carries(events.last(), piece)
            &&& forall|k: int|
                0 <= k < events.len() - 1 ==> !((#[trigger] events[k]) is ContentBlockDelta)
            &&& forall|k: int|
                0 <= k < events.len() && (#[trigger] events[k]) is ContentBlockStart ==> introduces(
                    events[k],
                    piece,
                )
        }),
{
    let events = block_events(s, piece);
    assert(events.last() == delta_event(after_block(s, piece).index, piece));
    assert forall|k: int|
        0 <= k < events.len() && (#[trigger] events[k]) is ContentBlockStart implies introduces(
        events[k],
        piece,
    ) by {
        assert(events[k] == start_event(s, piece));
    }
}

/// The deltas of a chat response carry the pieces of the answer, one for one and in
/// order.
pub proof fn deltas_carry_the_pieces(model: Seq<char>, chunks: Seq<ChunkView>)
    requires
        all_chat(chunks),
    ensures
        deltas(whole_response(model, chunks)).len() == all_blocks(chunks).len(),
        forall|k: int|
            0 <= k < all_blocks(chunks).len() ==> carries(
                deltas(whole_response(model, chunks))[k],
                #[trigger] all_blocks(chunks)[k],
            ),
{
    each_piece_has_one_delta(model, chunks);
}

// ---------------------------------------------------------------------------
// Beginning and end
// ---------------------------------------------------------------------------

/// The `message_start` of a chat response: the ID of the inference behind `msg_`, the
/// model, and the usage that the first chunk reports.
pub proof fn a_response_begins_with_its_message(model: Seq<char>, chunks: Seq<ChunkView>)
    requires
        chunks.len() > 0,
        all_chat(chunks),
    ensures
        ({
            let first = whole_response(model, chunks)[0];
            let usage = first->MessageStart_usage;
            let reported = chunks[0]->Chat_usage;
            &&& whole_response(model, chunks).len() > 0
            &&& first is MessageStart
            &&& first->MessageStart_id == "msg_"@ + uuid_text(chunks[0]->Chat_inference_id)
            &&& first->MessageStart_response_type == "message"@
            &&& first->MessageStart_model == model
            &&& first->MessageStart_stop_sequence is None
            &&& match reported {
                Some(u) => shows_usage(
                    u,
                    usage.input_tokens,
                    usage.output_tokens,
                    usage.cache_creation_input_tokens,
                    usage.cache_read_input_tokens,
                ),
                None => usage.input_tokens == 0 && usage.output_tokens == 0
                    && usage.cache_creation_input_tokens is None
                    && usage.cache_read_input_tokens is None,
            }
        }),
{
    the_first_event_names_the_inference(model, chunks);
    let one = seq![chunks[0]];
    assert(one.drop_last() =~= Seq::<ChunkView>::empty());
    assert(chunks[0] is Chat);
    assert(total_usage(Seq::<ChunkView>::empty()).input_tokens is None);
}

/// Whether counts show a usage of the engine: the tokens that went in and came out, zero
/// where none are reported, and the tokens written to and read from the cache, where
/// they are reported.
pub open spec fn shows_usage(
    usage: Usage,
    input: u32,
    output: u32,
    written: Option<u32>,
    read: Option<u32>,
) -> bool {
    &&& match usage.input_tokens {
        Some(n) => input == n,
        None => input == 0,
    }
    &&& match usage.output_tokens {
        Some(n) => output == n,
        None => output == 0,
    }
    &&& written == usage.provider_cache_write_input_tokens
    &&& read == usage.provider_cache_read_input_tokens
}

/// The `message_start` of a JSON response: no inference, and no usage yet.
pub proof fn a_json_response_begins_with_its_message(model: Seq<char>, chunks: Seq<ChunkView>)
    requires
        chunks.len() > 0,
        chunks[0] is Json,
    ensures
        ({
            let first = whole_response(model, chunks)[0];
            let usage = first->MessageStart_usage;
            &&& whole_response(model, chunks).len() > 0
            &&& first is MessageStart
            &&& first->MessageStart_id == "msg_"@
            &&& first->MessageStart_response_type == "message"@
            &&& first->MessageStart_model == model
            &&& first->MessageStart_stop_sequence is None
            &&& usage.input_tokens == 0
            &&& usage.output_tokens == 0
            &&& usage.cache_creation_input_tokens is None
            &&& usage.cache_read_input_tokens is None
        }),
{
    first_json_message(model, chunks);
    assert("msg_"@ + Seq::empty() =~= "msg_"@);
}

proof fn first_json_message(model: Seq<char>, chunks: Seq<ChunkView>)
    requires
        chunks.len() > 0,
        chunks[0] is Json,
    ensures
        messages_of(model, chunks).len() > 0,
        messages_of(model, chunks)[0] == json_messages(
            initial_adapter(model),
            chunks[0]->Json_raw,
        )[0],
        initial_adapter(model).first,
        initial_adapter(model).model == model,
        initial_adapter(model).inference_id == Seq::<char>::empty(),
    decreases chunks.len(),
{
    let rest = chunks.drop_last();
    if rest.len() > 0 {
        first_json_message(model, rest);
    } else {
        assert(messages_of(model, rest) =~= Seq::<EventView>::empty());
        assert(messages_of(model, chunks) =~= chunk_messages(run(model, rest), chunks[0]));
    }
}

/// A response ends with `message_delta` and `message_stop`. The former carries each
/// count of all chunks together, zero or nothing where no chunk reports it. Sums that
/// exceed 32 bits are left out.
pub proof fn a_response_ends_with_its_usage(model: Seq<char>, chunks: Seq<ChunkView>)
    requires
        counted_in_all(chunks, Counter::Input) <= u32::MAX,
        counted_in_all(chunks, Counter::Output) <= u32::MAX,
        counted_in_all(chunks, Counter::CacheRead) <= u32::MAX,
        counted_in_all(chunks, Counter::CacheWrite) <= u32::MAX,
    ensures
        ({
            let messages = whole_response(model, chunks);
            let delta = messages[messages.len() - 2];
            let usage = delta->MessageDelta_usage;
            &&& messages.len() >= 2
            &&& messages.last() is MessageStop
            &&& delta is MessageDelta
            &&& delta->MessageDelta_delta_type == "message_delta"@
            &&& delta->MessageDelta_stop_sequence is None
            &&& usage.input_tokens == counted_in_all(chunks, Counter::Input)
            &&& usage.output_tokens == counted_in_all(chunks, Counter::Output)
            &&& match usage.cache_read_input_tokens {
                Some(n) => n == counted_in_all(chunks, Counter::CacheRead),
                None => counted_in_all(chunks, Counter::CacheRead) == 0,
            }
            &&& match usage.cache_creation_input_tokens {
                Some(n) => n == counted_in_all(chunks, Counter::CacheWrite),
                None => counted_in_all(chunks, Counter::CacheWrite) == 0,
            }
        }),
{
    message_delta_sums_up(model, chunks);
    usage_is_the_sum(chunks, Counter::Input);
    usage_is_the_sum(chunks, Counter::Output);
    usage_is_the_sum(chunks, Counter::CacheRead);
    usage_is_the_sum(chunks, Counter::CacheWrite);
}

/// Whether a chunk says why the model stopped.
pub open spec fn gives_reason(chunk: ChunkView) -> bool {
    match chunk {
        ChunkView::Chat { finish_reason, .. } => finish_reason is Some,
        ChunkView::Json { finish_reason, .. } => finish_reason is Some,
    }
}

proof fn last_reason_counts(chunks: Seq<ChunkView>, i: int)
    requires
        0 <= i < chunks.len(),
        gives_reason(chunks[i]),
        forall|k: int| i < k < chunks.len() ==> !gives_reason(#[trigger] chunks[k]),
    ensures
        last_finish_reason(chunks) == (match chunks[i] {
            ChunkView::Chat { finish_reason, .. } => finish_reason,
            ChunkView::Json { finish_reason, .. } => finish_reason,
        }),
    decreases chunks.len(),
{
    if i < chunks.len() - 1 {
        let rest = chunks.drop_last();
        assert(!gives_reason(chunks[chunks.len() - 1]));
        assert forall|k: int| i < k < rest.len() implies !gives_reason(#[trigger] rest[k]) by {
            assert(rest[k] == chunks[k]);
        }
        last_reason_counts(rest, i);
    }
}

/// The stop reason of a response is that of the last chunk that gives one: the end of a
/// turn, the token limit, a stop sequence or a tool call. Any other has no name.
pub proof fn the_last_reason_is_reported(model: Seq<char>, chunks: Seq<ChunkView>, i: int)
    requires
        0 <= i < chunks.len(),
        gives_reason(chunks[i]),
        forall|k: int| i < k < chunks.len() ==> !gives_reason(#[trigger] chunks[k]),
    ensures
        ({
            let messages = whole_response(model, chunks);
            let shown = messages[messages.len() - 2]->MessageDelta_stop_reason;
            let given = match chunks[i] {
                ChunkView::Chat { finish_reason, .. } => finish_reason,
                ChunkView::Json { finish_reason, .. } => finish_reason,
            };
            is_reason_for(shown, given)
        }),
{
    last_reason_counts(chunks, i);
    message_delta_sums_up(model, chunks);
}

/// Whether a stop reason is the one for why an inference stopped.
pub open spec fn is_reason_for(
    shown: Option<AnthropicStopReason>,
    given: Option<FinishReason>,
) -> bool {
    &&& given == Some(FinishReason::Stop) <==> shown == Some(AnthropicStopReason::EndTurn)
    &&& given == Some(FinishReason::Length) <==> shown == Some(AnthropicStopReason::MaxTokens)
    &&& given == Some(FinishReason::StopSequence) <==> shown == Some(
        AnthropicStopReason::StopSequence,
    )
    &&& given == Some(FinishReason::ToolCall) <==> shown == Some(AnthropicStopReason::ToolUse)
    &&& shown != Some(AnthropicStopReason::Unknown)
}

proof fn no_reason(chunks: Seq<ChunkView>)
    requires
        forall|k: int| 0 <= k < chunks.len() ==> !gives_reason(#[trigger] chunks[k]),
    ensures
        last_finish_reason(chunks) is None,
    decreases chunks.len(),
{
    if chunks.len() > 0 {
        let rest = chunks.drop_last();
        assert(!gives_reason(chunks[chunks.len() - 1]));
        assert forall|k: int| 0 <= k < rest.len() implies !gives_reason(#[trigger] rest[k]) by {
            assert(rest[k] == chunks[k]);
        }
        no_reason(rest);
    }
}

/// Where no chunk gives a reason, the response has no stop reason.
pub proof fn no_reason_is_made_up(model: Seq<char>, chunks: Seq<ChunkView>)
    requires
        forall|k: int| 0 <= k < chunks.len() ==> !gives_reason(#[trigger] chunks[k]),
    ensures
        ({
            let messages = whole_response(model, chunks);
            messages[messages.len() - 2]->MessageDelta_stop_reason is None
        }),
{
    no_reason(chunks);
    message_delta_sums_up(model, chunks);
}

// ---------------------------------------------------------------------------
// JSON answers
// ---------------------------------------------------------------------------

/// Whether all chunks are chunks of a JSON answer.
pub open spec fn all_json(chunks: Seq<ChunkView>) -> bool {
    forall|i: int| 0 <= i < chunks.len() ==> #[trigger] chunks[i] is Json
}

proof fn json_run(model: Seq<char>, chunks: Seq<ChunkView>)
    requires
        all_json(chunks),
    ensures
        ({
            let a = run(model, chunks);
            let messages = messages_of(model, chunks);
            &&& a.first == (chunks.len() == 0)
            &&& a.json_open == (chunks.len() > 0)
            &&& a.state.open_kind is None
            &&& a.inference_id == Seq::<char>::empty()
            &&& a.model == model
            &&& !a.finished
            &&& messages.len() == (if chunks.len() == 0 {
                0
            } else {
                chunks.len() + 2
            })
            &&& chunks.len() > 0 ==> is_json_start(messages[1])
            &&& forall|k: int|
                0 <= k < chunks.len() ==> is_json_piece(
                    messages[k + 2],
                    (#[trigger] chunks[k])->Json_raw,
                )
        }),
    decreases chunks.len(),
{
    if chunks.len() > 0 {
        let rest = chunks.drop_last();
        assert forall|i: int| 0 <= i < rest.len() implies #[trigger] rest[i] is Json by {
            assert(chunks[i] is Json);
        }
        json_run(model, rest);
        let a = run(model, rest);
        let last = chunks.len() - 1;
        assert(chunks[last] is Json);
        let before = messages_of(model, rest);
        let added = chunk_messages(a, chunks[last]);
        let messages = messages_of(model, chunks);
        assert(messages =~= before + added);
        assert(Seq::<char>::empty() + "-text-0"@ =~= "-text-0"@);
        assert forall|k: int| 0 <= k < chunks.len() implies is_json_piece(
            messages[k + 2],
            (#[trigger] chunks[k])->Json_raw,
        ) by {
            if k < last {
                assert(rest[k] == chunks[k]);
                assert(messages[k + 2] == before[k + 2]);
            } else {
                assert(messages[k + 2] == added.last());
            }
        }
    }
}

/// Whether an event starts the block of a JSON answer.
pub open spec fn is_json_start(event: EventView) -> bool {
    &&& event is ContentBlockStart
    &&& event->ContentBlockStart_index == 0
    &&& event->ContentBlockStart_content_type == "text"@
    &&& event->ContentBlockStart_id == "-text-0"@
    &&& event->ContentBlockStart_thinking is None
    &&& event->ContentBlockStart_signature is None
    &&& event->ContentBlockStart_name is None
}

/// Whether an event adds a piece of a JSON answer.
pub open spec fn is_json_piece(event: EventView, raw: Seq<char>) -> bool {
    &&& event is ContentBlockDelta
    &&& event->ContentBlockDelta_index == 0
    &&& event->ContentBlockDelta_delta_type == "text_delta"@
    &&& event->ContentBlockDelta_text == Some(raw)
    &&& event->ContentBlockDelta_tool_use_id is None
    &&& event->ContentBlockDelta_name is None
    &&& event->ContentBlockDelta_input is None
}

/// A JSON answer is one text block, with a delta for each chunk.
pub proof fn a_json_answer_is_one_block(model: Seq<char>, chunks: Seq<ChunkView>)
    requires
        all_json(chunks),
        chunks.len() > 0,
    ensures
        ({
            let messages = whole_response(model, chunks);
            let n = chunks.len() as int;
            &&& messages.len() == n + 5
            &&& messages[0] is MessageStart
            &&& is_json_start(messages[1])
            &&& forall|k: int|
                0 <= k < n ==> is_json_piece(messages[k + 2], (#[trigger] chunks[k])->Json_raw)
            &&& messages[n + 2] == EventView::ContentBlockStop { index: 0, signature: None }
            &&& messages[n + 3] is MessageDelta
            &&& messages[n + 4] is MessageStop
        }),
{
    json_run(model, chunks);
    assert(chunks[0] is Json);
    first_json_message(model, chunks);
    let a = run(model, chunks);
    let before = messages_of(model, chunks);
    let messages = whole_response(model, chunks);
    assert(messages =~= before + closing_messages(a));
    assert forall|k: int| 0 <= k < chunks.len() implies is_json_piece(
        messages[k + 2],
        (#[trigger] chunks[k])->Json_raw,
    ) by {
        assert(messages[k + 2] == before[k + 2]);
    }
}

// ---------------------------------------------------------------------------
// Sending
// ---------------------------------------------------------------------------

/// The events of a chat chunk and those that end a response have IDs that count down to
/// the next ID; those of a JSON chunk have IDs that count up from it.
pub proof fn events_are_numbered(a: AdapterView, input: StreamInputView, k: int)
    requires
        !a.finished,
        !(input is Failed),
        a.pending.len() <= k < fed(a, input).pending.len(),
    ensures
        ({
            let after = fed(a, input);
            let n = after.pending.len() - a.pending.len();
            let place = k - a.pending.len();
            &&& after.next_id == a.next_id + n
            &&& after.pending[k].id == numeral(
                match input {
                    StreamInputView::Chunk(ChunkView::Json { .. }) => (a.next_id + place) as nat,
                    _ => (a.next_id + n - 1 - place) as nat,
                },
            )
        }),
{
}

/// What waits to be sent stays in front, whatever comes.
pub proof fn what_waits_stays_in_front(a: AdapterView, input: StreamInputView, k: int)
    requires
        0 <= k < a.pending.len(),
    ensures
        k < fed(a, input).pending.len(),
        fed(a, input).pending[k] == a.pending[k],
{
}

/// Each event is sent under the name of its kind.
pub proof fn events_have_their_names(message: EventView)
    ensures
        message is MessageStart <==> event_name(message) == "message_start"@,
        message is ContentBlockStart <==> event_name(message) == "content_block_start"@,
        message is ContentBlockDelta <==> event_name(message) == "content_block_delta"@,
        message is ContentBlockStop <==> event_name(message) == "content_block_stop"@,
        message is MessageDelta <==> event_name(message) == "message_delta"@,
        message is MessageStop <==> event_name(message) == "message_stop"@,
{
    reveal_strlit("message_start");
    reveal_strlit("content_block_start");
    reveal_strlit("content_block_delta");
    reveal_strlit("content_block_stop");
    reveal_strlit("message_delta");
    reveal_strlit("message_stop");
    assert("message_start"@.len() == 13);
    assert("content_block_start"@.len() == 19);
    assert("content_block_delta"@.len() == 19);
    assert("content_block_stop"@.len() == 18);
    assert("message_delta"@.len() == 13);
    assert("message_stop"@.len() == 12);
    assert("message_start"@[8] == 's');
    assert("message_delta"@[8] == 'd');
    assert("content_block_start"@[14] == 's');
    assert("content_block_delta"@[14] == 'd');
}

// ---------------------------------------------------------------------------
// Stops and room
// ---------------------------------------------------------------------------

/// Only the stop of a thought carries a signature.
pub proof fn only_thoughts_are_signed(
    pieces: Seq<ContentBlockChunkView>,
    next: ContentBlockChunkView,
)
    requires
        pieces.len() > 0,
        !(pieces.last() is Thought),
    ensures
        ({
            let s = after_blocks(initial_state(), pieces);
            let events = block_events(s, next);
            &&& forall|k: int|
                0 <= k < events.len() && (#[trigger] events[k]) is ContentBlockStop ==> events[k]
                    ->ContentBlockStop_signature is None
            &&& forall|a: AdapterView|
                a.state == s ==> (#[trigger] chat_stop(a)).len() == 1 && chat_stop(a)[0]
                    ->ContentBlockStop_signature is None
        }),
{
}

/// A count of a usage, zero where it is not reported.
pub open spec fn tokens(n: Option<u32>) -> int {
    match n {
        Some(x) => x as int,
        None => 0,
    }
}

/// The adapter takes in any chunk, as long as the counts stay below 32 bits and the
/// numbers of the events and of the blocks within the machine's.
pub proof fn chunks_are_taken_in(a: AdapterView, chunk: ChunkView)
    requires
        ({
            let (blocks, usage) = match chunk {
                ChunkView::Chat { content, usage, .. } => (content.len() as int, usage),
                ChunkView::Json { usage, .. } => (0, usage),
            };
            &&& a.next_id + 3 * blocks + 4 <= usize::MAX
            &&& a.state.block_ids + blocks <= usize::MAX
            &&& usage matches Some(u) ==> {
                let seen = a.state.usage;
                &&& tokens(seen.input_tokens) + tokens(u.input_tokens) <= u32::MAX
                &&& tokens(seen.output_tokens) + tokens(u.output_tokens) <= u32::MAX
                &&& tokens(seen.provider_cache_read_input_tokens) + tokens(
                    u.provider_cache_read_input_tokens,
                ) <= u32::MAX
                &&& tokens(seen.provider_cache_write_input_tokens) + tokens(
                    u.provider_cache_write_input_tokens,
                ) <= u32::MAX
            }
        }),
    ensures
        can_take(a, StreamInputView::Chunk(chunk)),
        has_room(a.state, chunk),
{
}

/// The index of the block to which a piece is added, behind the pieces before it.
pub open spec fn index_of_piece(pieces: Seq<ContentBlockChunkView>, i: int) -> nat {
    block_events(
        after_blocks(initial_state(), pieces.take(i)),
        pieces[i],
    ).last()->ContentBlockDelta_index
}

proof fn tool_index_stays(pieces: Seq<ContentBlockChunkView>, i: int, j: int)
    requires
        0 <= i < j <= pieces.len(),
        pieces[i] is ToolCall,
    ensures
        ({
            let s = after_blocks(initial_state(), pieces.take(j));
            &&& state_ok(s)
            &&& s.tool_indices.contains_key(pieces[i]->ToolCall_id)
            &&& s.tool_indices[pieces[i]->ToolCall_id] == index_of_piece(pieces, i)
        }),
    decreases j,
{
    let before = pieces.take(j - 1);
    assert(pieces.take(j).drop_last() =~= before);
    states_are_ok(pieces, j - 1);
    let s = after_blocks(initial_state(), before);
    block_keeps_state_ok(s, pieces[j - 1]);
    if i == j - 1 {
        let t = after_block(s, pieces[i]);
        assert(t.key == Some(tool_key(pieces[i]->ToolCall_id)));
    } else {
        tool_index_stays(pieces, i, j - 1);
    }
}

proof fn states_are_ok(pieces: Seq<ContentBlockChunkView>, n: int)
    requires
        0 <= n <= pieces.len(),
    ensures
        state_ok(after_blocks(initial_state(), pieces.take(n))),
    decreases n,
{
    if n > 0 {
        states_are_ok(pieces, n - 1);
        assert(pieces.take(n).drop_last() =~= pieces.take(n - 1));
        block_keeps_state_ok(after_blocks(initial_state(), pieces.take(n - 1)), pieces[n - 1]);
    } else {
        assert(pieces.take(0) =~= Seq::<ContentBlockChunkView>::empty());
    }
}

/// Two pieces of tool calls are added to one block if and only if they are of one tool
/// call, whatever stands between them.
pub proof fn a_tool_call_is_one_block(pieces: Seq<ContentBlockChunkView>, i: int, j: int)
    requires
        0 <= i < j < pieces.len(),
        pieces[i] is ToolCall,
        pieces[j] is ToolCall,
    ensures
        index_of_piece(pieces, i) == index_of_piece(pieces, j) <==> pieces[i]->ToolCall_id
            == pieces[j]->ToolCall_id,
{
    tool_index_stays(pieces, i, j + 1);
    tool_index_stays(pieces, j, j + 1);
}

/// A piece that is no piece of a tool call, and is of another kind than the piece before it,
/// opens a block with an index that no piece before it had.
pub proof fn other_blocks_are_new(pieces: Seq<ContentBlockChunkView>, i: int, j: int)
    requires
        0 <= i < j < pieces.len(),
        !(pieces[j] is ToolCall),
        !same_block(pieces[j - 1], pieces[j]),
    ensures
        index_of_piece(pieces, i) < index_of_piece(pieces, j),
{
    index_is_handed_out(pieces, i, j);
    states_are_ok(pieces, j);
    let s = after_blocks(initial_state(), pieces.take(j));
    last_kind_is_open(pieces, j);
    assert(opens_block(s, pieces[j]));
}

proof fn last_kind_is_open(pieces: Seq<ContentBlockChunkView>, j: int)
    requires
        0 < j <= pieces.len(),
    ensures
        ({
            let s = after_blocks(initial_state(), pieces.take(j));
            s.open_kind == Some(kind_of(pieces[j - 1]))
        }),
{
    assert(pieces.take(j).last() == pieces[j - 1]);
}

proof fn index_is_handed_out(pieces: Seq<ContentBlockChunkView>, i: int, j: int)
    requires
        0 <= i < j <= pieces.len(),
    ensures
        index_of_piece(pieces, i) < after_blocks(initial_state(), pieces.take(j)).total_blocks,
    decreases j,
{
    assert(pieces.take(j).drop_last() =~= pieces.take(j - 1));
    states_are_ok(pieces, j - 1);
    states_are_ok(pieces, j);
    if i < j - 1 {
        index_is_handed_out(pieces, i, j - 1);
    } else {
        last_kind_is_open(pieces, j);
    }
}

/// A piece of a JSON answer is one delta of the block at the first index. The block is opened
/// if it is not open, under the ID of the inference, behind the stop of any other block.
pub proof fn json_pieces_go_to_their_block(a: AdapterView, chunk: ChunkView)
    requires
        chunk is Json,
    ensures
        ({
            let messages = chunk_messages(a, chunk);
            let n = messages.len() as int;
            &&& n > 0
            &&& is_json_piece(messages[n - 1], chunk->Json_raw)
            &&& forall|k: int|
                0 <= k < n && (#[trigger] messages[k]) is ContentBlockStart ==> k == n - 2
                    && messages[k]->ContentBlockStart_index == 0
                    && messages[k]->ContentBlockStart_content_type == "text"@
                    && messages[k]->ContentBlockStart_id == a.inference_id + "-text-0"@
                    && messages[k]->ContentBlockStart_thinking is None
                    && messages[k]->ContentBlockStart_signature is None
                    && messages[k]->ContentBlockStart_name is None
            &&& !a.json_open ==> n >= 2 && messages[n - 2] is ContentBlockStart
            &&& a.json_open && !a.first && a.state.open_kind is None ==> n == 1
        }),
{
}

/// The message keeps the ID of the first chat chunk, if that is the first chunk.
pub proof fn the_first_chunk_names_the_inference(a: AdapterView, chunk: ChunkView)
    requires
        !a.finished,
    ensures
        ({
            let after = fed(a, StreamInputView::Chunk(chunk));
            &&& chunk is Chat && a.first && a.inference_id.len() == 0 ==> after.inference_id
                == uuid_text(chunk->Chat_inference_id)
            &&& !a.first || chunk is Json ==> after.inference_id == a.inference_id
            &&& after.model == a.model
            &&& !after.first
            &&& !after.finished
        }),
{
}

} // verus!
