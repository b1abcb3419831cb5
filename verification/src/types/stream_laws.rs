//! What holds of every streamed response.
use crate::inference::{ChunkView, ContentBlockChunkView, FinishReason, Usage, no_usage};
use crate::outside::{json_text, uuid_text};
use crate::provider::stop_reason_of;
use crate::text::{numeral, numeral_identifies};
use crate::types::response::{response_usage, response_usage_json};
use crate::types::sse::{SseEventView, event_json, event_name, failure_sse, usage_json};
use crate::types::stream_adapter::{
    AdapterView, StreamInputView, chat_stop, chunk_messages, closing_messages, fed, initial_adapter,
    json_messages, json_stop, leaves_json, message_id, numbered_down, numbered_up, with_chunk,
};
use crate::types::stream_state::{
    StreamStateView, after_block, after_blocks, block_events, block_keeps_state_ok, blocks_events,
    chunk_events, delta_event, final_events, initial_state, key_of, leaves_block, message_start,
    noted, opens_block, start_event, state_ok, stop_event, tool_key, tool_key_identifies,
};
use crate::types::streaming::{
    BlockKind, EventView, added_usage, blocks_of, kind_of, stream_usage, usage_of,
};
use vstd::prelude::*;

verus! {

// ---------------------------------------------------------------------------
// Whole responses
// ---------------------------------------------------------------------------

/// The adapter after some chunks.
pub open spec fn run(model: Seq<char>, chunks: Seq<ChunkView>) -> AdapterView
    decreases chunks.len(),
{
    if chunks.len() == 0 {
        initial_adapter(model)
    } else {
        fed(run(model, chunks.drop_last()), StreamInputView::Chunk(chunks.last()))
    }
}

/// The messages of some chunks.
pub open spec fn messages_of(model: Seq<char>, chunks: Seq<ChunkView>) -> Seq<EventView>
    decreases chunks.len(),
{
    if chunks.len() == 0 {
        Seq::empty()
    } else {
        messages_of(model, chunks.drop_last()) + chunk_messages(
            run(model, chunks.drop_last()),
            chunks.last(),
        )
    }
}

/// All messages of a response.
pub open spec fn whole_response(model: Seq<char>, chunks: Seq<ChunkView>) -> Seq<EventView> {
    messages_of(model, chunks) + closing_messages(run(model, chunks))
}

/// Whether all chunks are chunks of a chat answer.
pub open spec fn all_chat(chunks: Seq<ChunkView>) -> bool {
    forall|i: int| 0 <= i < chunks.len() ==> #[trigger] chunks[i] is Chat
}

/// The adapter is not over while chunks come.
proof fn run_goes_on(model: Seq<char>, chunks: Seq<ChunkView>)
    ensures
        !run(model, chunks).finished,
        run(model, chunks).model == model,
        run(model, chunks).first == (chunks.len() == 0),
    decreases chunks.len(),
{
    if chunks.len() > 0 {
        run_goes_on(model, chunks.drop_last());
    }
}

/// The events that are sent are the messages of the response, in order.
pub proof fn response_is_sent_in_order(model: Seq<char>, chunks: Seq<ChunkView>)
    ensures
        ({
            let sent = fed(run(model, chunks), StreamInputView::Ended).pending;
            let messages = whole_response(model, chunks);
            &&& sent.len() == messages.len()
            &&& forall|k: int|
                0 <= k < sent.len() ==> (#[trigger] sent[k]).event == event_name(messages[k])
                    && sent[k].data == json_text(event_json(messages[k]))
        }),
{
    run_goes_on(model, chunks);
    chunks_are_sent_in_order(model, chunks);
}

proof fn chunks_are_sent_in_order(model: Seq<char>, chunks: Seq<ChunkView>)
    ensures
        ({
            let sent = run(model, chunks).pending;
            let messages = messages_of(model, chunks);
            &&& sent.len() == messages.len()
            &&& forall|k: int|
                0 <= k < sent.len() ==> (#[trigger] sent[k]).event == event_name(messages[k])
                    && sent[k].data == json_text(event_json(messages[k]))
        }),
    decreases chunks.len(),
{
    if chunks.len() > 0 {
        run_goes_on(model, chunks.drop_last());
        chunks_are_sent_in_order(model, chunks.drop_last());
    }
}

// ---------------------------------------------------------------------------
// Order of events
// ---------------------------------------------------------------------------

/// Where in a message a client is.
pub enum Phase {
    Before,
    BetweenBlocks,
    InBlock(nat),
    Ending,
    Done,
}

/// Where a client is after an event, or nothing where the event is out of place.
pub open spec fn next_phase(phase: Phase, event: EventView) -> Option<Phase> {
    match (phase, event) {
        (Phase::Before, EventView::MessageStart { .. }) => Some(Phase::BetweenBlocks),
        (Phase::BetweenBlocks, EventView::ContentBlockStart { index, .. }) => Some(
            Phase::InBlock(index),
        ),
        (Phase::InBlock(open), EventView::ContentBlockDelta { index, .. }) => if index == open {
            Some(Phase::InBlock(open))
        } else {
            None
        },
        (Phase::InBlock(open), EventView::ContentBlockStop { index, .. }) => if index == open {
            Some(Phase::BetweenBlocks)
        } else {
            None
        },
        (Phase::BetweenBlocks, EventView::MessageDelta { .. }) => Some(Phase::Ending),
        (Phase::Ending, EventView::MessageStop) => Some(Phase::Done),
        _ => None,
    }
}

/// Where a client is after some events.
pub open spec fn phase_after(phase: Phase, events: Seq<EventView>) -> Option<Phase>
    decreases events.len(),
{
    if events.len() == 0 {
        Some(phase)
    } else {
        match phase_after(phase, events.drop_last()) {
            Some(p) => next_phase(p, events.last()),
            None => None,
        }
    }
}

proof fn phase_after_both(phase: Phase, a: Seq<EventView>, b: Seq<EventView>)
    ensures
        phase_after(phase, a + b) == (match phase_after(phase, a) {
            Some(p) => phase_after(p, b),
            None => None,
        }),
    decreases b.len(),
{
    if b.len() == 0 {
        assert(a + b =~= a);
    } else {
        assert((a + b).drop_last() =~= a + b.drop_last());
        phase_after_both(phase, a, b.drop_last());
    }
}

proof fn phase_after_one(phase: Phase, event: EventView)
    ensures
        phase_after(phase, seq![event]) == next_phase(phase, event),
{
    assert(seq![event].drop_last() =~= Seq::empty());
    assert(phase_after(phase, Seq::empty()) == Some(phase));
}

/// Where a client is, by the state of the state machine.
spec fn phase_of(s: StreamStateView) -> Phase {
    if !s.started {
        Phase::Before
    } else if s.open_kind is Some {
        Phase::InBlock(s.index)
    } else {
        Phase::BetweenBlocks
    }
}

proof fn block_phase(s: StreamStateView, chunk: ContentBlockChunkView)
    requires
        s.started,
    ensures
        phase_after(phase_of(s), block_events(s, chunk)) == Some(phase_of(after_block(s, chunk))),
        after_block(s, chunk).started,
{
    let stop = if leaves_block(s, chunk) {
        seq![stop_event(s)]
    } else {
        Seq::empty()
    };
    let start = if opens_block(s, chunk) {
        seq![start_event(s, chunk)]
    } else {
        Seq::empty()
    };
    let delta = delta_event(after_block(s, chunk).index, chunk);
    let before = phase_of(s);
    phase_after_both(before, stop + start, seq![delta]);
    phase_after_both(before, stop, start);
    let between = if opens_block(s, chunk) {
        Phase::BetweenBlocks
    } else {
        before
    };
    phase_after_one(before, stop_event(s));
    assert(phase_after(before, stop) == Some(between));
    phase_after_one(between, start_event(s, chunk));
    phase_after_one(Phase::InBlock(after_block(s, chunk).index), delta);
}

proof fn blocks_phase(s: StreamStateView, blocks: Seq<ContentBlockChunkView>)
    requires
        s.started,
    ensures
        phase_after(phase_of(s), blocks_events(s, blocks)) == Some(
            phase_of(after_blocks(s, blocks)),
        ),
        after_blocks(s, blocks).started,
    decreases blocks.len(),
{
    if blocks.len() > 0 {
        blocks_phase(s, blocks.drop_last());
        let middle = after_blocks(s, blocks.drop_last());
        block_phase(middle, blocks.last());
        phase_after_both(
            phase_of(s),
            blocks_events(s, blocks.drop_last()),
            block_events(middle, blocks.last()),
        );
    }
}

/// Where a client is, by the state of the adapter.
spec fn adapter_phase(a: AdapterView) -> Phase {
    if a.state.started && a.json_open {
        Phase::InBlock(0)
    } else {
        phase_of(a.state)
    }
}

/// What holds of the adapter after any chunks: no block is open before the message
/// starts, and at most one is open after that.
spec fn adapter_ok(a: AdapterView) -> bool {
    &&& a.first == !a.state.started
    &&& a.first ==> a.state.open_kind is None && !a.json_open
    &&& a.json_open ==> a.state.open_kind is None
}

proof fn no_events(phase: Phase)
    ensures
        phase_after(phase, Seq::empty()) == Some(phase),
{
}

proof fn chat_chunk_phase(a: AdapterView, chunk: ChunkView)
    requires
        adapter_ok(a),
        !a.finished,
        chunk is Chat,
    ensures
        ({
            let b = with_chunk(a, chunk);
            &&& phase_after(adapter_phase(a), chunk_messages(a, chunk)) == Some(adapter_phase(b))
            &&& adapter_ok(b)
            &&& b.state.started
        }),
{
    let s = noted(a.state, chunk);
    let blocks = blocks_of(chunk);
    let opening = message_start(message_id(a, chunk), a.model, s.usage);
    let stop = if leaves_json(a, chunk) {
        json_stop(a)
    } else {
        Seq::empty()
    };
    let start = if a.state.started {
        Seq::empty()
    } else {
        seq![opening]
    };
    let before = adapter_phase(a);
    let between = if a.json_open && blocks.len() == 0 {
        before
    } else {
        phase_of(s)
    };
    no_events(before);
    no_events(between);
    no_events(phase_of(a.state));
    phase_after_one(Phase::InBlock(0), EventView::ContentBlockStop { index: 0, signature: None });
    phase_after_one(Phase::Before, opening);
    phase_after_both(before, stop, start + blocks_events(s, blocks));
    let stopped = if leaves_json(a, chunk) {
        Phase::BetweenBlocks
    } else {
        before
    };
    assert(phase_after(before, stop) == Some(stopped));
    phase_after_both(stopped, start, blocks_events(s, blocks));
    assert(phase_after(stopped, start) == Some(between));
    blocks_phase(s, blocks);
    assert(chunk_messages(a, chunk) =~= stop + (start + blocks_events(s, blocks)));
    if blocks.len() == 0 {
        assert(blocks_events(s, blocks) =~= Seq::empty());
        assert(after_blocks(s, blocks) == s);
    }
}

proof fn json_chunk_phase(a: AdapterView, chunk: ChunkView)
    requires
        adapter_ok(a),
        !a.finished,
        chunk is Json,
    ensures
        ({
            let b = with_chunk(a, chunk);
            &&& phase_after(adapter_phase(a), chunk_messages(a, chunk)) == Some(adapter_phase(b))
            &&& adapter_ok(b)
            &&& b.state.started
        }),
{
    let messages = json_messages(a, chunk->Json_raw);
    let n = messages.len() as int;
    let before = adapter_phase(a);
    let opening = message_start(a.inference_id, a.model, no_usage());
    let stop = stop_event(a.state);
    let delta = messages[n - 1];
    no_events(before);
    phase_after_one(Phase::Before, opening);
    phase_after_one(before, stop);
    phase_after_one(Phase::InBlock(0), delta);
    if a.json_open {
        assert(messages =~= seq![delta]);
    } else {
        let start = messages[n - 2];
        phase_after_one(Phase::BetweenBlocks, start);
        let head = messages.take(n - 2);
        if a.first {
            assert(head =~= seq![opening]);
        } else if a.state.open_kind is Some {
            assert(head =~= seq![stop]);
        } else {
            assert(head =~= Seq::empty());
        }
        assert(phase_after(before, head) == Some(Phase::BetweenBlocks));
        assert(messages =~= head + seq![start] + seq![delta]);
        phase_after_both(before, head + seq![start], seq![delta]);
        phase_after_both(before, head, seq![start]);
    }
}

proof fn run_phase(model: Seq<char>, chunks: Seq<ChunkView>)
    ensures
        ({
            let a = run(model, chunks);
            &&& phase_after(Phase::Before, messages_of(model, chunks)) == Some(adapter_phase(a))
            &&& adapter_ok(a)
            &&& a.state.started == (chunks.len() > 0)
        }),
    decreases chunks.len(),
{
    if chunks.len() > 0 {
        let rest = chunks.drop_last();
        let chunk = chunks.last();
        run_phase(model, rest);
        run_goes_on(model, rest);
        let a = run(model, rest);
        if chunk is Chat {
            chat_chunk_phase(a, chunk);
        } else {
            json_chunk_phase(a, chunk);
        }
        phase_after_both(Phase::Before, messages_of(model, rest), chunk_messages(a, chunk));
    }
}

proof fn closing_phase(a: AdapterView)
    requires
        adapter_ok(a),
        a.state.started,
    ensures
        phase_after(adapter_phase(a), closing_messages(a)) == Some(Phase::Done),
{
    let phase = adapter_phase(a);
    let last = final_events(a.state);
    no_events(phase);
    phase_after_both(phase, chat_stop(a) + json_stop(a), last);
    phase_after_both(phase, chat_stop(a), json_stop(a));
    phase_after_one(phase, stop_event(a.state));
    phase_after_one(phase, EventView::ContentBlockStop { index: 0, signature: None });
    assert(last =~= seq![last[0]] + seq![last[1]]);
    phase_after_both(Phase::BetweenBlocks, seq![last[0]], seq![last[1]]);
    phase_after_one(Phase::BetweenBlocks, last[0]);
    phase_after_one(Phase::Ending, last[1]);
}

/// The events of a response come in the order that a client expects: one
/// `message_start` before all others, blocks that are started, added to and
/// stopped one after another, then one `message_delta`, and `message_stop` as the
/// last event.
pub proof fn response_is_well_formed(model: Seq<char>, chunks: Seq<ChunkView>)
    requires
        chunks.len() > 0,
    ensures
        phase_after(Phase::Before, whole_response(model, chunks)) == Some(Phase::Done),
{
    run_phase(model, chunks);
    let a = run(model, chunks);
    closing_phase(a);
    phase_after_both(Phase::Before, messages_of(model, chunks), closing_messages(a));
}

/// Whether the event at `j` stops the block that the event at `i` starts, with
/// nothing but deltas of that block in between.
pub open spec fn stops_block(events: Seq<EventView>, i: int, j: int) -> bool {
    &&& 0 <= i < j < events.len()
    &&& events[i] is ContentBlockStart
    &&& events[j] is ContentBlockStop
    &&& events[j]->ContentBlockStop_index == events[i]->ContentBlockStart_index
    &&& forall|k: int|
        i < k < j ==> (#[trigger] events[k]) is ContentBlockDelta
            && events[k]->ContentBlockDelta_index == events[i]->ContentBlockStart_index
}

proof fn phase_of_prefix(phase: Phase, events: Seq<EventView>, n: int)
    requires
        0 <= n <= events.len(),
        phase_after(phase, events) is Some,
    ensures
        phase_after(phase, events.take(n)) is Some,
{
    assert(events =~= events.take(n) + events.skip(n));
    phase_after_both(phase, events.take(n), events.skip(n));
}

proof fn stop_is_found(events: Seq<EventView>, i: int, k: int) -> (j: int)
    requires
        0 <= i < k <= events.len(),
        events[i] is ContentBlockStart,
        phase_after(Phase::Before, events) == Some(Phase::Done),
        phase_after(Phase::Before, events.take(k)) == Some(
            Phase::InBlock(events[i]->ContentBlockStart_index),
        ),
        forall|m: int|
            i < m < k ==> (#[trigger] events[m]) is ContentBlockDelta
                && events[m]->ContentBlockDelta_index == events[i]->ContentBlockStart_index,
    ensures
        stops_block(events, i, j),
    decreases events.len() - k,
{
    if k == events.len() {
        assert(events.take(k) =~= events);
        k
    } else {
        phase_of_prefix(Phase::Before, events, k + 1);
        assert(events.take(k + 1).drop_last() =~= events.take(k));
        assert(events.take(k + 1).last() == events[k]);
        if events[k] is ContentBlockStop {
            k
        } else {
            stop_is_found(events, i, k + 1)
        }
    }
}

/// No block is left open: every block that a response starts, it stops, before it
/// starts another block and before `message_delta`.
pub proof fn every_block_is_stopped(model: Seq<char>, chunks: Seq<ChunkView>, i: int)
    requires
        chunks.len() > 0,
        0 <= i < whole_response(model, chunks).len(),
        whole_response(model, chunks)[i] is ContentBlockStart,
    ensures
        exists|j: int| stops_block(whole_response(model, chunks), i, j),
{
    let events = whole_response(model, chunks);
    response_is_well_formed(model, chunks);
    phase_of_prefix(Phase::Before, events, i + 1);
    phase_of_prefix(Phase::Before, events, i);
    assert(events.take(i + 1).drop_last() =~= events.take(i));
    assert(events.take(i + 1).last() == events[i]);
    let j = stop_is_found(events, i, i + 1);
    assert(stops_block(events, i, j));
}

/// Once the inference is over, nothing that it yields changes the response.
pub proof fn nothing_follows_the_end(a: AdapterView, input: StreamInputView)
    requires
        a.finished,
    ensures
        fed(a, input) == a,
{
}

/// A response ends in `message_stop`, also after a failure.
pub proof fn every_response_ends(a: AdapterView, input: StreamInputView)
    requires
        !a.finished,
        !(input is Chunk),
    ensures
        fed(a, input).finished,
        fed(a, input).pending.last().event == event_name(EventView::MessageStop),
{
    let messages = closing_messages(a);
    assert(messages.last() == EventView::MessageStop);
}

/// The first event of a chat response names the inference and the model, and
/// carries the usage that the first chunk reports.
pub proof fn the_first_event_names_the_inference(model: Seq<char>, chunks: Seq<ChunkView>)
    requires
        chunks.len() > 0,
        all_chat(chunks),
    ensures
        whole_response(model, chunks).len() > 0,
        whole_response(model, chunks)[0] == message_start(
            uuid_text(chunks[0]->Chat_inference_id),
            model,
            total_usage(seq![chunks[0]]),
        ),
{
    first_message(model, chunks);
}

proof fn first_message(model: Seq<char>, chunks: Seq<ChunkView>)
    requires
        chunks.len() > 0,
        all_chat(chunks),
    ensures
        messages_of(model, chunks).len() > 0,
        messages_of(model, chunks)[0] == message_start(
            uuid_text(chunks[0]->Chat_inference_id),
            model,
            total_usage(seq![chunks[0]]),
        ),
    decreases chunks.len(),
{
    let rest = chunks.drop_last();
    if rest.len() > 0 {
        chat_without_last(chunks);
        first_message(model, rest);
    } else {
        assert(chunks[0] is Chat);
        assert(rest =~= Seq::empty());
        assert(chunks =~= seq![chunks[0]]);
        assert(total_usage(rest) == no_usage());
        assert(messages_of(model, rest) =~= Seq::empty());
        let messages = chunk_messages(run(model, rest), chunks[0]);
        assert(messages_of(model, chunks) =~= messages);
        assert(messages[0] == message_start(
            uuid_text(chunks[0]->Chat_inference_id),
            model,
            noted(initial_state(), chunks[0]).usage,
        ));
    }
}

/// A failure puts one event between the messages of a response, and changes nothing
/// else: the response still ends as it would have ended there.
pub proof fn a_failure_is_one_event(model: Seq<char>, chunks: Seq<ChunkView>, message: Seq<char>)
    ensures
        ({
            let before = messages_of(model, chunks).len() as int;
            let whole = whole_response(model, chunks);
            let sent = fed(run(model, chunks), StreamInputView::Failed(message)).pending;
            &&& sent.len() == whole.len() + 1
            &&& sent[before] == failure_sse(message, run(model, chunks).next_id)
            &&& forall|k: int|
                0 <= k < whole.len() ==> {
                    let event = sent[if k < before {
                        k
                    } else {
                        k + 1
                    }];
                    event.event == event_name(#[trigger] whole[k]) && event.data == json_text(
                        event_json(whole[k]),
                    )
                }
        }),
{
    run_goes_on(model, chunks);
    chunks_are_sent_in_order(model, chunks);
}

// ---------------------------------------------------------------------------
// Usage and stop reason
// ---------------------------------------------------------------------------

/// The usage that some chunks report together.
pub open spec fn total_usage(chunks: Seq<ChunkView>) -> Usage
    decreases chunks.len(),
{
    if chunks.len() == 0 {
        no_usage()
    } else {
        match usage_of(chunks.last()) {
            Some(usage) => added_usage(total_usage(chunks.drop_last()), usage),
            None => total_usage(chunks.drop_last()),
        }
    }
}

/// The last finish reason that some chunks report.
pub open spec fn last_finish_reason(chunks: Seq<ChunkView>) -> Option<FinishReason>
    decreases chunks.len(),
{
    if chunks.len() == 0 {
        None
    } else {
        match chunks.last() {
            ChunkView::Chat { finish_reason: Some(reason), .. } => Some(reason),
            ChunkView::Json { finish_reason: Some(reason), .. } => Some(reason),
            _ => last_finish_reason(chunks.drop_last()),
        }
    }
}

proof fn blocks_keep_report(s: StreamStateView, blocks: Seq<ContentBlockChunkView>)
    ensures
        after_blocks(s, blocks).usage == s.usage,
        after_blocks(s, blocks).finish_reason == s.finish_reason,
    decreases blocks.len(),
{
    if blocks.len() > 0 {
        blocks_keep_report(s, blocks.drop_last());
    }
}

proof fn run_report(model: Seq<char>, chunks: Seq<ChunkView>)
    ensures
        run(model, chunks).state.usage == total_usage(chunks),
        run(model, chunks).state.finish_reason == last_finish_reason(chunks),
    decreases chunks.len(),
{
    if chunks.len() > 0 {
        let a = run(model, chunks.drop_last());
        run_goes_on(model, chunks.drop_last());
        run_report(model, chunks.drop_last());
        blocks_keep_report(noted(a.state, chunks.last()), blocks_of(chunks.last()));
    }
}

/// The `message_delta` at the end of a response carries the usage of all chunks
/// together and the stop reason of the last finish reason.
pub proof fn message_delta_sums_up(model: Seq<char>, chunks: Seq<ChunkView>)
    ensures
        ({
            let messages = whole_response(model, chunks);
            messages[messages.len() - 2] == EventView::MessageDelta {
                delta_type: "message_delta"@,
                stop_reason: stop_reason_of(last_finish_reason(chunks)),
                stop_sequence: None,
                usage: stream_usage(total_usage(chunks)),
            }
        }),
{
    run_report(model, chunks);
}

/// A count of a usage.
pub enum Counter {
    Input,
    Output,
    CacheRead,
    CacheWrite,
}

/// A count of a usage.
pub open spec fn counter(usage: Usage, which: Counter) -> Option<u32> {
    match which {
        Counter::Input => usage.input_tokens,
        Counter::Output => usage.output_tokens,
        Counter::CacheRead => usage.provider_cache_read_input_tokens,
        Counter::CacheWrite => usage.provider_cache_write_input_tokens,
    }
}

/// What a chunk adds to a count.
pub open spec fn counted(chunk: ChunkView, which: Counter) -> nat {
    let usage = match chunk {
        ChunkView::Chat { usage, .. } => usage,
        ChunkView::Json { usage, .. } => usage,
    };
    match usage {
        Some(usage) => match counter(usage, which) {
            Some(n) => n as nat,
            None => 0,
        },
        None => 0,
    }
}

/// The sum of a count over some chunks.
pub open spec fn counted_in_all(chunks: Seq<ChunkView>, which: Counter) -> nat
    decreases chunks.len(),
{
    if chunks.len() == 0 {
        0
    } else {
        counted_in_all(chunks.drop_last(), which) + counted(chunks.last(), which)
    }
}

/// Each count of the usage of a response is the sum over its chunks, and is there
/// if one of them reports it. Sums that exceed 32 bits are left out.
pub proof fn usage_is_the_sum(chunks: Seq<ChunkView>, which: Counter)
    requires
        counted_in_all(chunks, which) <= u32::MAX,
    ensures
        match counter(total_usage(chunks), which) {
            Some(n) => n == counted_in_all(chunks, which),
            None => counted_in_all(chunks, which) == 0,
        },
        counter(total_usage(chunks), which) is Some <==> exists|i: int|
            0 <= i < chunks.len() && usage_of(#[trigger] chunks[i]) is Some && counter(
                usage_of(chunks[i])->0,
                which,
            ) is Some,
    decreases chunks.len(),
{
    if chunks.len() > 0 {
        let rest = chunks.drop_last();
        usage_is_the_sum(rest, which);
        let last = chunks.len() - 1;
        assert(chunks[last] == chunks.last());
        if counter(total_usage(rest), which) is Some {
            let i = choose|i: int|
                0 <= i < rest.len() && usage_of(#[trigger] rest[i]) is Some && counter(
                    usage_of(rest[i])->0,
                    which,
                ) is Some;
            assert(chunks[i] == rest[i]);
        }
        if exists|i: int|
            0 <= i < chunks.len() && usage_of(#[trigger] chunks[i]) is Some && counter(
                usage_of(chunks[i])->0,
                which,
            ) is Some {
            let i = choose|i: int|
                0 <= i < chunks.len() && usage_of(#[trigger] chunks[i]) is Some && counter(
                    usage_of(chunks[i])->0,
                    which,
                ) is Some;
            if i < last {
                assert(rest[i] == chunks[i]);
            }
        }
    }
}

/// A streamed response reports a usage as a response that is not streamed does.
pub proof fn streamed_usage_agrees(usage: Usage)
    ensures
        ({
            let streamed = stream_usage(usage);
            let whole = response_usage(usage);
            &&& streamed.input_tokens == whole.input_tokens
            &&& streamed.output_tokens == whole.output_tokens
            &&& streamed.cache_creation_input_tokens == whole.cache_creation_input_tokens
            &&& streamed.cache_read_input_tokens == whole.cache_read_input_tokens
            &&& usage_json(streamed) == response_usage_json(whole)
        }),
{
}

// ---------------------------------------------------------------------------
// Text
// ---------------------------------------------------------------------------

/// The text that an event adds to a text block.
pub open spec fn text_in(event: EventView) -> Seq<char> {
    match event {
        EventView::ContentBlockDelta { delta_type, text: Some(text), .. } => if delta_type
            == "text_delta"@ {
            text
        } else {
            Seq::empty()
        },
        _ => Seq::empty(),
    }
}

/// The text that some events add to text blocks.
pub open spec fn text_in_all(events: Seq<EventView>) -> Seq<char>
    decreases events.len(),
{
    if events.len() == 0 {
        Seq::empty()
    } else {
        text_in_all(events.drop_last()) + text_in(events.last())
    }
}

proof fn text_in_both(a: Seq<EventView>, b: Seq<EventView>)
    ensures
        text_in_all(a + b) == text_in_all(a) + text_in_all(b),
    decreases b.len(),
{
    if b.len() == 0 {
        assert(a + b =~= a);
        assert(text_in_all(a) + text_in_all(b) =~= text_in_all(a));
    } else {
        assert((a + b).drop_last() =~= a + b.drop_last());
        text_in_both(a, b.drop_last());
    }
}

proof fn text_in_one(event: EventView)
    ensures
        text_in_all(seq![event]) == text_in(event),
{
    assert(seq![event].drop_last() =~= Seq::empty());
    assert(text_in_all(Seq::empty()) =~= Seq::empty());
    assert(text_in_all(seq![event]) =~= text_in(event));
}

/// The text of some chunks of content blocks.
pub open spec fn text_of_blocks(blocks: Seq<ContentBlockChunkView>) -> Seq<char>
    decreases blocks.len(),
{
    if blocks.len() == 0 {
        Seq::empty()
    } else {
        text_of_blocks(blocks.drop_last()) + match blocks.last() {
            ContentBlockChunkView::Text { text } => text,
            _ => Seq::empty(),
        }
    }
}

/// The text of a chunk: that of its text blocks, or the raw answer.
pub open spec fn text_of_chunk(chunk: ChunkView) -> Seq<char> {
    match chunk {
        ChunkView::Chat { content, .. } => text_of_blocks(content),
        ChunkView::Json { raw, .. } => raw,
    }
}

/// The text of some chunks.
pub open spec fn text_of_chunks(chunks: Seq<ChunkView>) -> Seq<char>
    decreases chunks.len(),
{
    if chunks.len() == 0 {
        Seq::empty()
    } else {
        text_of_chunks(chunks.drop_last()) + text_of_chunk(chunks.last())
    }
}

proof fn text_of_block_events(s: StreamStateView, chunk: ContentBlockChunkView)
    ensures
        text_in_all(block_events(s, chunk)) == (match chunk {
            ContentBlockChunkView::Text { text } => text,
            _ => Seq::empty(),
        }),
{
    let stop = if leaves_block(s, chunk) {
        seq![stop_event(s)]
    } else {
        Seq::empty()
    };
    let start = if opens_block(s, chunk) {
        seq![start_event(s, chunk)]
    } else {
        Seq::empty()
    };
    let delta = delta_event(after_block(s, chunk).index, chunk);
    text_in_both(stop + start, seq![delta]);
    text_in_both(stop, start);
    text_in_one(stop_event(s));
    text_in_one(start_event(s, chunk));
    text_in_one(delta);
    reveal_strlit("text_delta");
    reveal_strlit("thinking_delta");
    reveal_strlit("input_json_delta");
    assert("text_delta"@.len() == 10);
    assert("thinking_delta"@.len() == 14);
    assert("input_json_delta"@.len() == 16);
    assert(text_in_all(stop + start) =~= Seq::empty());
}

proof fn text_of_blocks_events(s: StreamStateView, blocks: Seq<ContentBlockChunkView>)
    ensures
        text_in_all(blocks_events(s, blocks)) == text_of_blocks(blocks),
    decreases blocks.len(),
{
    if blocks.len() > 0 {
        let middle = after_blocks(s, blocks.drop_last());
        text_of_blocks_events(s, blocks.drop_last());
        text_of_block_events(middle, blocks.last());
        text_in_both(
            blocks_events(s, blocks.drop_last()),
            block_events(middle, blocks.last()),
        );
    }
}

#[verifier::rlimit(40)]
proof fn text_of_messages(model: Seq<char>, chunks: Seq<ChunkView>)
    ensures
        text_in_all(messages_of(model, chunks)) == text_of_chunks(chunks),
    decreases chunks.len(),
{
    if chunks.len() > 0 {
        let rest = chunks.drop_last();
        let chunk = chunks.last();
        let a = run(model, rest);
        let messages = chunk_messages(a, chunk);
        text_of_messages(model, rest);
        text_in_both(messages_of(model, rest), messages);
        match chunk {
            ChunkView::Chat { content, .. } => {
                let s = noted(a.state, chunk);
                let opening = message_start(message_id(a, chunk), a.model, s.usage);
                let start = if a.state.started {
                    Seq::empty()
                } else {
                    seq![opening]
                };
                let stop = if leaves_json(a, chunk) {
                    json_stop(a)
                } else {
                    Seq::empty()
                };
                text_in_both(stop, start + blocks_events(s, content));
                no_text_in(stop);
                assert(messages =~= stop + (start + blocks_events(s, content)));
                text_in_both(start, blocks_events(s, content));
                text_in_one(opening);
                text_of_blocks_events(s, content);
                assert(text_in_all(start) =~= Seq::empty());
                assert(text_in_all(messages) =~= text_of_chunk(chunk));
            },
            ChunkView::Json { raw, .. } => {
                let n = messages.len() as int;
                let head = messages.drop_last();
                assert(messages =~= head + seq![messages.last()]);
                text_in_both(head, seq![messages.last()]);
                text_in_one(messages.last());
                no_text_in(head);
                assert(text_in_all(messages) =~= raw);
            },
        }
    }
}

proof fn no_text_in(events: Seq<EventView>)
    requires
        forall|k: int| 0 <= k < events.len() ==> !((#[trigger] events[k]) is ContentBlockDelta),
    ensures
        text_in_all(events) == Seq::<char>::empty(),
    decreases events.len(),
{
    if events.len() > 0 {
        assert(!(events[events.len() - 1] is ContentBlockDelta));
        let rest = events.drop_last();
        assert forall|k: int| 0 <= k < rest.len() implies !((#[trigger] rest[k])
            is ContentBlockDelta) by {
            assert(!(events[k] is ContentBlockDelta));
        }
        no_text_in(rest);
        assert(text_in_all(events) =~= Seq::empty());
    }
}

/// A client that joins the text deltas of a response has the text of the answer:
/// no text is lost, repeated or reordered.
pub proof fn text_is_streamed_whole(model: Seq<char>, chunks: Seq<ChunkView>)
    ensures
        text_in_all(whole_response(model, chunks)) == text_of_chunks(chunks),
{
    let closing = closing_messages(run(model, chunks));
    text_of_messages(model, chunks);
    text_in_both(messages_of(model, chunks), closing);
    no_text_in(closing);
    assert(text_in_all(whole_response(model, chunks)) =~= text_of_chunks(chunks));
}

// ---------------------------------------------------------------------------
// Block indices
// ---------------------------------------------------------------------------

proof fn blocks_keep_state_ok(s: StreamStateView, blocks: Seq<ContentBlockChunkView>)
    requires
        state_ok(s),
    ensures
        state_ok(after_blocks(s, blocks)),
    decreases blocks.len(),
{
    if blocks.len() > 0 {
        blocks_keep_state_ok(s, blocks.drop_last());
        block_keeps_state_ok(after_blocks(s, blocks.drop_last()), blocks.last());
    }
}

/// The invariant of the state machine holds after any chunks.
pub proof fn run_keeps_state_ok(model: Seq<char>, chunks: Seq<ChunkView>)
    ensures
        state_ok(run(model, chunks).state),
    decreases chunks.len(),
{
    if chunks.len() > 0 {
        let a = run(model, chunks.drop_last());
        run_keeps_state_ok(model, chunks.drop_last());
        assert(state_ok(noted(a.state, chunks.last())));
        blocks_keep_state_ok(noted(a.state, chunks.last()), blocks_of(chunks.last()));
    }
}

/// How many indices are handed out after an event, or nothing where a block skips
/// an index. A block starts with the next index, or with one that it had before.
pub open spec fn handed_out_by(n: nat, event: EventView) -> Option<nat> {
    match event {
        EventView::ContentBlockStart { index, .. } => if index == n {
            Some(n + 1)
        } else if index < n {
            Some(n)
        } else {
            None
        },
        _ => Some(n),
    }
}

/// How many indices are handed out after some events.
pub open spec fn handed_out(n: nat, events: Seq<EventView>) -> Option<nat>
    decreases events.len(),
{
    if events.len() == 0 {
        Some(n)
    } else {
        match handed_out(n, events.drop_last()) {
            Some(m) => handed_out_by(m, events.last()),
            None => None,
        }
    }
}

proof fn handed_out_both(n: nat, a: Seq<EventView>, b: Seq<EventView>)
    ensures
        handed_out(n, a + b) == (match handed_out(n, a) {
            Some(m) => handed_out(m, b),
            None => None,
        }),
    decreases b.len(),
{
    if b.len() == 0 {
        assert(a + b =~= a);
    } else {
        assert((a + b).drop_last() =~= a + b.drop_last());
        handed_out_both(n, a, b.drop_last());
    }
}

proof fn handed_out_one(n: nat, event: EventView)
    ensures
        handed_out(n, seq![event]) == handed_out_by(n, event),
{
    assert(seq![event].drop_last() =~= Seq::empty());
    assert(handed_out(n, Seq::empty()) == Some(n));
}

proof fn blocks_hand_out(s: StreamStateView, blocks: Seq<ContentBlockChunkView>)
    requires
        state_ok(s),
    ensures
        handed_out(s.total_blocks, blocks_events(s, blocks)) == Some(
            after_blocks(s, blocks).total_blocks,
        ),
    decreases blocks.len(),
{
    if blocks.len() > 0 {
        let rest = blocks.drop_last();
        let chunk = blocks.last();
        let t = after_blocks(s, rest);
        blocks_hand_out(s, rest);
        blocks_keep_state_ok(s, rest);
        handed_out_both(s.total_blocks, blocks_events(s, rest), block_events(t, chunk));
        let stop = if leaves_block(t, chunk) {
            seq![stop_event(t)]
        } else {
            Seq::empty()
        };
        let start = if opens_block(t, chunk) {
            seq![start_event(t, chunk)]
        } else {
            Seq::empty()
        };
        let delta = delta_event(after_block(t, chunk).index, chunk);
        handed_out_both(t.total_blocks, stop + start, seq![delta]);
        handed_out_both(t.total_blocks, stop, start);
        handed_out_one(t.total_blocks, stop_event(t));
        handed_out_one(t.total_blocks, start_event(t, chunk));
        handed_out_one(after_block(t, chunk).total_blocks, delta);
    }
}

proof fn messages_hand_out(model: Seq<char>, chunks: Seq<ChunkView>)
    requires
        all_chat(chunks),
    ensures
        handed_out(0, messages_of(model, chunks)) == Some(run(model, chunks).state.total_blocks),
    decreases chunks.len(),
{
    if chunks.len() > 0 {
        let rest = chunks.drop_last();
        let chunk = chunks.last();
        chat_without_last(chunks);
        run_goes_on(model, rest);
        messages_hand_out(model, rest);
        chat_chunk_messages(model, chunks);
        run_keeps_state_ok(model, rest);
        let a = run(model, rest);
        let s = noted(a.state, chunk);
        let opening = message_start(message_id(a, chunk), a.model, s.usage);
        let start = if a.state.started {
            Seq::empty()
        } else {
            seq![opening]
        };
        handed_out_both(0, messages_of(model, rest), chunk_messages(a, chunk));
        handed_out_both(s.total_blocks, start, blocks_events(s, blocks_of(chunk)));
        handed_out_one(s.total_blocks, opening);
        blocks_hand_out(s, blocks_of(chunk));
    }
}

proof fn chat_without_last(chunks: Seq<ChunkView>)
    requires
        all_chat(chunks),
        chunks.len() > 0,
    ensures
        all_chat(chunks.drop_last()),
        chunks.last() is Chat,
{
    let rest = chunks.drop_last();
    assert forall|i: int| 0 <= i < rest.len() implies #[trigger] rest[i] is Chat by {
        assert(chunks[i] is Chat);
    }
    assert(chunks[chunks.len() - 1] is Chat);
}

/// Among chat chunks, the messages of a chunk are those of the state machine.
proof fn chat_chunk_messages(model: Seq<char>, chunks: Seq<ChunkView>)
    requires
        all_chat(chunks),
    ensures
        !run(model, chunks).json_open,
        chunks.len() > 0 ==> ({
            let a = run(model, chunks.drop_last());
            chunk_messages(a, chunks.last()) == chunk_events(
                a.state,
                chunks.last(),
                message_id(a, chunks.last()),
                a.model,
            )
        }),
    decreases chunks.len(),
{
    if chunks.len() > 0 {
        let rest = chunks.drop_last();
        chat_without_last(chunks);
        chat_chunk_messages(model, rest);
        run_goes_on(model, rest);
        let a = run(model, rest);
        assert(chunk_messages(a, chunks.last()) =~= chunk_events(
            a.state,
            chunks.last(),
            message_id(a, chunks.last()),
            a.model,
        ));
    }
}

/// The block indices of a chat response count up from zero: no index is skipped.
pub proof fn indices_count_up(model: Seq<char>, chunks: Seq<ChunkView>)
    requires
        all_chat(chunks),
    ensures
        handed_out(0, whole_response(model, chunks)) == Some(
            run(model, chunks).state.total_blocks,
        ),
{
    let a = run(model, chunks);
    let closing = closing_messages(a);
    messages_hand_out(model, chunks);
    handed_out_both(0, messages_of(model, chunks), closing);
    hands_out_nothing(a.state.total_blocks, closing);
}

proof fn hands_out_nothing(n: nat, events: Seq<EventView>)
    requires
        forall|k: int| 0 <= k < events.len() ==> !((#[trigger] events[k]) is ContentBlockStart),
    ensures
        handed_out(n, events) == Some(n),
    decreases events.len(),
{
    if events.len() > 0 {
        assert(!(events[events.len() - 1] is ContentBlockStart));
        let rest = events.drop_last();
        assert forall|k: int| 0 <= k < rest.len() implies !((#[trigger] rest[k])
            is ContentBlockStart) by {
            assert(!(events[k] is ContentBlockStart));
        }
        hands_out_nothing(n, rest);
    }
}

/// All chunks of content blocks.
pub open spec fn all_blocks(chunks: Seq<ChunkView>) -> Seq<ContentBlockChunkView>
    decreases chunks.len(),
{
    if chunks.len() == 0 {
        Seq::empty()
    } else {
        all_blocks(chunks.drop_last()) + match chunks.last() {
            ChunkView::Chat { content, .. } => content,
            ChunkView::Json { .. } => Seq::empty(),
        }
    }
}

/// Whether a chunk is a piece of the tool call `id`.
pub open spec fn is_piece_of(chunk: ContentBlockChunkView, id: Seq<char>) -> bool {
    chunk is ToolCall && chunk->ToolCall_id == id
}

/// Whether the pieces of each tool call come without anything in between.
pub open spec fn tools_are_contiguous(blocks: Seq<ContentBlockChunkView>) -> bool {
    forall|i: int, k: int, j: int, id: Seq<char>|
        #![trigger is_piece_of(blocks[i], id), blocks[k], is_piece_of(blocks[j], id)]
        0 <= i < k < j < blocks.len() && is_piece_of(blocks[i], id) && is_piece_of(blocks[j], id)
            ==> is_piece_of(blocks[k], id)
}

/// What the state machine knows of the chunks of content blocks that it has seen.
spec fn remembers(s: StreamStateView, seen: Seq<ContentBlockChunkView>) -> bool {
    &&& seen.len() == 0 ==> s.open_kind is None
    &&& seen.len() > 0 ==> s.open_kind == Some(kind_of(seen.last())) && s.key == key_of(seen.last())
    &&& forall|id: Seq<char>| #[trigger]
        s.tool_indices.contains_key(id) ==> exists|i: int|
            0 <= i < seen.len() && is_piece_of(#[trigger] seen[i], id)
}

/// The indices of the blocks that some events start.
pub open spec fn started_blocks(events: Seq<EventView>) -> Seq<nat>
    decreases events.len(),
{
    if events.len() == 0 {
        Seq::empty()
    } else {
        match events.last() {
            EventView::ContentBlockStart { index, .. } => started_blocks(
                events.drop_last(),
            ).push(index),
            _ => started_blocks(events.drop_last()),
        }
    }
}

/// The numbers below `n`.
pub open spec fn numbers_below(n: nat) -> Seq<nat> {
    Seq::new(n, |i: int| i as nat)
}

proof fn started_in_both(a: Seq<EventView>, b: Seq<EventView>)
    ensures
        started_blocks(a + b) == started_blocks(a) + started_blocks(b),
    decreases b.len(),
{
    if b.len() == 0 {
        assert(a + b =~= a);
        assert(started_blocks(a) + started_blocks(b) =~= started_blocks(a));
    } else {
        assert((a + b).drop_last() =~= a + b.drop_last());
        started_in_both(a, b.drop_last());
        assert(started_blocks(a + b) =~= started_blocks(a) + started_blocks(b));
    }
}

proof fn starts_nothing(events: Seq<EventView>)
    requires
        forall|k: int| 0 <= k < events.len() ==> !((#[trigger] events[k]) is ContentBlockStart),
    ensures
        started_blocks(events) == Seq::<nat>::empty(),
    decreases events.len(),
{
    if events.len() > 0 {
        assert(!(events[events.len() - 1] is ContentBlockStart));
        let rest = events.drop_last();
        assert forall|k: int| 0 <= k < rest.len() implies !((#[trigger] rest[k])
            is ContentBlockStart) by {
            assert(!(events[k] is ContentBlockStart));
        }
        starts_nothing(rest);
    }
}

proof fn block_counts_up(
    s: StreamStateView,
    seen: Seq<ContentBlockChunkView>,
    chunk: ContentBlockChunkView,
)
    requires
        state_ok(s),
        remembers(s, seen),
        tools_are_contiguous(seen.push(chunk)),
    ensures
        remembers(after_block(s, chunk), seen.push(chunk)),
        numbers_below(s.total_blocks) + started_blocks(block_events(s, chunk)) == numbers_below(
            after_block(s, chunk).total_blocks,
        ),
{
    let all = seen.push(chunk);
    let t = after_block(s, chunk);
    assert forall|id: Seq<char>| #[trigger] t.tool_indices.contains_key(id) implies exists|i: int|
        0 <= i < all.len() && is_piece_of(#[trigger] all[i], id) by {
        if s.tool_indices.contains_key(id) {
            let i = choose|i: int| 0 <= i < seen.len() && is_piece_of(#[trigger] seen[i], id);
            assert(is_piece_of(all[i], id));
        } else {
            assert(is_piece_of(all[seen.len() as int], id));
        }
    }
    if opens_block(s, chunk) && chunk is ToolCall {
        let id = chunk->ToolCall_id;
        if s.tool_indices.contains_key(id) {
            let i = choose|i: int| 0 <= i < seen.len() && is_piece_of(#[trigger] seen[i], id);
            let last = seen.len() - 1;
            assert(is_piece_of(all[i], id));
            assert(is_piece_of(all[last + 1], id));
            assert(all[last] == seen[last]);
            assert(is_piece_of(all[last], id));
        }
    }
    let stop = if leaves_block(s, chunk) {
        seq![stop_event(s)]
    } else {
        Seq::empty()
    };
    let delta = seq![delta_event(t.index, chunk)];
    starts_nothing(stop);
    starts_nothing(delta);
    if opens_block(s, chunk) {
        let start = seq![start_event(s, chunk)];
        assert(start.drop_last() =~= Seq::empty());
        assert(started_blocks(Seq::empty()) =~= Seq::empty());
        assert(started_blocks(start) =~= seq![s.total_blocks]);
        started_in_both(stop + start, delta);
        started_in_both(stop, start);
    } else {
        started_in_both(stop + Seq::empty(), delta);
        started_in_both(stop, Seq::empty());
    }
    assert(numbers_below(s.total_blocks) + started_blocks(block_events(s, chunk))
        =~= numbers_below(t.total_blocks));
}

proof fn contiguous_prefix(a: Seq<ContentBlockChunkView>, b: Seq<ContentBlockChunkView>)
    requires
        tools_are_contiguous(a + b),
    ensures
        tools_are_contiguous(a),
{
    let all = a + b;
    assert forall|i: int, k: int, j: int, id: Seq<char>|
        #![trigger is_piece_of(a[i], id), a[k], is_piece_of(a[j], id)]
        0 <= i < k < j < a.len() && is_piece_of(a[i], id) && is_piece_of(a[j], id) implies
        is_piece_of(a[k], id) by {
        assert(is_piece_of(all[i], id));
        assert(is_piece_of(all[j], id));
        assert(all[k] == a[k]);
    }
}

proof fn blocks_count_up(
    s: StreamStateView,
    seen: Seq<ContentBlockChunkView>,
    blocks: Seq<ContentBlockChunkView>,
)
    requires
        state_ok(s),
        remembers(s, seen),
        tools_are_contiguous(seen + blocks),
    ensures
        remembers(after_blocks(s, blocks), seen + blocks),
        numbers_below(s.total_blocks) + started_blocks(blocks_events(s, blocks)) == numbers_below(
            after_blocks(s, blocks).total_blocks,
        ),
    decreases blocks.len(),
{
    if blocks.len() == 0 {
        assert(seen + blocks =~= seen);
        assert(numbers_below(s.total_blocks) + started_blocks(Seq::empty()) =~= numbers_below(
            s.total_blocks,
        ));
    } else {
        let rest = blocks.drop_last();
        let chunk = blocks.last();
        let t = after_blocks(s, rest);
        assert((seen + rest).push(chunk) =~= seen + blocks);
        assert(seen + blocks =~= (seen + rest) + seq![chunk]);
        contiguous_prefix(seen + rest, seq![chunk]);
        blocks_count_up(s, seen, rest);
        blocks_keep_state_ok(s, rest);
        block_counts_up(t, seen + rest, chunk);
        started_in_both(blocks_events(s, rest), block_events(t, chunk));
        assert(numbers_below(s.total_blocks) + started_blocks(blocks_events(s, blocks))
            =~= numbers_below(s.total_blocks) + started_blocks(blocks_events(s, rest))
            + started_blocks(block_events(t, chunk)));
    }
}

proof fn messages_count_up(model: Seq<char>, chunks: Seq<ChunkView>)
    requires
        all_chat(chunks),
        tools_are_contiguous(all_blocks(chunks)),
    ensures
        remembers(run(model, chunks).state, all_blocks(chunks)),
        started_blocks(messages_of(model, chunks)) == numbers_below(
            run(model, chunks).state.total_blocks,
        ),
    decreases chunks.len(),
{
    if chunks.len() == 0 {
        assert(started_blocks(messages_of(model, chunks)) =~= numbers_below(0));
    } else {
        let rest = chunks.drop_last();
        let chunk = chunks.last();
        chat_without_last(chunks);
        run_goes_on(model, rest);
        contiguous_prefix(all_blocks(rest), blocks_of(chunk));
        messages_count_up(model, rest);
        chat_chunk_messages(model, chunks);
        run_keeps_state_ok(model, rest);
        let a = run(model, rest);
        let s = noted(a.state, chunk);
        let opening = message_start(message_id(a, chunk), a.model, s.usage);
        let start = if a.state.started {
            Seq::empty()
        } else {
            seq![opening]
        };
        blocks_count_up(s, all_blocks(rest), blocks_of(chunk));
        started_in_both(messages_of(model, rest), chunk_messages(a, chunk));
        started_in_both(start, blocks_events(s, blocks_of(chunk)));
        starts_nothing(start);
        assert(started_blocks(chunk_messages(a, chunk)) =~= started_blocks(
            blocks_events(s, blocks_of(chunk)),
        ));
    }
}

/// The blocks of a chat response are started with the indices `0`, `1`, `2` and
/// so on, each once. Only a tool call that is resumed after another block starts
/// its block anew, under the index that it had; without one, this holds.
pub proof fn each_block_starts_once(model: Seq<char>, chunks: Seq<ChunkView>)
    requires
        all_chat(chunks),
        tools_are_contiguous(all_blocks(chunks)),
    ensures
        started_blocks(whole_response(model, chunks)) == numbers_below(
            run(model, chunks).state.total_blocks,
        ),
{
    let a = run(model, chunks);
    let closing = closing_messages(a);
    messages_count_up(model, chunks);
    started_in_both(messages_of(model, chunks), closing);
    starts_nothing(closing);
    assert(started_blocks(whole_response(model, chunks)) =~= started_blocks(
        messages_of(model, chunks),
    ));
}

// ---------------------------------------------------------------------------
// Tool calls
// ---------------------------------------------------------------------------

/// A tool call keeps the block index that it was given.
pub proof fn tool_keeps_its_index(
    s: StreamStateView,
    blocks: Seq<ContentBlockChunkView>,
    id: Seq<char>,
)
    requires
        state_ok(s),
        s.tool_indices.contains_key(id),
    ensures
        after_blocks(s, blocks).tool_indices.contains_key(id),
        after_blocks(s, blocks).tool_indices[id] == s.tool_indices[id],
    decreases blocks.len(),
{
    if blocks.len() > 0 {
        tool_keeps_its_index(s, blocks.drop_last(), id);
        blocks_keep_state_ok(s, blocks.drop_last());
    }
}

/// Every piece of a tool call is added to the block of that tool call, and no
/// other tool call has that block.
pub proof fn tool_pieces_go_to_their_block(
    s: StreamStateView,
    chunk: ContentBlockChunkView,
    other: Seq<char>,
)
    requires
        state_ok(s),
        chunk is ToolCall,
        other != chunk->ToolCall_id,
    ensures
        ({
            let t = after_block(s, chunk);
            let id = chunk->ToolCall_id;
            &&& t.tool_indices.contains_key(id)
            &&& block_events(s, chunk).last() == delta_event(t.tool_indices[id], chunk)
            &&& t.tool_indices.contains_key(other) ==> t.tool_indices[other]
                != t.tool_indices[id]
        }),
{
    block_keeps_state_ok(s, chunk);
    let t = after_block(s, chunk);
    let id = chunk->ToolCall_id;
    assert(t.key == Some(tool_key(id)));
    assert(t.tool_indices.contains_key(id) && t.tool_indices[id] == t.index);
}

// ---------------------------------------------------------------------------
// Starts and stops
// ---------------------------------------------------------------------------

/// Whether two chunks belong to one block if they follow each other: they are of one
/// kind and, if they are pieces of tool calls, of one tool call.
pub open spec fn same_block(p: ContentBlockChunkView, chunk: ContentBlockChunkView) -> bool {
    match (p, chunk) {
        (ContentBlockChunkView::Text { .. }, ContentBlockChunkView::Text { .. }) => true,
        (ContentBlockChunkView::Thought { .. }, ContentBlockChunkView::Thought { .. }) => true,
        (ContentBlockChunkView::Unknown { .. }, ContentBlockChunkView::Unknown { .. }) => true,
        (
            ContentBlockChunkView::ToolCall { id: a, .. },
            ContentBlockChunkView::ToolCall { id: b, .. },
        ) => a == b,
        _ => false,
    }
}

/// The index of the block to which the last of some chunks was added.
pub open spec fn index_of_last(blocks: Seq<ContentBlockChunkView>) -> nat {
    block_events(
        after_blocks(initial_state(), blocks.drop_last()),
        blocks.last(),
    ).last()->ContentBlockDelta_index
}

proof fn last_block_is_open(blocks: Seq<ContentBlockChunkView>)
    requires
        blocks.len() > 0,
    ensures
        ({
            let s = after_blocks(initial_state(), blocks);
            &&& s.open_kind == Some(kind_of(blocks.last()))
            &&& blocks.last() is ToolCall ==> s.key == key_of(blocks.last())
            &&& s.index == index_of_last(blocks)
        }),
{
    assert(state_ok(initial_state()));
    blocks_keep_state_ok(initial_state(), blocks.drop_last());
}

/// What a chunk of a content block gives depends on the chunk before. The first one
/// starts a block and adds to it. One of the same block only adds to it. Any other
/// stops the block of the chunk before, starts a block and adds to it.
pub proof fn events_follow_from_the_chunk_before(
    blocks: Seq<ContentBlockChunkView>,
    chunk: ContentBlockChunkView,
)
    ensures
        ({
            let events = block_events(after_blocks(initial_state(), blocks), chunk);
            if blocks.len() == 0 {
                &&& events.len() == 2
                &&& events[0] is ContentBlockStart
                &&& events[1] is ContentBlockDelta
                &&& events[0]->ContentBlockStart_index == events[1]->ContentBlockDelta_index
            } else if same_block(blocks.last(), chunk) {
                &&& events.len() == 1
                &&& events[0] is ContentBlockDelta
                &&& events[0]->ContentBlockDelta_index == index_of_last(blocks)
            } else {
                &&& events.len() == 3
                &&& events[0] is ContentBlockStop
                &&& events[0]->ContentBlockStop_index == index_of_last(blocks)
                &&& events[1] is ContentBlockStart
                &&& events[2] is ContentBlockDelta
                &&& events[1]->ContentBlockStart_index == events[2]->ContentBlockDelta_index
            }
        }),
{
    let s = after_blocks(initial_state(), blocks);
    if blocks.len() > 0 {
        last_block_is_open(blocks);
        let last = blocks.last();
        if last is ToolCall && chunk is ToolCall && key_of(last) == key_of(chunk) {
            tool_key_identifies(last->ToolCall_id, chunk->ToolCall_id);
        }
        assert(leaves_block(s, chunk) <==> !same_block(last, chunk));
    }
}

/// The IDs of the blocks that some events start.
pub open spec fn start_ids(events: Seq<EventView>) -> Seq<Seq<char>>
    decreases events.len(),
{
    if events.len() == 0 {
        Seq::empty()
    } else {
        match events.last() {
            EventView::ContentBlockStart { id, .. } => start_ids(events.drop_last()).push(id),
            _ => start_ids(events.drop_last()),
        }
    }
}

/// The ID of the `n`-th block.
pub open spec fn block_id(n: nat) -> Seq<char> {
    "block_"@ + numeral(n)
}

/// The IDs of the blocks from the `from`-th on, before the `to`-th.
pub open spec fn block_ids(from: nat, to: nat) -> Seq<Seq<char>> {
    Seq::new((to - from) as nat, |k: int| block_id((from + k) as nat))
}

proof fn start_ids_in_both(a: Seq<EventView>, b: Seq<EventView>)
    ensures
        start_ids(a + b) == start_ids(a) + start_ids(b),
    decreases b.len(),
{
    if b.len() == 0 {
        assert(a + b =~= a);
        assert(start_ids(a) + start_ids(b) =~= start_ids(a));
    } else {
        assert((a + b).drop_last() =~= a + b.drop_last());
        start_ids_in_both(a, b.drop_last());
        assert(start_ids(a + b) =~= start_ids(a) + start_ids(b));
    }
}

proof fn no_start_ids_in(events: Seq<EventView>)
    requires
        forall|k: int| 0 <= k < events.len() ==> !((#[trigger] events[k]) is ContentBlockStart),
    ensures
        start_ids(events) == Seq::<Seq<char>>::empty(),
    decreases events.len(),
{
    if events.len() > 0 {
        assert(!(events[events.len() - 1] is ContentBlockStart));
        let rest = events.drop_last();
        assert forall|k: int| 0 <= k < rest.len() implies !((#[trigger] rest[k])
            is ContentBlockStart) by {
            assert(!(events[k] is ContentBlockStart));
        }
        no_start_ids_in(rest);
    }
}

proof fn block_start_ids(s: StreamStateView, chunk: ContentBlockChunkView)
    ensures
        start_ids(block_events(s, chunk)) == block_ids(
            s.block_ids,
            after_block(s, chunk).block_ids,
        ),
        s.block_ids <= after_block(s, chunk).block_ids,
{
    let stop = if leaves_block(s, chunk) {
        seq![stop_event(s)]
    } else {
        Seq::empty()
    };
    let start = if opens_block(s, chunk) {
        seq![start_event(s, chunk)]
    } else {
        Seq::empty()
    };
    let delta = seq![delta_event(after_block(s, chunk).index, chunk)];
    no_start_ids_in(stop);
    no_start_ids_in(delta);
    start_ids_in_both(stop + start, delta);
    start_ids_in_both(stop, start);
    assert(start_ids(Seq::empty()) =~= Seq::empty());
    if opens_block(s, chunk) {
        assert(start.drop_last() =~= Seq::empty());
        assert(start_ids(start) =~= seq![block_id(s.block_ids)]);
    }
    assert(start_ids(block_events(s, chunk)) =~= block_ids(
        s.block_ids,
        after_block(s, chunk).block_ids,
    ));
}

/// The blocks that some chunks start are named on from the number of blocks that were
/// opened before, whatever the state.
pub proof fn blocks_start_ids(s: StreamStateView, blocks: Seq<ContentBlockChunkView>)
    ensures
        start_ids(blocks_events(s, blocks)) == block_ids(
            s.block_ids,
            after_blocks(s, blocks).block_ids,
        ),
        s.block_ids <= after_blocks(s, blocks).block_ids,
    decreases blocks.len(),
{
    if blocks.len() == 0 {
        assert(start_ids(blocks_events(s, blocks)) =~= block_ids(s.block_ids, s.block_ids));
    } else {
        let rest = blocks.drop_last();
        let t = after_blocks(s, rest);
        blocks_start_ids(s, rest);
        block_start_ids(t, blocks.last());
        start_ids_in_both(blocks_events(s, rest), block_events(t, blocks.last()));
        assert(start_ids(blocks_events(s, blocks)) =~= block_ids(
            s.block_ids,
            after_blocks(s, blocks).block_ids,
        ));
    }
}

/// A block that is started after `n` others has the ID `block_n`, also where a tool
/// call comes back to its index.
pub proof fn blocks_are_named_in_order(
    blocks: Seq<ContentBlockChunkView>,
    chunk: ContentBlockChunkView,
)
    ensures
        ({
            let s = after_blocks(initial_state(), blocks);
            let n = start_ids(blocks_events(initial_state(), blocks)).len();
            let events = block_events(s, chunk);
            forall|k: int|
                0 <= k < events.len() && (#[trigger] events[k]) is ContentBlockStart ==> events[k]
                    ->ContentBlockStart_id == block_id(n)
        }),
{
    blocks_start_ids(initial_state(), blocks);
}

proof fn messages_start_ids(model: Seq<char>, chunks: Seq<ChunkView>)
    requires
        all_chat(chunks),
    ensures
        start_ids(messages_of(model, chunks)) == block_ids(
            0,
            run(model, chunks).state.block_ids,
        ),
    decreases chunks.len(),
{
    if chunks.len() == 0 {
        assert(start_ids(messages_of(model, chunks)) =~= block_ids(0, 0));
    } else {
        let rest = chunks.drop_last();
        let chunk = chunks.last();
        chat_without_last(chunks);
        chat_chunk_messages(model, chunks);
        run_goes_on(model, rest);
        messages_start_ids(model, rest);
        let a = run(model, rest);
        let s = noted(a.state, chunk);
        let start = if a.state.started {
            Seq::empty()
        } else {
            seq![message_start(message_id(a, chunk), a.model, s.usage)]
        };
        start_ids_in_both(messages_of(model, rest), chunk_messages(a, chunk));
        start_ids_in_both(start, blocks_events(s, blocks_of(chunk)));
        no_start_ids_in(start);
        blocks_start_ids(s, blocks_of(chunk));
        assert(start_ids(messages_of(model, chunks)) =~= block_ids(
            0,
            run(model, chunks).state.block_ids,
        ));
    }
}

/// The blocks of a chat response have the IDs `block_0`, `block_1`, `block_2` and so
/// on, in the order in which they are started.
pub proof fn response_blocks_are_named_in_order(model: Seq<char>, chunks: Seq<ChunkView>)
    requires
        all_chat(chunks),
    ensures
        start_ids(whole_response(model, chunks)) == block_ids(
            0,
            run(model, chunks).state.block_ids,
        ),
{
    let closing = closing_messages(run(model, chunks));
    messages_start_ids(model, chunks);
    start_ids_in_both(messages_of(model, chunks), closing);
    no_start_ids_in(closing);
    assert(start_ids(whole_response(model, chunks)) =~= start_ids(messages_of(model, chunks)));
}

/// No two blocks of a chat response have the same ID.
pub proof fn block_ids_are_distinct(model: Seq<char>, chunks: Seq<ChunkView>, j: int, k: int)
    requires
        all_chat(chunks),
        0 <= j < k < start_ids(whole_response(model, chunks)).len(),
    ensures
        start_ids(whole_response(model, chunks))[j] != start_ids(
            whole_response(model, chunks),
        )[k],
{
    response_blocks_are_named_in_order(model, chunks);
    if block_id(j as nat) == block_id(k as nat) {
        let n = "block_"@.len() as int;
        assert(block_id(j as nat).skip(n) =~= numeral(j as nat));
        assert(block_id(k as nat).skip(n) =~= numeral(k as nat));
        numeral_identifies(j as nat, k as nat);
    }
}

/// The last signature among some chunks of a thought.
pub open spec fn last_signature(thoughts: Seq<ContentBlockChunkView>) -> Option<Seq<char>>
    decreases thoughts.len(),
{
    if thoughts.len() == 0 {
        None
    } else {
        match thoughts.last() {
            ContentBlockChunkView::Thought { signature: Some(signature), .. } => if signature.len()
                > 0 {
                Some(signature)
            } else {
                last_signature(thoughts.drop_last())
            },
            _ => last_signature(thoughts.drop_last()),
        }
    }
}

/// Whether all chunks are chunks of a thought.
pub open spec fn all_thoughts(blocks: Seq<ContentBlockChunkView>) -> bool {
    forall|i: int| 0 <= i < blocks.len() ==> #[trigger] blocks[i] is Thought
}

proof fn signature_is_kept(s: StreamStateView, thoughts: Seq<ContentBlockChunkView>)
    requires
        s.open_kind != Some(BlockKind::Thinking),
        all_thoughts(thoughts),
        thoughts.len() > 0,
    ensures
        after_blocks(s, thoughts).open_kind == Some(BlockKind::Thinking),
        after_blocks(s, thoughts).thinking_signature == last_signature(thoughts),
    decreases thoughts.len(),
{
    let rest = thoughts.drop_last();
    assert(thoughts[thoughts.len() - 1] is Thought);
    if rest.len() > 0 {
        assert forall|i: int| 0 <= i < rest.len() implies #[trigger] rest[i] is Thought by {
            assert(thoughts[i] is Thought);
        }
        signature_is_kept(s, rest);
    } else {
        assert(after_blocks(s, rest) == s);
        assert(last_signature(rest) is None);
    }
}

/// The signature of a thought is sent with the stop of its block: the last one that
/// its chunks carry, whenever it came, whether another block follows or the response
/// ends.
pub proof fn signature_is_sent_with_the_stop(
    s: StreamStateView,
    thoughts: Seq<ContentBlockChunkView>,
    next: ContentBlockChunkView,
)
    requires
        s.open_kind != Some(BlockKind::Thinking),
        all_thoughts(thoughts),
        thoughts.len() > 0,
        !(next is Thought),
    ensures
        ({
            let t = after_blocks(s, thoughts);
            let stop = EventView::ContentBlockStop {
                index: t.index,
                signature: last_signature(thoughts),
            };
            &&& block_events(t, next)[0] == stop
            &&& forall|a: AdapterView|
                a.state == t ==> #[trigger] chat_stop(a) == seq![stop]
        }),
{
    signature_is_kept(s, thoughts);
}

// ---------------------------------------------------------------------------
// Deltas
// ---------------------------------------------------------------------------

/// The deltas among some events, whatever block they belong to.
pub open spec fn deltas(events: Seq<EventView>) -> Seq<EventView>
    decreases events.len(),
{
    if events.len() == 0 {
        Seq::empty()
    } else {
        match events.last() {
            EventView::ContentBlockDelta { delta_type, text, tool_use_id, name, input, .. } =>
                deltas(events.drop_last()).push(
                    EventView::ContentBlockDelta {
                        index: 0,
                        delta_type,
                        text,
                        tool_use_id,
                        name,
                        input,
                    },
                ),
            _ => deltas(events.drop_last()),
        }
    }
}

/// The delta of each chunk of a content block.
pub open spec fn deltas_of(blocks: Seq<ContentBlockChunkView>) -> Seq<EventView> {
    blocks.map_values(|b: ContentBlockChunkView| delta_event(0, b))
}

proof fn deltas_in_both(a: Seq<EventView>, b: Seq<EventView>)
    ensures
        deltas(a + b) == deltas(a) + deltas(b),
    decreases b.len(),
{
    if b.len() == 0 {
        assert(a + b =~= a);
        assert(deltas(a) + deltas(b) =~= deltas(a));
    } else {
        assert((a + b).drop_last() =~= a + b.drop_last());
        deltas_in_both(a, b.drop_last());
        assert(deltas(a + b) =~= deltas(a) + deltas(b));
    }
}

proof fn no_deltas_in(events: Seq<EventView>)
    requires
        forall|k: int| 0 <= k < events.len() ==> !((#[trigger] events[k]) is ContentBlockDelta),
    ensures
        deltas(events) == Seq::<EventView>::empty(),
    decreases events.len(),
{
    if events.len() > 0 {
        assert(!(events[events.len() - 1] is ContentBlockDelta));
        let rest = events.drop_last();
        assert forall|k: int| 0 <= k < rest.len() implies !((#[trigger] rest[k])
            is ContentBlockDelta) by {
            assert(!(events[k] is ContentBlockDelta));
        }
        no_deltas_in(rest);
    }
}

proof fn blocks_deltas(s: StreamStateView, blocks: Seq<ContentBlockChunkView>)
    ensures
        deltas(blocks_events(s, blocks)) == deltas_of(blocks),
    decreases blocks.len(),
{
    if blocks.len() == 0 {
        assert(deltas(blocks_events(s, blocks)) =~= deltas_of(blocks));
    } else {
        let rest = blocks.drop_last();
        let chunk = blocks.last();
        let t = after_blocks(s, rest);
        blocks_deltas(s, rest);
        deltas_in_both(blocks_events(s, rest), block_events(t, chunk));
        let events = block_events(t, chunk);
        no_deltas_in(events.drop_last());
        assert(deltas(events) =~= seq![delta_event(0, chunk)]);
        assert(deltas(blocks_events(s, blocks)) =~= deltas_of(blocks));
    }
}

proof fn messages_deltas(model: Seq<char>, chunks: Seq<ChunkView>)
    requires
        all_chat(chunks),
    ensures
        deltas(messages_of(model, chunks)) == deltas_of(all_blocks(chunks)),
    decreases chunks.len(),
{
    if chunks.len() == 0 {
        assert(deltas(messages_of(model, chunks)) =~= deltas_of(all_blocks(chunks)));
    } else {
        let rest = chunks.drop_last();
        let chunk = chunks.last();
        chat_without_last(chunks);
        messages_deltas(model, rest);
        chat_chunk_messages(model, chunks);
        let a = run(model, rest);
        let s = noted(a.state, chunk);
        let start = if a.state.started {
            Seq::empty()
        } else {
            seq![message_start(message_id(a, chunk), a.model, s.usage)]
        };
        deltas_in_both(messages_of(model, rest), chunk_messages(a, chunk));
        deltas_in_both(start, blocks_events(s, blocks_of(chunk)));
        no_deltas_in(start);
        blocks_deltas(s, blocks_of(chunk));
        assert(deltas(messages_of(model, chunks)) =~= deltas_of(all_blocks(chunks)));
    }
}

/// Every chunk of a content block of a chat answer, be it text, a thought or a
/// tool call, reaches the client in one delta, in order, and no other delta does.
pub proof fn each_piece_has_one_delta(model: Seq<char>, chunks: Seq<ChunkView>)
    requires
        all_chat(chunks),
    ensures
        deltas(whole_response(model, chunks)) == deltas_of(all_blocks(chunks)),
{
    let closing = closing_messages(run(model, chunks));
    messages_deltas(model, chunks);
    deltas_in_both(messages_of(model, chunks), closing);
    no_deltas_in(closing);
    assert(deltas(whole_response(model, chunks)) =~= deltas_of(all_blocks(chunks)));
}

// ---------------------------------------------------------------------------
// Sending
// ---------------------------------------------------------------------------

/// Events may be sent at any time: to send one before a chunk comes, or after it,
/// gives the same response.
pub proof fn sending_does_not_interfere(a: AdapterView, input: StreamInputView)
    requires
        a.pending.len() > 0,
    ensures
        ({
            let sent = AdapterView { pending: a.pending.skip(1), ..a };
            let after = fed(a, input);
            &&& after.pending.len() > 0
            &&& after.pending[0] == a.pending[0]
            &&& fed(sent, input) == (AdapterView { pending: after.pending.skip(1), ..after })
        }),
{
    let sent = AdapterView { pending: a.pending.skip(1), ..a };
    let after = fed(a, input);
    if !a.finished {
        match input {
            StreamInputView::Chunk(chunk) => {
                assert(chunk_messages(sent, chunk) == chunk_messages(a, chunk));
            },
            _ => {
                assert(closing_messages(sent) == closing_messages(a));
            },
        }
        assert(fed(sent, input).pending =~= after.pending.skip(1));
    }
}

// ---------------------------------------------------------------------------
// Event IDs
// ---------------------------------------------------------------------------

/// Whether an ID is the numeral of a number below `n`.
pub open spec fn is_id_below(id: Seq<char>, n: nat) -> bool {
    exists|x: nat| x < n && id == #[trigger] numeral(x)
}

/// Whether events have distinct IDs, all of them numerals of numbers below `n`.
pub open spec fn ids_are_distinct(events: Seq<SseEventView>, n: nat) -> bool {
    &&& forall|k: int| 0 <= k < events.len() ==> is_id_below((#[trigger] events[k]).id, n)
    &&& forall|j: int, k: int|
        0 <= j < k < events.len() ==> (#[trigger] events[j]).id != (#[trigger] events[k]).id
}

/// Numbered messages added to events with smaller numbers.
proof fn numbering_keeps_ids_distinct(
    before: Seq<SseEventView>,
    added: Seq<SseEventView>,
    numbers: Seq<nat>,
    base: nat,
)
    requires
        ids_are_distinct(before, base),
        added.len() == numbers.len(),
        forall|k: int|
            0 <= k < added.len() ==> (#[trigger] added[k]).id == numeral(numbers[k]) && base
                <= numbers[k] < base + added.len(),
        forall|j: int, k: int|
            0 <= j < k < numbers.len() ==> (#[trigger] numbers[j]) != (#[trigger] numbers[k]),
    ensures
        ids_are_distinct(before + added, base + added.len()),
{
    let all = before + added;
    let n = base + added.len();
    assert forall|k: int| 0 <= k < all.len() implies is_id_below((#[trigger] all[k]).id, n) by {
        if k < before.len() {
            let x = choose|x: nat| x < base && before[k].id == #[trigger] numeral(x);
            assert(x < n && all[k].id == numeral(x));
        } else {
            let i = k - before.len();
            assert(all[k] == added[i]);
            assert(numbers[i] < n && all[k].id == numeral(numbers[i]));
        }
    }
    assert forall|j: int, k: int| 0 <= j < k < all.len() implies (#[trigger] all[j]).id != (
    #[trigger] all[k]).id by {
        if all[j].id == all[k].id {
            if k < before.len() {
                assert(before[j].id != before[k].id);
            } else {
                let b = k - before.len();
                assert(all[k] == added[b]);
                if j < before.len() {
                    let x = choose|x: nat| x < base && before[j].id == #[trigger] numeral(x);
                    numeral_identifies(x, numbers[b]);
                } else {
                    let a = j - before.len();
                    assert(all[j] == added[a]);
                    numeral_identifies(numbers[a], numbers[b]);
                }
            }
        }
    }
}

proof fn down_keeps_ids_distinct(before: Seq<SseEventView>, messages: Seq<EventView>, base: nat)
    requires
        ids_are_distinct(before, base),
    ensures
        ids_are_distinct(before + numbered_down(messages, base), base + messages.len()),
{
    let numbers = Seq::new(messages.len(), |k: int| (base + messages.len() - 1 - k) as nat);
    numbering_keeps_ids_distinct(before, numbered_down(messages, base), numbers, base);
}

proof fn up_keeps_ids_distinct(before: Seq<SseEventView>, messages: Seq<EventView>, base: nat)
    requires
        ids_are_distinct(before, base),
    ensures
        ids_are_distinct(before + numbered_up(messages, base), base + messages.len()),
{
    let numbers = Seq::new(messages.len(), |k: int| (base + k) as nat);
    numbering_keeps_ids_distinct(before, numbered_up(messages, base), numbers, base);
}

proof fn run_ids_are_distinct(model: Seq<char>, chunks: Seq<ChunkView>)
    ensures
        ids_are_distinct(run(model, chunks).pending, run(model, chunks).next_id),
    decreases chunks.len(),
{
    if chunks.len() > 0 {
        let rest = chunks.drop_last();
        run_goes_on(model, rest);
        run_ids_are_distinct(model, rest);
        let a = run(model, rest);
        let messages = chunk_messages(a, chunks.last());
        down_keeps_ids_distinct(a.pending, messages, a.next_id);
        up_keeps_ids_distinct(a.pending, messages, a.next_id);
    }
}

/// No two events of a response that ends without a failure have the same ID.
pub proof fn event_ids_are_distinct(model: Seq<char>, chunks: Seq<ChunkView>)
    ensures
        ({
            let end = fed(run(model, chunks), StreamInputView::Ended);
            ids_are_distinct(end.pending, end.next_id)
        }),
{
    run_goes_on(model, chunks);
    run_ids_are_distinct(model, chunks);
    let a = run(model, chunks);
    down_keeps_ids_distinct(a.pending, closing_messages(a), a.next_id);
}

} // verus!
