//! Turns the chunks of an inference into server-sent events.
//!
//! The adapter performs no I/O. [`AnthropicStreamAdapter::poll`] says what to do
//! next, and [`AnthropicStreamAdapter::feed`] takes what the inference yielded.
use crate::inference::{ChunkView, ContentBlockChunkView, InferenceResponseChunk, no_usage};
use crate::outside::{text_of_uuid, uuid_text};
use crate::text::{joined, owned};
use crate::types::sse::{SseEvent, SseEventView, failure_event, failure_sse, sse_of};
use crate::types::stream_state::{
    AnthropicStreamState, StreamStateView, after_chunk, blocks_events, chunk_events, final_events,
    has_room, initial_state, message_start, noted, set_aside, state_ok, stop_event,
};
use crate::types::streaming::{AnthropicStreamMessage, AnthropicStreamUsage, EventView, blocks_of};
use vstd::prelude::*;

verus! {

// ---------------------------------------------------------------------------
// Model
// ---------------------------------------------------------------------------

/// What the inference yielded.
#[derive(Debug)]
pub enum StreamInput {
    Chunk(InferenceResponseChunk),
    /// The inference failed, with this message.
    Failed(String),
    Ended,
}

pub enum StreamInputView {
    Chunk(ChunkView),
    Failed(Seq<char>),
    Ended,
}

impl DeepView for StreamInput {
    type V = StreamInputView;

    open spec fn deep_view(&self) -> StreamInputView {
        match self {
            StreamInput::Chunk(chunk) => StreamInputView::Chunk(chunk.deep_view()),
            StreamInput::Failed(message) => StreamInputView::Failed(message@),
            StreamInput::Ended => StreamInputView::Ended,
        }
    }
}

/// What to do next.
#[derive(Debug)]
pub enum StreamAction {
    /// Send this event.
    Emit(SseEvent),
    /// Ask the inference for its next chunk.
    Pull,
    /// End the response.
    Finish,
}

pub enum StreamActionView {
    Emit(SseEventView),
    Pull,
    Finish,
}

impl DeepView for StreamAction {
    type V = StreamActionView;

    open spec fn deep_view(&self) -> StreamActionView {
        match self {
            StreamAction::Emit(event) => StreamActionView::Emit(event.deep_view()),
            StreamAction::Pull => StreamActionView::Pull,
            StreamAction::Finish => StreamActionView::Finish,
        }
    }
}

/// What the adapter remembers.
pub struct AdapterView {
    pub state: StreamStateView,
    pub inference_id: Seq<char>,
    pub model: Seq<char>,
    /// Whether no chunk has come yet.
    pub first: bool,
    /// The ID of the next event.
    pub next_id: nat,
    /// The events that wait to be sent.
    pub pending: Seq<SseEventView>,
    /// Whether the block of a JSON answer is open.
    pub json_open: bool,
    /// Whether the inference is over.
    pub finished: bool,
}

/// The adapter before the first chunk.
pub open spec fn initial_adapter(model: Seq<char>) -> AdapterView {
    AdapterView {
        state: initial_state(),
        inference_id: Seq::empty(),
        model,
        first: true,
        next_id: 0,
        pending: Seq::empty(),
        json_open: false,
        finished: false,
    }
}

/// Messages with IDs that count up.
pub open spec fn numbered_up(messages: Seq<EventView>, base: nat) -> Seq<SseEventView> {
    Seq::new(messages.len(), |k: int| sse_of(messages[k], (base + k) as nat))
}

/// Messages with IDs that count down to `base`.
pub open spec fn numbered_down(messages: Seq<EventView>, base: nat) -> Seq<SseEventView> {
    Seq::new(
        messages.len(),
        |k: int| sse_of(messages[k], (base + messages.len() - 1 - k) as nat),
    )
}

/// The inference ID of the message: that of the first chunk, if it is a chat
/// chunk.
pub open spec fn message_id(a: AdapterView, chunk: ChunkView) -> Seq<char> {
    match chunk {
        ChunkView::Chat { inference_id, .. } => if a.first && a.inference_id.len() == 0 {
            uuid_text(inference_id)
        } else {
            a.inference_id
        },
        ChunkView::Json { .. } => a.inference_id,
    }
}

/// The stop of the block that the state machine has open, if one is open.
pub open spec fn chat_stop(a: AdapterView) -> Seq<EventView> {
    if a.state.open_kind is Some {
        seq![stop_event(a.state)]
    } else {
        Seq::empty()
    }
}

/// The stop of the block of a JSON answer, if it is open.
pub open spec fn json_stop(a: AdapterView) -> Seq<EventView> {
    if a.json_open {
        seq![EventView::ContentBlockStop { index: 0, signature: None }]
    } else {
        Seq::empty()
    }
}

/// The messages of a piece of a JSON answer: one text block holds the answer. A
/// block of a chat answer that is open is stopped before it.
pub open spec fn json_messages(a: AdapterView, raw: Seq<char>) -> Seq<EventView> {
    let opening = if a.first {
        seq![message_start(a.inference_id, a.model, no_usage())]
    } else {
        Seq::empty()
    };
    let start = if a.json_open {
        Seq::empty()
    } else {
        seq![
            EventView::ContentBlockStart {
                index: 0,
                content_type: "text"@,
                id: a.inference_id + "-text-0"@,
                thinking: None,
                signature: None,
                name: None,
            },
        ]
    };
    opening + chat_stop(a) + start + seq![
        EventView::ContentBlockDelta {
            index: 0,
            delta_type: "text_delta"@,
            text: Some(raw),
            tool_use_id: None,
            name: None,
            input: None,
        },
    ]
}

/// Whether a chunk ends the block of a JSON answer: it has content blocks of its own.
pub open spec fn leaves_json(a: AdapterView, chunk: ChunkView) -> bool {
    a.json_open && blocks_of(chunk).len() > 0
}

/// The messages of a chunk.
pub open spec fn chunk_messages(a: AdapterView, chunk: ChunkView) -> Seq<EventView> {
    match chunk {
        ChunkView::Chat { .. } => {
            let stop = if leaves_json(a, chunk) {
                json_stop(a)
            } else {
                Seq::empty()
            };
            stop + chunk_events(a.state, chunk, message_id(a, chunk), a.model)
        },
        ChunkView::Json { raw, .. } => json_messages(a, raw),
    }
}

/// The messages that end the response: the stop of each open block, and the end
/// of the message.
pub open spec fn closing_messages(a: AdapterView) -> Seq<EventView> {
    chat_stop(a) + json_stop(a) + final_events(a.state)
}

/// The adapter after a chunk.
pub open spec fn with_chunk(a: AdapterView, chunk: ChunkView) -> AdapterView {
    let messages = chunk_messages(a, chunk);
    match chunk {
        ChunkView::Chat { .. } => AdapterView {
            state: after_chunk(a.state, chunk),
            inference_id: message_id(a, chunk),
            first: false,
            next_id: a.next_id + messages.len(),
            pending: a.pending + numbered_down(messages, a.next_id),
            json_open: a.json_open && !leaves_json(a, chunk),
            ..a
        },
        ChunkView::Json { .. } => AdapterView {
            state: set_aside(a.state, chunk),
            first: false,
            next_id: a.next_id + messages.len(),
            pending: a.pending + numbered_up(messages, a.next_id),
            json_open: true,
            ..a
        },
    }
}

/// The adapter once the inference is over.
pub open spec fn closed(a: AdapterView) -> AdapterView {
    let messages = closing_messages(a);
    AdapterView {
        next_id: a.next_id + messages.len(),
        pending: a.pending + numbered_down(messages, a.next_id),
        finished: true,
        ..a
    }
}

/// The adapter after what the inference yielded. A failure is reported in an
/// event of its own, and ends the response. What comes after the end of the
/// inference is ignored.
pub open spec fn fed(a: AdapterView, input: StreamInputView) -> AdapterView {
    if a.finished {
        a
    } else {
        match input {
            StreamInputView::Chunk(chunk) => with_chunk(a, chunk),
            StreamInputView::Failed(message) => closed(
                AdapterView { pending: a.pending.push(failure_sse(message, a.next_id)), ..a },
            ),
            StreamInputView::Ended => closed(a),
        }
    }
}

/// Whether the counters can take in what the inference yielded.
pub open spec fn can_take(a: AdapterView, input: StreamInputView) -> bool {
    match input {
        StreamInputView::Chunk(chunk) => has_room(a.state, chunk) && a.next_id + 3 * blocks_of(
            chunk,
        ).len() + 4 <= usize::MAX,
        _ => a.next_id + 4 <= usize::MAX,
    }
}

/// Each piece of a content block has at most three events.
proof fn few_events(s: StreamStateView, blocks: Seq<ContentBlockChunkView>)
    ensures
        blocks_events(s, blocks).len() <= 3 * blocks.len(),
    decreases blocks.len(),
{
    if blocks.len() > 0 {
        few_events(s, blocks.drop_last());
    }
}

// ---------------------------------------------------------------------------
// Adapter
// ---------------------------------------------------------------------------

/// A stateful adapter from chunks to server-sent events.
#[derive(Debug)]
pub struct AnthropicStreamAdapter {
    state: AnthropicStreamState,
    inference_id_str: String,
    model: String,
    is_first_chunk: bool,
    event_id: usize,
    buffer: Vec<SseEvent>,
    json_block_open: bool,
    finalized: bool,
}

impl View for AnthropicStreamAdapter {
    type V = AdapterView;

    closed spec fn view(&self) -> AdapterView {
        AdapterView {
            state: self.state@,
            inference_id: self.inference_id_str@,
            model: self.model@,
            first: self.is_first_chunk,
            next_id: self.event_id as nat,
            pending: self.buffer.deep_view(),
            json_open: self.json_block_open,
            finished: self.finalized,
        }
    }
}

/// An adapter for the chunks of an inference.
pub fn convert_to_anthropic_stream(model: String) -> (r: AnthropicStreamAdapter)
    ensures
        r@ == initial_adapter(model@),
        state_ok(r@.state),
{
    let r: AnthropicStreamAdapter = AnthropicStreamAdapter {
        state: AnthropicStreamState::default(),
        inference_id_str: String::new(),
        model,
        is_first_chunk: true,
        event_id: 0,
        buffer: Vec::new(),
        json_block_open: false,
        finalized: false,
    };
    assert(r@.pending =~= Seq::empty());
    assert(r@.inference_id =~= Seq::empty());
    r
}

impl AnthropicStreamAdapter {
    /// Says what to do next. Events that wait are sent first; once they are out,
    /// the next chunk is asked for, until the inference is over.
    pub fn poll(&mut self) -> (r: StreamAction)
        ensures
            if old(self)@.pending.len() > 0 {
                &&& r.deep_view() == StreamActionView::Emit(old(self)@.pending[0])
                &&& final(self)@ == (AdapterView {
                    pending: old(self)@.pending.skip(1),
                    ..old(self)@
                })
            } else {
                &&& final(self)@ == old(self)@
                &&& r.deep_view() == if old(self)@.finished {
                    StreamActionView::Finish
                } else {
                    StreamActionView::Pull
                }
            },
    {
        if self.buffer.len() > 0 {
            let event: SseEvent = self.buffer.remove(0);
            assert(self.buffer.deep_view() =~= old(self)@.pending.skip(1));
            StreamAction::Emit(event)
        } else if self.finalized {
            StreamAction::Finish
        } else {
            StreamAction::Pull
        }
    }

    /// Queues messages with IDs that count up.
    fn queue_up(&mut self, messages: Vec<AnthropicStreamMessage>)
        requires
            old(self)@.next_id + messages@.len() <= usize::MAX,
        ensures
            final(self)@ == (AdapterView {
                next_id: old(self)@.next_id + messages@.len(),
                pending: old(self)@.pending + numbered_up(
                    messages.deep_view(),
                    old(self)@.next_id,
                ),
                ..old(self)@
            }),
    {
        let ghost all = numbered_up(messages.deep_view(), self@.next_id);
        let base: usize = self.event_id;
        let n: usize = messages.len();
        for i in 0..n
            invariant
                n == messages@.len(),
                base == old(self)@.next_id,
                base + n <= usize::MAX,
                all == numbered_up(messages.deep_view(), base as nat),
                self@ == (AdapterView {
                    pending: old(self)@.pending + all.take(i as int),
                    ..old(self)@
                }),
        {
            let ghost before = self.buffer.deep_view();
            let event: SseEvent = messages[i].to_sse_event(base + i);
            assert(event.deep_view() == all[i as int]);
            self.buffer.push(event);
            assert(self.buffer.deep_view() =~= before.push(all[i as int]));
            assert(all.take(i + 1) =~= all.take(i as int).push(all[i as int]));
        }
        self.event_id = base + n;
        assert(all.take(n as int) =~= all);
    }

    /// Queues messages with IDs that count down.
    fn queue_down(&mut self, messages: Vec<AnthropicStreamMessage>)
        requires
            old(self)@.next_id + messages@.len() <= usize::MAX,
        ensures
            final(self)@ == (AdapterView {
                next_id: old(self)@.next_id + messages@.len(),
                pending: old(self)@.pending + numbered_down(
                    messages.deep_view(),
                    old(self)@.next_id,
                ),
                ..old(self)@
            }),
    {
        let ghost all = numbered_down(messages.deep_view(), self@.next_id);
        let base: usize = self.event_id;
        let n: usize = messages.len();
        for i in 0..n
            invariant
                n == messages@.len(),
                base == old(self)@.next_id,
                base + n <= usize::MAX,
                all == numbered_down(messages.deep_view(), base as nat),
                self@ == (AdapterView {
                    pending: old(self)@.pending + all.take(i as int),
                    ..old(self)@
                }),
        {
            let ghost before = self.buffer.deep_view();
            let event: SseEvent = messages[i].to_sse_event(base + (n - 1 - i));
            assert(event.deep_view() == all[i as int]);
            self.buffer.push(event);
            assert(self.buffer.deep_view() =~= before.push(all[i as int]));
            assert(all.take(i + 1) =~= all.take(i as int).push(all[i as int]));
        }
        self.event_id = base + n;
        assert(all.take(n as int) =~= all);
    }

    /// The messages of a piece of a JSON answer.
    fn json_chunk_messages(&self, raw: &str) -> (messages: Vec<AnthropicStreamMessage>)
        ensures
            messages.deep_view() == json_messages(self@, raw@),
    {
        let mut messages: Vec<AnthropicStreamMessage> = Vec::new();
        if self.is_first_chunk {
            messages.push(
                AnthropicStreamMessage::MessageStart {
                    id: joined("msg_", self.inference_id_str.as_str()),
                    response_type: owned("message"),
                    model: self.model.clone(),
                    stop_sequence: None,
                    usage: AnthropicStreamUsage::default(),
                },
            );
        }
        if let Some(stop) = self.state.open_block_stop() {
            messages.push(stop);
        }
        if !self.json_block_open {
            messages.push(
                AnthropicStreamMessage::ContentBlockStart {
                    index: 0,
                    content_type: owned("text"),
                    id: joined(self.inference_id_str.as_str(), "-text-0"),
                    thinking: None,
                    signature: None,
                    name: None,
                },
            );
        }
        messages.push(
            AnthropicStreamMessage::ContentBlockDelta {
                index: 0,
                delta_type: owned("text_delta"),
                text: Some(owned(raw)),
                tool_use_id: None,
                name: None,
                input: None,
            },
        );
        assert(messages.deep_view() =~= json_messages(self@, raw@));
        messages
    }

    fn take_chunk(&mut self, chunk: &InferenceResponseChunk)
        requires
            state_ok(old(self)@.state),
            can_take(old(self)@, StreamInputView::Chunk(chunk.deep_view())),
        ensures
            final(self)@ == with_chunk(old(self)@, chunk.deep_view()),
            state_ok(final(self)@.state),
    {
        match chunk {
            InferenceResponseChunk::Chat(chat) => {
                if self.is_first_chunk && self.inference_id_str.as_str().is_empty() {
                    self.inference_id_str = text_of_uuid(chat.inference_id);
                }
                self.is_first_chunk = false;
                proof {
                    few_events(
                        noted(old(self)@.state, chunk.deep_view()),
                        blocks_of(chunk.deep_view()),
                    );
                }
                let mut messages: Vec<AnthropicStreamMessage> = Vec::new();
                if self.json_block_open && chunk.content_blocks().len() > 0 {
                    messages.push(AnthropicStreamMessage::ContentBlockStop { index: 0, signature: None });
                    self.json_block_open = false;
                }
                let ghost stop = messages.deep_view();
                let mut events: Vec<AnthropicStreamMessage> = self.state.process_chunk(
                    chunk,
                    self.inference_id_str.as_str(),
                    self.model.as_str(),
                );
                let ghost added = events.deep_view();
                messages.append(&mut events);
                assert(messages.deep_view() =~= stop + added);
                assert(messages.deep_view() =~= chunk_messages(old(self)@, chunk.deep_view()));
                assert(messages.deep_view().len() == messages@.len());
                self.queue_down(messages);
            },
            InferenceResponseChunk::Json(json) => {
                let messages: Vec<AnthropicStreamMessage> = self.json_chunk_messages(
                    json.raw.as_str(),
                );
                assert(messages.deep_view().len() == messages@.len());
                self.is_first_chunk = false;
                self.json_block_open = true;
                self.state.set_aside(chunk);
                self.queue_up(messages);
            },
        }
    }

    /// Queues the end of the response.
    fn close(&mut self)
        requires
            old(self)@.next_id + 4 <= usize::MAX,
        ensures
            final(self)@ == closed(old(self)@),
    {
        let mut messages: Vec<AnthropicStreamMessage> = Vec::new();
        if let Some(stop) = self.state.open_block_stop() {
            messages.push(stop);
        }
        if self.json_block_open {
            messages.push(AnthropicStreamMessage::ContentBlockStop { index: 0, signature: None });
        }
        let ghost stops = messages.deep_view();
        let mut end: Vec<AnthropicStreamMessage> = self.state.closing_events();
        let ghost last = end.deep_view();
        messages.append(&mut end);
        assert(messages.deep_view() =~= stops + last);
        assert(messages.deep_view() =~= closing_messages(self@));
        assert(messages.deep_view().len() == messages@.len());
        self.finalized = true;
        self.queue_down(messages);
    }

    /// Takes what the inference yielded.
    pub fn feed(&mut self, input: &StreamInput)
        requires
            state_ok(old(self)@.state),
            can_take(old(self)@, input.deep_view()),
        ensures
            final(self)@ == fed(old(self)@, input.deep_view()),
            state_ok(final(self)@.state),
    {
        if self.finalized {
            return ;
        }
        match input {
            StreamInput::Chunk(chunk) => self.take_chunk(chunk),
            StreamInput::Failed(message) => {
                let event: SseEvent = failure_event(message.as_str(), self.event_id);
                self.buffer.push(event);
                assert(self.buffer.deep_view() =~= old(self)@.pending.push(event.deep_view()));
                self.close();
            },
            StreamInput::Ended => self.close(),
        }
    }

    /// Whether the counters can take in what the inference yielded.
    pub fn can_feed(&self, input: &StreamInput) -> (r: bool)
        ensures
            r == can_take(self@, input.deep_view()),
    {
        let room: usize = usize::MAX - self.event_id;
        match input {
            StreamInput::Chunk(chunk) => {
                let blocks: usize = chunk.content_blocks().len();
                self.state.can_process(chunk) && 4 <= room && blocks <= (room - 4) / 3
            },
            _ => 4 <= room,
        }
    }
}

} // verus!
