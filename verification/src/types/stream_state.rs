//! The state machine that restructures a flat stream of chunks into blocks.
use crate::inference::{
    ChunkView, ContentBlockChunk, ContentBlockChunkView, FinishReason, InferenceResponseChunk,
    Usage, no_usage,
};
use crate::model::or_else;
use crate::provider::stop_reason_of;
use crate::text::{decimal, joined, numeral, owned, same_text};
use crate::types::streaming::{
    AnthropicStreamMessage, AnthropicStreamUsage, BlockKind, EventView, accumulate_usage,
    added_usage, blocks_of, extract_text, extract_thought_fields, extract_toolcall_fields,
    extract_unknown_data, finish_of, finish_reason_to_anthropic_stop_reason, kind_of, stream_usage,
    text_of, thought_of, tool_call_of, unknown_of, usage_can_grow, usage_fits, usage_of,
};
use vstd::prelude::*;

verus! {

// ---------------------------------------------------------------------------
// Model
// ---------------------------------------------------------------------------

/// What the state machine remembers.
pub struct StreamStateView {
    /// The kind of the open block.
    pub open_kind: Option<BlockKind>,
    /// The index of the block that was opened last.
    pub index: nat,
    /// The key of the block that was opened last.
    pub key: Option<Seq<char>>,
    /// The block index of each tool call.
    pub tool_indices: Map<Seq<char>, nat>,
    /// How many block indices were handed out.
    pub total_blocks: nat,
    /// How many blocks were opened.
    pub block_ids: nat,
    pub usage: Usage,
    pub thinking_signature: Option<Seq<char>>,
    pub finish_reason: Option<FinishReason>,
    pub started: bool,
}

/// The state before the first chunk.
pub open spec fn initial_state() -> StreamStateView {
    StreamStateView {
        open_kind: None,
        index: 0,
        key: None,
        tool_indices: Map::empty(),
        total_blocks: 0,
        block_ids: 0,
        usage: no_usage(),
        thinking_signature: None,
        finish_reason: None,
        started: false,
    }
}

/// The key of a tool call's block.
pub open spec fn tool_key(id: Seq<char>) -> Seq<char> {
    "tool_"@ + id
}

/// The key of the block that a chunk belongs to.
pub open spec fn key_of(chunk: ContentBlockChunkView) -> Option<Seq<char>> {
    match chunk {
        ContentBlockChunkView::ToolCall { id, .. } => Some(tool_key(id)),
        _ => None,
    }
}

/// The invariant of the state machine.
pub open spec fn state_ok(s: StreamStateView) -> bool {
    &&& s.total_blocks <= s.block_ids
    &&& s.open_kind is Some ==> s.index < s.total_blocks
    &&& s.open_kind == Some(BlockKind::ToolCall) ==> s.key is Some
    &&& s.open_kind == Some(BlockKind::ToolCall) ==> forall|id: Seq<char>|
        s.key == Some(#[trigger] tool_key(id)) ==> s.tool_indices.contains_key(id)
            && s.tool_indices[id] == s.index
    &&& forall|id: Seq<char>| #[trigger]
        s.tool_indices.contains_key(id) ==> s.tool_indices[id] < s.total_blocks
    &&& forall|a: Seq<char>, b: Seq<char>|
        #![trigger s.tool_indices.contains_key(a), s.tool_indices.contains_key(b)]
        s.tool_indices.contains_key(a) && s.tool_indices.contains_key(b) && s.tool_indices[a]
            == s.tool_indices[b] ==> a == b
}

/// Whether a chunk ends the open block: it is of another kind, or belongs to
/// another tool call.
pub open spec fn leaves_block(s: StreamStateView, chunk: ContentBlockChunkView) -> bool {
    match s.open_kind {
        Some(kind) => kind != kind_of(chunk) || match (key_of(chunk), s.key) {
            (Some(new_key), Some(key)) => new_key != key,
            _ => false,
        },
        None => false,
    }
}

/// The event that stops the open block. That of a thinking block carries the last
/// signature of the thought.
pub open spec fn stop_event(s: StreamStateView) -> EventView {
    EventView::ContentBlockStop {
        index: s.index,
        signature: if s.open_kind == Some(BlockKind::Thinking) {
            s.thinking_signature
        } else {
            None
        },
    }
}

/// Whether a chunk opens a block.
pub open spec fn opens_block(s: StreamStateView, chunk: ContentBlockChunkView) -> bool {
    s.open_kind is None || leaves_block(s, chunk)
}

/// The index of the block that a chunk opens: a tool call keeps the index that
/// it had, any other block gets the next one.
pub open spec fn index_to_open(s: StreamStateView, chunk: ContentBlockChunkView) -> nat {
    match chunk {
        ContentBlockChunkView::ToolCall { id, .. } => if s.tool_indices.contains_key(id) {
            s.tool_indices[id]
        } else {
            s.total_blocks
        },
        _ => s.total_blocks,
    }
}

/// The state after a chunk has opened its block.
pub open spec fn opened(s: StreamStateView, chunk: ContentBlockChunkView) -> StreamStateView {
    let index = index_to_open(s, chunk);
    StreamStateView {
        open_kind: Some(kind_of(chunk)),
        index,
        key: key_of(chunk),
        tool_indices: match chunk {
            ContentBlockChunkView::ToolCall { id, .. } => s.tool_indices.insert(id, index),
            _ => s.tool_indices,
        },
        total_blocks: if index == s.total_blocks {
            s.total_blocks + 1
        } else {
            s.total_blocks
        },
        block_ids: s.block_ids + 1,
        thinking_signature: match chunk {
            ContentBlockChunkView::Thought { .. } => thought_of(chunk).1,
            _ => s.thinking_signature,
        },
        ..s
    }
}

/// The event that opens the block of a chunk.
pub open spec fn start_event(s: StreamStateView, chunk: ContentBlockChunkView) -> EventView {
    EventView::ContentBlockStart {
        index: index_to_open(s, chunk),
        content_type: match kind_of(chunk) {
            BlockKind::Text => "text"@,
            BlockKind::ToolCall => "tool_use"@,
            BlockKind::Thinking => "thinking"@,
            BlockKind::RedactedThinking => "redacted_thinking"@,
        },
        id: "block_"@ + numeral(s.block_ids),
        thinking: match kind_of(chunk) {
            BlockKind::Thinking => thought_of(chunk).0,
            BlockKind::RedactedThinking => Some(unknown_of(chunk)),
            _ => None,
        },
        signature: thought_of(chunk).1,
        name: match kind_of(chunk) {
            BlockKind::ToolCall => Some(tool_call_of(chunk).1),
            _ => None,
        },
    }
}

/// The event that carries what a chunk adds to its block.
pub open spec fn delta_event(index: nat, chunk: ContentBlockChunkView) -> EventView {
    EventView::ContentBlockDelta {
        index,
        delta_type: match kind_of(chunk) {
            BlockKind::Text => "text_delta"@,
            BlockKind::ToolCall => "input_json_delta"@,
            BlockKind::Thinking => "thinking_delta"@,
            BlockKind::RedactedThinking => "thinking_delta"@,
        },
        text: match kind_of(chunk) {
            BlockKind::Text => text_of(chunk),
            BlockKind::ToolCall => None,
            BlockKind::Thinking => thought_of(chunk).0,
            BlockKind::RedactedThinking => Some(unknown_of(chunk)),
        },
        tool_use_id: None,
        name: match kind_of(chunk) {
            BlockKind::ToolCall => Some(tool_call_of(chunk).1),
            _ => None,
        },
        input: tool_call_of(chunk).2,
    }
}

/// The state after a chunk of a content block.
pub open spec fn after_block(s: StreamStateView, chunk: ContentBlockChunkView) -> StreamStateView {
    let open = if opens_block(s, chunk) {
        opened(s, chunk)
    } else {
        s
    };
    StreamStateView {
        thinking_signature: or_else(thought_of(chunk).1, open.thinking_signature),
        ..open
    }
}

/// The events of a chunk of a content block: the stop of the block that it
/// leaves, the start of the block that it opens, and its delta.
pub open spec fn block_events(s: StreamStateView, chunk: ContentBlockChunkView) -> Seq<EventView> {
    let stop = if leaves_block(s, chunk) {
        seq![stop_event(s)]
    } else {
        Seq::empty()
    };
    let start = if opens_block(s, chunk) {
        seq![start_event(s, chunk)]
    } else {
        Seq::empty()
    };
    stop + start + seq![delta_event(after_block(s, chunk).index, chunk)]
}

/// The state after some chunks of content blocks.
pub open spec fn after_blocks(
    s: StreamStateView,
    blocks: Seq<ContentBlockChunkView>,
) -> StreamStateView
    decreases blocks.len(),
{
    if blocks.len() == 0 {
        s
    } else {
        after_block(after_blocks(s, blocks.drop_last()), blocks.last())
    }
}

/// The events of some chunks of content blocks.
pub open spec fn blocks_events(
    s: StreamStateView,
    blocks: Seq<ContentBlockChunkView>,
) -> Seq<EventView>
    decreases blocks.len(),
{
    if blocks.len() == 0 {
        Seq::empty()
    } else {
        blocks_events(s, blocks.drop_last()) + block_events(
            after_blocks(s, blocks.drop_last()),
            blocks.last(),
        )
    }
}

/// The state once the usage and the finish reason of a chunk are noted.
pub open spec fn reported(s: StreamStateView, chunk: ChunkView) -> StreamStateView {
    StreamStateView {
        usage: match usage_of(chunk) {
            Some(usage) => added_usage(s.usage, usage),
            None => s.usage,
        },
        finish_reason: or_else(finish_of(chunk), s.finish_reason),
        ..s
    }
}

/// The state after a chunk that has no content blocks of its own: the message has
/// begun, and no block is open.
pub open spec fn set_aside(s: StreamStateView, chunk: ChunkView) -> StreamStateView {
    StreamStateView { open_kind: None, started: true, ..reported(s, chunk) }
}

/// The state before the content blocks of a chunk.
pub open spec fn noted(s: StreamStateView, chunk: ChunkView) -> StreamStateView {
    StreamStateView { started: true, ..reported(s, chunk) }
}

/// The state after a chunk.
pub open spec fn after_chunk(s: StreamStateView, chunk: ChunkView) -> StreamStateView {
    after_blocks(noted(s, chunk), blocks_of(chunk))
}

/// The event that opens a message.
pub open spec fn message_start(
    inference_id: Seq<char>,
    model: Seq<char>,
    usage: Usage,
) -> EventView {
    EventView::MessageStart {
        id: "msg_"@ + inference_id,
        response_type: "message"@,
        model,
        stop_sequence: None,
        usage: stream_usage(usage),
    }
}

/// The events of a chunk: the start of the message before anything else, and
/// the events of its content blocks.
pub open spec fn chunk_events(
    s: StreamStateView,
    chunk: ChunkView,
    inference_id: Seq<char>,
    model: Seq<char>,
) -> Seq<EventView> {
    let start = if s.started {
        Seq::empty()
    } else {
        seq![message_start(inference_id, model, noted(s, chunk).usage)]
    };
    start + blocks_events(noted(s, chunk), blocks_of(chunk))
}

/// The events that end a message.
pub open spec fn final_events(s: StreamStateView) -> Seq<EventView> {
    seq![
        EventView::MessageDelta {
            delta_type: "message_delta"@,
            stop_reason: stop_reason_of(s.finish_reason),
            stop_sequence: None,
            usage: stream_usage(s.usage),
        },
        EventView::MessageStop,
    ]
}

/// Whether the counters can take in a chunk.
pub open spec fn has_room(s: StreamStateView, chunk: ChunkView) -> bool {
    &&& match usage_of(chunk) {
        Some(usage) => usage_fits(s.usage, usage),
        None => true,
    }
    &&& s.block_ids + blocks_of(chunk).len() <= usize::MAX
}

// ---------------------------------------------------------------------------
// State machine
// ---------------------------------------------------------------------------

/// A tool call and the index of its block.
#[derive(Debug)]
struct ToolBlock {
    id: String,
    index: usize,
}

impl DeepView for ToolBlock {
    type V = (Seq<char>, nat);

    closed spec fn deep_view(&self) -> (Seq<char>, nat) {
        (self.id@, self.index as nat)
    }
}

spec fn index_map(tools: Seq<(Seq<char>, nat)>) -> Map<Seq<char>, nat>
    decreases tools.len(),
{
    if tools.len() == 0 {
        Map::empty()
    } else {
        index_map(tools.drop_last()).insert(tools.last().0, tools.last().1)
    }
}

/// State machine that restructures flat chunk streams into block-oriented events.
#[derive(Debug)]
pub struct AnthropicStreamState {
    /// The kind of the open block, if one is open.
    current_block_kind: Option<BlockKind>,
    /// The index of the current block.
    current_block_index: usize,
    /// The key of the current block: only the block of a tool call has one.
    current_block_key: Option<String>,
    tool_id_to_index: Vec<ToolBlock>,
    total_blocks: usize,
    block_id_counter: usize,
    aggregated_usage: Usage,
    thinking_signature: Option<String>,
    last_finish_reason: Option<FinishReason>,
    started: bool,
}

impl View for AnthropicStreamState {
    type V = StreamStateView;

    closed spec fn view(&self) -> StreamStateView {
        StreamStateView {
            open_kind: self.current_block_kind,
            index: self.current_block_index as nat,
            key: self.current_block_key.deep_view(),
            tool_indices: index_map(self.tool_id_to_index.deep_view()),
            total_blocks: self.total_blocks as nat,
            block_ids: self.block_id_counter as nat,
            usage: self.aggregated_usage,
            thinking_signature: self.thinking_signature.deep_view(),
            finish_reason: self.last_finish_reason,
            started: self.started,
        }
    }
}

impl Default for AnthropicStreamState {
    fn default() -> (r: AnthropicStreamState)
        ensures
            r@ == initial_state(),
            state_ok(r@),
    {
        let r: AnthropicStreamState = AnthropicStreamState {
            current_block_kind: None,
            current_block_index: 0,
            current_block_key: None,
            tool_id_to_index: Vec::new(),
            total_blocks: 0,
            block_id_counter: 0,
            aggregated_usage: Usage::default(),
            thinking_signature: None,
            last_finish_reason: None,
            started: false,
        };
        assert(r@.tool_indices =~= Map::empty());
        r
    }
}

fn same_key(a: &Option<String>, b: &Option<String>) -> (r: bool)
    ensures
        r == (match (a.deep_view(), b.deep_view()) {
            (Some(x), Some(y)) => x == y,
            _ => true,
        }),
{
    match (a, b) {
        (Some(x), Some(y)) => same_text(x.as_str(), y.as_str()),
        _ => true,
    }
}

impl AnthropicStreamState {
    /// The key of the block that a chunk belongs to. Each tool call has a block
    /// of its own; of the other kinds, one block is open at a time.
    fn block_key_for_chunk(chunk: &ContentBlockChunk) -> (r: Option<String>)
        ensures
            r.deep_view() == key_of(chunk.deep_view()),
    {
        match chunk {
            ContentBlockChunk::ToolCall(t) => Some(joined("tool_", t.id.as_str())),
            _ => None,
        }
    }

    /// The block index of a tool call.
    fn index_of_tool(&self, id: &str) -> (r: Option<usize>)
        ensures
            match r {
                Some(index) => self@.tool_indices.contains_key(id@) && self@.tool_indices[id@]
                    == index,
                None => !self@.tool_indices.contains_key(id@),
            },
    {
        let ghost tools = self.tool_id_to_index.deep_view();
        let mut i: usize = self.tool_id_to_index.len();
        assert(tools.take(i as int) =~= tools);
        while i > 0
            invariant
                tools == self.tool_id_to_index.deep_view(),
                i <= tools.len(),
                index_map(tools.take(i as int)).contains_key(id@) == index_map(tools).contains_key(
                    id@,
                ),
                index_map(tools).contains_key(id@) ==> index_map(tools.take(i as int))[id@]
                    == index_map(tools)[id@],
            decreases i,
        {
            i = i - 1;
            let ghost shorter = tools.take(i as int);
            let ghost longer = tools.take(i + 1);
            assert(longer.drop_last() =~= shorter);
            let tool: &ToolBlock = &self.tool_id_to_index[i];
            assert(longer.last() == tool.deep_view());
            if same_text(tool.id.as_str(), id) {
                return Some(tool.index);
            }
        }
        None
    }

    fn stop_message(&self, kind: BlockKind) -> (r: AnthropicStreamMessage)
        requires
            self@.open_kind == Some(kind),
        ensures
            r.deep_view() == stop_event(self@),
    {
        let signature: Option<String> = match kind {
            BlockKind::Thinking => self.thinking_signature.clone(),
            _ => None,
        };
        AnthropicStreamMessage::ContentBlockStop { index: self.current_block_index, signature }
    }

    /// Ends the open block, if a chunk leaves it.
    fn leave_block(&mut self, chunk: &ContentBlockChunk, events: &mut Vec<AnthropicStreamMessage>)
        ensures
            final(self)@ == (StreamStateView {
                open_kind: if leaves_block(old(self)@, chunk.deep_view()) {
                    None
                } else {
                    old(self)@.open_kind
                },
                ..old(self)@
            }),
            final(events).deep_view() == old(events).deep_view() + if leaves_block(
                old(self)@,
                chunk.deep_view(),
            ) {
                seq![stop_event(old(self)@)]
            } else {
                Seq::empty()
            },
    {
        let ghost before = events.deep_view();
        let new_key: Option<String> = Self::block_key_for_chunk(chunk);
        let key_mismatch: bool = !same_key(&new_key, &self.current_block_key);
        if let Some(kind) = self.current_block_kind {
            if BlockKind::from_chunk(chunk) != kind || key_mismatch {
                events.push(self.stop_message(kind));
                self.current_block_kind = None;
                assert(events.deep_view() =~= before + seq![stop_event(old(self)@)]);
                return ;
            }
        }
        assert(before + Seq::empty() =~= before);
    }

    /// Hands out the block index of a tool call.
    fn claim_tool_index(&mut self, id: &str) -> (index: usize)
        requires
            old(self)@.total_blocks < usize::MAX,
        ensures
            index == (if old(self)@.tool_indices.contains_key(id@) {
                old(self)@.tool_indices[id@]
            } else {
                old(self)@.total_blocks
            }),
            final(self)@ == (StreamStateView {
                tool_indices: old(self)@.tool_indices.insert(id@, index as nat),
                total_blocks: if old(self)@.tool_indices.contains_key(id@) {
                    old(self)@.total_blocks
                } else {
                    old(self)@.total_blocks + 1
                },
                ..old(self)@
            }),
    {
        match self.index_of_tool(id) {
            Some(index) => {
                assert(self@.tool_indices.insert(id@, index as nat) =~= self@.tool_indices);
                index
            },
            None => {
                let index: usize = self.total_blocks;
                let ghost before = self.tool_id_to_index.deep_view();
                self.total_blocks = self.total_blocks + 1;
                self.tool_id_to_index.push(ToolBlock { id: owned(id), index });
                assert(self.tool_id_to_index.deep_view().drop_last() =~= before);
                index
            },
        }
    }

    /// Hands out the next block index.
    fn claim_index(&mut self) -> (index: usize)
        requires
            old(self)@.total_blocks < usize::MAX,
        ensures
            index == old(self)@.total_blocks,
            final(self)@ == (StreamStateView {
                total_blocks: old(self)@.total_blocks + 1,
                ..old(self)@
            }),
    {
        let index: usize = self.total_blocks;
        self.total_blocks = self.total_blocks + 1;
        index
    }

    /// Opens the block of a chunk.
    fn open_block(&mut self, chunk: &ContentBlockChunk) -> (r: AnthropicStreamMessage)
        requires
            state_ok(old(self)@),
            old(self)@.block_ids < usize::MAX,
        ensures
            final(self)@ == opened(old(self)@, chunk.deep_view()),
            r.deep_view() == start_event(old(self)@, chunk.deep_view()),
    {
        let ghost before = self@;
        let id: String = joined("block_", decimal(self.block_id_counter).as_str());
        let index: usize = match chunk {
            ContentBlockChunk::ToolCall(t) => self.claim_tool_index(t.id.as_str()),
            _ => self.claim_index(),
        };
        self.block_id_counter = self.block_id_counter + 1;
        self.current_block_key = Self::block_key_for_chunk(chunk);
        self.current_block_index = index;
        self.current_block_kind = Some(BlockKind::from_chunk(chunk));
        match chunk {
            ContentBlockChunk::Thought(_) => {
                let (thinking, signature) = extract_thought_fields(chunk);
                self.thinking_signature = signature.clone();
                assert(self@ == opened(before, chunk.deep_view()));
                AnthropicStreamMessage::ContentBlockStart {
                    index,
                    content_type: owned("thinking"),
                    id,
                    thinking,
                    signature,
                    name: None,
                }
            },
            ContentBlockChunk::Unknown(_) => AnthropicStreamMessage::ContentBlockStart {
                index,
                content_type: owned("redacted_thinking"),
                id,
                thinking: Some(extract_unknown_data(chunk)),
                signature: None,
                name: None,
            },
            ContentBlockChunk::Text(_) => AnthropicStreamMessage::ContentBlockStart {
                index,
                content_type: owned("text"),
                id,
                thinking: None,
                signature: None,
                name: None,
            },
            ContentBlockChunk::ToolCall(_) => {
                let (_, name, _) = extract_toolcall_fields(chunk);
                AnthropicStreamMessage::ContentBlockStart {
                    index,
                    content_type: owned("tool_use"),
                    id,
                    thinking: None,
                    signature: None,
                    name: Some(name),
                }
            },
        }
    }

    /// The event that carries what a chunk adds to the open block.
    fn add_to_block(&mut self, chunk: &ContentBlockChunk) -> (r: AnthropicStreamMessage)
        ensures
            final(self)@ == (StreamStateView {
                thinking_signature: or_else(
                    thought_of(chunk.deep_view()).1,
                    old(self)@.thinking_signature,
                ),
                ..old(self)@
            }),
            r.deep_view() == delta_event(old(self)@.index, chunk.deep_view()),
    {
        let index: usize = self.current_block_index;
        match chunk {
            ContentBlockChunk::Thought(_) => {
                let (thinking, signature) = extract_thought_fields(chunk);
                if signature.is_some() {
                    self.thinking_signature = signature;
                }
                AnthropicStreamMessage::ContentBlockDelta {
                    index,
                    delta_type: owned("thinking_delta"),
                    text: thinking,
                    tool_use_id: None,
                    name: None,
                    input: None,
                }
            },
            ContentBlockChunk::Unknown(_) => AnthropicStreamMessage::ContentBlockDelta {
                index,
                delta_type: owned("thinking_delta"),
                text: Some(extract_unknown_data(chunk)),
                tool_use_id: None,
                name: None,
                input: None,
            },
            ContentBlockChunk::Text(_) => AnthropicStreamMessage::ContentBlockDelta {
                index,
                delta_type: owned("text_delta"),
                text: extract_text(chunk),
                tool_use_id: None,
                name: None,
                input: None,
            },
            ContentBlockChunk::ToolCall(_) => {
                let (_, name, input) = extract_toolcall_fields(chunk);
                AnthropicStreamMessage::ContentBlockDelta {
                    index,
                    delta_type: owned("input_json_delta"),
                    text: None,
                    tool_use_id: None,
                    name: Some(name),
                    input,
                }
            },
        }
    }

    /// Whether one more block can be opened.
    pub fn can_open_block(&self) -> (r: bool)
        ensures
            r == (self@.block_ids < usize::MAX),
    {
        self.block_id_counter < usize::MAX
    }

    /// Sees to it that the block of a chunk is open, and adds the chunk to it.
    pub fn ensure_block(&mut self, chunk: &ContentBlockChunk) -> (events: Vec<AnthropicStreamMessage>)
        requires
            state_ok(old(self)@),
            old(self)@.block_ids < usize::MAX,
        ensures
            final(self)@ == after_block(old(self)@, chunk.deep_view()),
            state_ok(final(self)@),
            events.deep_view() == block_events(old(self)@, chunk.deep_view()),
    {
        proof {
            block_keeps_state_ok(self@, chunk.deep_view());
        }
        let mut events: Vec<AnthropicStreamMessage> = Vec::new();
        self.leave_block(chunk, &mut events);
        let ghost stopped = events.deep_view();
        if self.current_block_kind.is_none() {
            let start: AnthropicStreamMessage = self.open_block(chunk);
            events.push(start);
            assert(events.deep_view() =~= stopped + seq![start_event(old(self)@, chunk.deep_view())]);
        } else {
            assert(stopped + Seq::empty() =~= stopped);
        }
        let ghost started = events.deep_view();
        let delta: AnthropicStreamMessage = self.add_to_block(chunk);
        events.push(delta);
        assert(events.deep_view() =~= started + seq![delta.deep_view()]);
        events
    }

    /// Notes the usage and the finish reason of a chunk.
    fn note_report(&mut self, chunk: &InferenceResponseChunk)
        requires
            has_room(old(self)@, chunk.deep_view()),
        ensures
            final(self)@ == reported(old(self)@, chunk.deep_view()),
    {
        if let Some(usage) = chunk.usage() {
            accumulate_usage(&mut self.aggregated_usage, usage);
        }
        if let Some(reason) = chunk.finish_reason() {
            self.last_finish_reason = Some(*reason);
        }
    }

    /// Notes a chunk that has no content blocks of its own. The open block, if one is
    /// open, is left.
    pub fn set_aside(&mut self, chunk: &InferenceResponseChunk)
        requires
            state_ok(old(self)@),
            has_room(old(self)@, chunk.deep_view()),
        ensures
            final(self)@ == set_aside(old(self)@, chunk.deep_view()),
            state_ok(final(self)@),
    {
        self.note_report(chunk);
        self.current_block_kind = None;
        self.started = true;
    }

    /// Processes a chunk and returns the events to emit.
    pub fn process_chunk(
        &mut self,
        chunk: &InferenceResponseChunk,
        inference_id: &str,
        model: &str,
    ) -> (events: Vec<AnthropicStreamMessage>)
        requires
            state_ok(old(self)@),
            has_room(old(self)@, chunk.deep_view()),
        ensures
            final(self)@ == after_chunk(old(self)@, chunk.deep_view()),
            state_ok(final(self)@),
            events.deep_view() == chunk_events(
                old(self)@,
                chunk.deep_view(),
                inference_id@,
                model@,
            ),
    {
        self.note_report(chunk);
        let mut events: Vec<AnthropicStreamMessage> = Vec::new();
        if !self.started {
            self.started = true;
            events.push(
                AnthropicStreamMessage::MessageStart {
                    id: joined("msg_", inference_id),
                    response_type: owned("message"),
                    model: owned(model),
                    stop_sequence: None,
                    usage: AnthropicStreamUsage::from(self.aggregated_usage),
                },
            );
        }
        let ghost start = events.deep_view();
        let ghost base = noted(old(self)@, chunk.deep_view());
        let content: &[ContentBlockChunk] = chunk.content_blocks();
        let ghost blocks = blocks_of(chunk.deep_view());
        assert(self@ == base);
        assert(start =~= if old(self)@.started {
            Seq::empty()
        } else {
            seq![message_start(inference_id@, model@, base.usage)]
        });
        let n: usize = content.len();
        for i in 0..n
            invariant
                n == content@.len(),
                content@.len() == blocks.len(),
                forall|k: int| 0 <= k < n ==> (#[trigger] content@[k]).deep_view() == blocks[k],
                state_ok(self@),
                self@ == after_blocks(base, blocks.take(i as int)),
                self@.block_ids <= base.block_ids + i,
                base.block_ids + n <= usize::MAX,
                events.deep_view() == start + blocks_events(base, blocks.take(i as int)),
        {
            assert(blocks.take(i + 1).drop_last() =~= blocks.take(i as int));
            assert(content@[i as int].deep_view() == blocks[i as int]);
            let ghost before = events.deep_view();
            let mut more: Vec<AnthropicStreamMessage> = self.ensure_block(&content[i]);
            let ghost added = more.deep_view();
            events.append(&mut more);
            assert(events.deep_view() =~= before + added);
        }
        assert(blocks.take(n as int) =~= blocks);
        events
    }

    /// The event that stops the open block, if one is open.
    pub fn open_block_stop(&self) -> (r: Option<AnthropicStreamMessage>)
        ensures
            match r {
                Some(message) => self@.open_kind is Some && message.deep_view() == stop_event(
                    self@,
                ),
                None => self@.open_kind is None,
            },
    {
        match self.current_block_kind {
            Some(kind) => Some(self.stop_message(kind)),
            None => None,
        }
    }

    /// The events that end the message.
    pub fn finalize(self) -> (events: Vec<AnthropicStreamMessage>)
        ensures
            events.deep_view() == final_events(self@),
    {
        self.closing_events()
    }

    /// The events that end the message.
    pub fn closing_events(&self) -> (events: Vec<AnthropicStreamMessage>)
        ensures
            events.deep_view() == final_events(self@),
    {
        let mut events: Vec<AnthropicStreamMessage> = Vec::new();
        events.push(
            AnthropicStreamMessage::MessageDelta {
                delta_type: owned("message_delta"),
                stop_reason: finish_reason_to_anthropic_stop_reason(self.last_finish_reason),
                stop_sequence: None,
                usage: AnthropicStreamUsage::from(self.aggregated_usage),
            },
        );
        events.push(AnthropicStreamMessage::MessageStop);
        assert(events.deep_view() =~= final_events(self@));
        events
    }

    /// Whether the counters can take in a chunk.
    pub fn can_process(&self, chunk: &InferenceResponseChunk) -> (r: bool)
        ensures
            r == has_room(self@, chunk.deep_view()),
    {
        let usage_grows: bool = match chunk.usage() {
            Some(usage) => usage_can_grow(&self.aggregated_usage, usage),
            None => true,
        };
        usage_grows && chunk.content_blocks().len() <= usize::MAX - self.block_id_counter
    }
}

/// Two tool calls with one key are one tool call.
pub proof fn tool_key_identifies(a: Seq<char>, b: Seq<char>)
    requires
        tool_key(a) == tool_key(b),
    ensures
        a == b,
{
    let n = "tool_"@.len() as int;
    assert(a =~= tool_key(a).skip(n));
    assert(b =~= tool_key(b).skip(n));
}

/// A chunk of a content block keeps the invariant.
pub proof fn block_keeps_state_ok(s: StreamStateView, chunk: ContentBlockChunkView)
    requires
        state_ok(s),
    ensures
        state_ok(after_block(s, chunk)),
{
    let t = after_block(s, chunk);
    if opens_block(s, chunk) && chunk is ToolCall {
        assert forall|id: Seq<char>| t.key == Some(#[trigger] tool_key(id)) implies
            t.tool_indices.contains_key(id) && t.tool_indices[id] == t.index by {
            tool_key_identifies(id, chunk->ToolCall_id);
        }
    }
}

} // verus!
