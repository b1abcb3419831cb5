//! What is written in a response can be read in a request.
use crate::count_tokens::{AnthropicCountTokensResponse, counts_json};
use crate::error::{ErrorBodyView, error_json};
use crate::json::{JsonView, is_plain, nested_at_most, no_object_holds};
use crate::outside::{json_text, raw_value_key, reads_as_sorted, reads_back};
use crate::provider::AnthropicCacheControl;
use crate::reader::{
    Shape, entry_error, entry_is_found, entry_is_not_found, known_entry, record_is_fine,
    unknown_entry,
};
use crate::types::block_reader::{
    BlockHeaderShape, RedactedBlockShape, TextBlockShape, ThinkingBlockShape, ToolUseBlockShape,
    block_type, cache_control_at, read_block, read_cache_control,
};
use crate::types::messages::{BlockView, ResponseBlockView, ResponseView};
use crate::types::response::{
    cache_control_entry, cache_control_json, response_block_json, response_json,
    response_usage_json,
};
use crate::types::sse::{event_json, failure_json, usage_json};
use crate::types::streaming::{AnthropicStreamUsage, EventView};
use vstd::prelude::*;

verus! {

/// A block of a response as a block of a message.
pub open spec fn as_message_block(block: ResponseBlockView) -> BlockView {
    match block {
        ResponseBlockView::Text { text, cache_control } => BlockView::Text { text, cache_control },
        ResponseBlockView::ToolUse { id, name, input, cache_control } => BlockView::ToolUse {
            id,
            name,
            input,
            cache_control,
        },
        ResponseBlockView::Thinking { thinking, signature } => BlockView::Thinking {
            thinking,
            signature,
        },
        ResponseBlockView::RedactedThinking { data } => BlockView::RedactedThinking { data },
    }
}

proof fn names_differ()
    ensures
        "type"@ != "text"@,
        "type"@ != "id"@,
        "type"@ != "name"@,
        "type"@ != "input"@,
        "type"@ != "data"@,
        "type"@ != "thinking"@,
        "type"@ != "signature"@,
        "type"@ != "cache_control"@,
        "text"@ != "cache_control"@,
        "id"@ != "name"@,
        "id"@ != "input"@,
        "id"@ != "cache_control"@,
        "name"@ != "input"@,
        "name"@ != "cache_control"@,
        "input"@ != "cache_control"@,
        "thinking"@ != "signature"@,
        "text"@ != "tool_use"@,
        "text"@ != "thinking"@,
        "text"@ != "redacted_thinking"@,
        "image"@ != "tool_use"@,
        "image"@ != "thinking"@,
        "image"@ != "redacted_thinking"@,
        "document"@ != "tool_use"@,
        "document"@ != "thinking"@,
        "document"@ != "redacted_thinking"@,
        "tool_use"@ != "thinking"@,
        "tool_use"@ != "redacted_thinking"@,
        "tool_result"@ != "thinking"@,
        "tool_result"@ != "redacted_thinking"@,
        "thinking"@ != "redacted_thinking"@,
{
    reveal_strlit("type");
    reveal_strlit("text");
    reveal_strlit("id");
    reveal_strlit("name");
    reveal_strlit("input");
    reveal_strlit("data");
    reveal_strlit("thinking");
    reveal_strlit("signature");
    reveal_strlit("cache_control");
    reveal_strlit("image");
    reveal_strlit("document");
    reveal_strlit("tool_use");
    reveal_strlit("tool_result");
    reveal_strlit("redacted_thinking");
    assert("type"@.len() == 4);
    assert("text"@.len() == 4);
    assert("id"@.len() == 2);
    assert("name"@.len() == 4);
    assert("input"@.len() == 5);
    assert("data"@.len() == 4);
    assert("thinking"@.len() == 8);
    assert("signature"@.len() == 9);
    assert("cache_control"@.len() == 13);
    assert("image"@.len() == 5);
    assert("document"@.len() == 8);
    assert("tool_use"@.len() == 8);
    assert("tool_result"@.len() == 11);
    assert("redacted_thinking"@.len() == 17);
    assert("type"@[0] == 't' && "type"@[1] == 'y');
    assert("text"@[1] == 'e');
    assert("name"@[0] == 'n');
    assert("data"@[0] == 'd');
    assert("thinking"@[1] == 'h');
    assert("document"@[0] == 'd');
    assert("tool_use"@[0] == 't' && "tool_use"@[1] == 'o');
}

proof fn cache_control_round_trip(marker: AnthropicCacheControl)
    ensures
        read_cache_control(cache_control_json(marker)) == Ok::<AnthropicCacheControl, Seq<char>>(
            marker,
        ),
{
    let v = cache_control_json(marker);
    let entries = v->Object_0;
    entry_is_found(entries, 0);
}

/// The entry of a cache marker, where there is one, is the last and is read.
proof fn marker_is_read(
    head: Seq<(Seq<char>, JsonView)>,
    marker: Option<AnthropicCacheControl>,
    position: nat,
)
    requires
        forall|k: int| 0 <= k < head.len() ==> (#[trigger] head[k]).0 != "cache_control"@,
    ensures
        cache_control_at(JsonView::Object(head + cache_control_entry(marker)), position) == marker,
        marker matches Some(m) ==> read_cache_control(cache_control_json(m)) == Ok::<
            AnthropicCacheControl,
            Seq<char>,
        >(m),
{
    let all = head + cache_control_entry(marker);
    match marker {
        None => {
            assert(all =~= head);
            entry_is_not_found(head, "cache_control"@);
        },
        Some(m) => {
            assert(all =~= head.push(("cache_control"@, cache_control_json(m))));
            entry_is_found(all, head.len() as int);
            cache_control_round_trip(m);
        },
    }
}

/// The `type` of a block whose first entry says it.
proof fn type_is_read(entries: Seq<(Seq<char>, JsonView)>, name: Seq<char>)
    requires
        entries.len() > 0,
        entries[0] == ("type"@, JsonView::String(name)),
        forall|k: int| 0 < k < entries.len() ==> (#[trigger] entries[k]).0 != "type"@,
    ensures
        block_type(JsonView::Object(entries)) == Ok::<Seq<char>, Seq<char>>(name),
{
    let keys = BlockHeaderShape::keys();
    assert(keys[0] == "type"@);
    entry_is_found(entries, 0);
    assert forall|n: int| 0 <= n < entries.len() implies entry_error::<BlockHeaderShape>(
        entries,
        n,
    ) is None by {
        if n == 0 {
            known_entry::<BlockHeaderShape>(entries, 0, 0);
        } else {
            assert(entries[n].0 != "type"@);
            unknown_entry::<BlockHeaderShape>(entries, n);
        }
    }
    record_is_fine::<BlockHeaderShape>(entries);
}

proof fn text_is_read(text: Seq<char>, cache_control: Option<AnthropicCacheControl>)
    ensures
        read_block(response_block_json(ResponseBlockView::Text { text, cache_control })) == Ok::<
            BlockView,
            Seq<char>,
        >(BlockView::Text { text, cache_control }),
{
    names_differ();
    let v = response_block_json(ResponseBlockView::Text { text, cache_control });
    let entries = v->Object_0;
    let head = seq![("type"@, JsonView::String("text"@)), ("text"@, JsonView::String(text))];
    assert(head[0].0 == "type"@ && head[1].0 == "text"@);
    assert(entries =~= head + cache_control_entry(cache_control));
    marker_is_read(head, cache_control, 1);
    type_is_read(entries, "text"@);
    entry_is_found(entries, 1);
    let keys = TextBlockShape::keys();
    assert(keys[0] == "text"@ && keys[1] == "cache_control"@);
    assert forall|n: int| 0 <= n < entries.len() implies entry_error::<TextBlockShape>(
        entries,
        n,
    ) is None by {
        if n == 0 {
            unknown_entry::<TextBlockShape>(entries, 0);
        } else {
            known_entry::<TextBlockShape>(entries, n, n - 1);
        }
    }
    record_is_fine::<TextBlockShape>(entries);
}

proof fn tool_use_is_read(
    id: Seq<char>,
    name: Seq<char>,
    input: JsonView,
    cache_control: Option<AnthropicCacheControl>,
)
    ensures
        read_block(
            response_block_json(ResponseBlockView::ToolUse { id, name, input, cache_control }),
        ) == Ok::<BlockView, Seq<char>>(BlockView::ToolUse { id, name, input, cache_control }),
{
    names_differ();
    let v = response_block_json(ResponseBlockView::ToolUse { id, name, input, cache_control });
    let entries = v->Object_0;
    let head = seq![
        ("type"@, JsonView::String("tool_use"@)),
        ("id"@, JsonView::String(id)),
        ("name"@, JsonView::String(name)),
        ("input"@, input),
    ];
    assert(head[0].0 == "type"@ && head[1].0 == "id"@ && head[2].0 == "name"@ && head[3].0
        == "input"@);
    assert(entries =~= head + cache_control_entry(cache_control));
    marker_is_read(head, cache_control, 3);
    type_is_read(entries, "tool_use"@);
    entry_is_found(entries, 1);
    entry_is_found(entries, 2);
    entry_is_found(entries, 3);
    let keys = ToolUseBlockShape::keys();
    assert(keys[0] == "id"@ && keys[1] == "name"@ && keys[2] == "input"@ && keys[3]
        == "cache_control"@);
    assert forall|n: int| 0 <= n < entries.len() implies entry_error::<ToolUseBlockShape>(
        entries,
        n,
    ) is None by {
        if n == 0 {
            unknown_entry::<ToolUseBlockShape>(entries, 0);
        } else {
            known_entry::<ToolUseBlockShape>(entries, n, n - 1);
        }
    }
    record_is_fine::<ToolUseBlockShape>(entries);
}

proof fn thinking_is_read(thinking: Seq<char>, signature: Seq<char>)
    ensures
        read_block(response_block_json(ResponseBlockView::Thinking { thinking, signature })) == Ok::<
            BlockView,
            Seq<char>,
        >(BlockView::Thinking { thinking, signature }),
{
    names_differ();
    let v = response_block_json(ResponseBlockView::Thinking { thinking, signature });
    let entries = v->Object_0;
    type_is_read(entries, "thinking"@);
    entry_is_found(entries, 1);
    entry_is_found(entries, 2);
    let keys = ThinkingBlockShape::keys();
    assert(keys[0] == "thinking"@ && keys[1] == "signature"@);
    assert forall|n: int| 0 <= n < entries.len() implies entry_error::<ThinkingBlockShape>(
        entries,
        n,
    ) is None by {
        if n == 0 {
            unknown_entry::<ThinkingBlockShape>(entries, 0);
        } else {
            known_entry::<ThinkingBlockShape>(entries, n, n - 1);
        }
    }
    record_is_fine::<ThinkingBlockShape>(entries);
}

proof fn redacted_is_read(data: Seq<char>)
    ensures
        read_block(response_block_json(ResponseBlockView::RedactedThinking { data })) == Ok::<
            BlockView,
            Seq<char>,
        >(BlockView::RedactedThinking { data }),
{
    names_differ();
    let v = response_block_json(ResponseBlockView::RedactedThinking { data });
    let entries = v->Object_0;
    type_is_read(entries, "redacted_thinking"@);
    entry_is_found(entries, 1);
    let keys = RedactedBlockShape::keys();
    assert(keys[0] == "data"@);
    assert forall|n: int| 0 <= n < entries.len() implies entry_error::<RedactedBlockShape>(
        entries,
        n,
    ) is None by {
        if n == 0 {
            unknown_entry::<RedactedBlockShape>(entries, 0);
        } else {
            known_entry::<RedactedBlockShape>(entries, n, n - 1);
        }
    }
    record_is_fine::<RedactedBlockShape>(entries);
}

/// A client that sends a block of a response back in a message sends the same
/// block: what the response writes is what the request reads.
pub proof fn response_blocks_can_be_read(block: ResponseBlockView)
    ensures
        read_block(response_block_json(block)) == Ok::<BlockView, Seq<char>>(
            as_message_block(block),
        ),
{
    match block {
        ResponseBlockView::Text { text, cache_control } => {
            text_is_read(text, cache_control);
        },
        ResponseBlockView::ToolUse { id, name, input, cache_control } => {
            tool_use_is_read(id, name, input, cache_control);
        },
        ResponseBlockView::Thinking { thinking, signature } => {
            thinking_is_read(thinking, signature);
        },
        ResponseBlockView::RedactedThinking { data } => {
            redacted_is_read(data);
        },
    }
}

/// The keys that stand together in an object differ, and none of them is the key that
/// serde_json keeps to itself.
pub(crate) proof fn keys_differ()
    ensures
        "id"@ != "type"@,
        "id"@ != "model"@,
        "id"@ != "stop_sequence"@,
        "id"@ != "usage"@,
        "type"@ != "model"@,
        "type"@ != "stop_sequence"@,
        "type"@ != "usage"@,
        "model"@ != "stop_sequence"@,
        "model"@ != "usage"@,
        "stop_sequence"@ != "usage"@,
        "index"@ != "type"@,
        "index"@ != "id"@,
        "index"@ != "thinking"@,
        "index"@ != "signature"@,
        "index"@ != "name"@,
        "type"@ != "thinking"@,
        "type"@ != "signature"@,
        "type"@ != "name"@,
        "id"@ != "thinking"@,
        "id"@ != "signature"@,
        "id"@ != "name"@,
        "thinking"@ != "signature"@,
        "thinking"@ != "name"@,
        "signature"@ != "name"@,
        "index"@ != "delta_type"@,
        "index"@ != "text"@,
        "index"@ != "tool_use_id"@,
        "index"@ != "input"@,
        "type"@ != "delta_type"@,
        "type"@ != "text"@,
        "type"@ != "tool_use_id"@,
        "type"@ != "input"@,
        "delta_type"@ != "text"@,
        "delta_type"@ != "tool_use_id"@,
        "delta_type"@ != "name"@,
        "delta_type"@ != "input"@,
        "text"@ != "tool_use_id"@,
        "text"@ != "name"@,
        "text"@ != "input"@,
        "tool_use_id"@ != "name"@,
        "tool_use_id"@ != "input"@,
        "name"@ != "input"@,
        "type"@ != "stop_reason"@,
        "stop_reason"@ != "stop_sequence"@,
        "stop_reason"@ != "usage"@,
        "input_tokens"@ != "output_tokens"@,
        "input_tokens"@ != "cache_creation_input_tokens"@,
        "input_tokens"@ != "cache_read_input_tokens"@,
        "output_tokens"@ != "cache_creation_input_tokens"@,
        "output_tokens"@ != "cache_read_input_tokens"@,
        "cache_creation_input_tokens"@ != "cache_read_input_tokens"@,
        "message"@ != "type"@,
        "type"@ != "error"@,
        "id"@ != "role"@,
        "id"@ != "content"@,
        "id"@ != "stop_reason"@,
        "type"@ != "role"@,
        "type"@ != "content"@,
        "role"@ != "content"@,
        "role"@ != "model"@,
        "role"@ != "stop_reason"@,
        "role"@ != "stop_sequence"@,
        "role"@ != "usage"@,
        "content"@ != "model"@,
        "content"@ != "stop_reason"@,
        "content"@ != "stop_sequence"@,
        "content"@ != "usage"@,
        "model"@ != "stop_reason"@,
        "type"@ != "cache_control"@,
        "text"@ != "cache_control"@,
        "id"@ != "input"@,
        "id"@ != "cache_control"@,
        "name"@ != "cache_control"@,
        "input"@ != "cache_control"@,
        "type"@ != "data"@,
        "id"@ != raw_value_key(),
        "type"@ != raw_value_key(),
        "model"@ != raw_value_key(),
        "stop_sequence"@ != raw_value_key(),
        "usage"@ != raw_value_key(),
        "index"@ != raw_value_key(),
        "thinking"@ != raw_value_key(),
        "signature"@ != raw_value_key(),
        "name"@ != raw_value_key(),
        "delta_type"@ != raw_value_key(),
        "text"@ != raw_value_key(),
        "tool_use_id"@ != raw_value_key(),
        "input"@ != raw_value_key(),
        "stop_reason"@ != raw_value_key(),
        "input_tokens"@ != raw_value_key(),
        "output_tokens"@ != raw_value_key(),
        "cache_creation_input_tokens"@ != raw_value_key(),
        "cache_read_input_tokens"@ != raw_value_key(),
        "message"@ != raw_value_key(),
        "error"@ != raw_value_key(),
        "role"@ != raw_value_key(),
        "content"@ != raw_value_key(),
        "cache_control"@ != raw_value_key(),
        "data"@ != raw_value_key(),
{
    reveal_strlit("id");
    reveal_strlit("type");
    reveal_strlit("model");
    reveal_strlit("stop_sequence");
    reveal_strlit("usage");
    reveal_strlit("index");
    reveal_strlit("thinking");
    reveal_strlit("signature");
    reveal_strlit("name");
    reveal_strlit("delta_type");
    reveal_strlit("text");
    reveal_strlit("tool_use_id");
    reveal_strlit("input");
    reveal_strlit("stop_reason");
    reveal_strlit("input_tokens");
    reveal_strlit("output_tokens");
    reveal_strlit("cache_creation_input_tokens");
    reveal_strlit("cache_read_input_tokens");
    reveal_strlit("message");
    reveal_strlit("error");
    reveal_strlit("role");
    reveal_strlit("content");
    reveal_strlit("cache_control");
    reveal_strlit("data");
    reveal_strlit("$serde_json::private::RawValue");
    assert("id"@.len() == 2);
    assert("type"@.len() == 4);
    assert("model"@.len() == 5);
    assert("stop_sequence"@.len() == 13);
    assert("usage"@.len() == 5);
    assert("index"@.len() == 5);
    assert("thinking"@.len() == 8);
    assert("signature"@.len() == 9);
    assert("name"@.len() == 4);
    assert("delta_type"@.len() == 10);
    assert("text"@.len() == 4);
    assert("tool_use_id"@.len() == 11);
    assert("input"@.len() == 5);
    assert("stop_reason"@.len() == 11);
    assert("input_tokens"@.len() == 12);
    assert("output_tokens"@.len() == 13);
    assert("cache_creation_input_tokens"@.len() == 27);
    assert("cache_read_input_tokens"@.len() == 23);
    assert("message"@.len() == 7);
    assert("error"@.len() == 5);
    assert("role"@.len() == 4);
    assert("content"@.len() == 7);
    assert("cache_control"@.len() == 13);
    assert("data"@.len() == 4);
    assert("$serde_json::private::RawValue"@.len() == 30);
    assert("model"@[0] == 'm');
    assert("usage"@[0] == 'u');
    assert("type"@[0] == 't');
    assert("name"@[0] == 'n');
    assert("index"@[2] == 'd');
    assert("input"@[2] == 'p');
    assert("type"@[1] == 'y');
    assert("text"@[1] == 'e');
    assert("text"@[0] == 't');
    assert("role"@[0] == 'r');
    assert("data"@[0] == 'd');
}

// ---------------------------------------------------------------------------
// Reading back what is written
// ---------------------------------------------------------------------------

/// Whether a value that the library builds can be read back from its text: it is
/// plain, nested to a depth of at most `n`, and without the key that serde_json keeps
/// to itself.
pub open spec fn is_sound(v: JsonView, n: nat) -> bool {
    is_plain(v) && nested_at_most(v, n) && no_object_holds(v, raw_value_key())
}

proof fn deeper_is_sound(v: JsonView, n: nat, m: nat)
    requires
        is_sound(v, n),
        n <= m,
    ensures
        is_sound(v, m),
    decreases n,
{
    match v {
        JsonView::Array(items) => {
            assert forall|i: int| 0 <= i < items.len() implies nested_at_most(
                #[trigger] items[i],
                (m - 1) as nat,
            ) by {
                deeper_is_sound(items[i], (n - 1) as nat, (m - 1) as nat);
            }
        },
        JsonView::Object(entries) => {
            assert forall|i: int| 0 <= i < entries.len() implies nested_at_most(
                (#[trigger] entries[i]).1,
                (m - 1) as nat,
            ) by {
                deeper_is_sound(entries[i].1, (n - 1) as nat, (m - 1) as nat);
            }
        },
        _ => {},
    }
}

proof fn object_is_sound(entries: Seq<(Seq<char>, JsonView)>, n: nat)
    requires
        n > 0,
        forall|i: int|
            0 <= i < entries.len() ==> is_sound((#[trigger] entries[i]).1, (n - 1) as nat)
                && entries[i].0 != raw_value_key(),
        forall|i: int, j: int|
            0 <= i < j < entries.len() ==> (#[trigger] entries[i]).0 != (#[trigger] entries[j]).0,
    ensures
        is_sound(JsonView::Object(entries), n),
{
}

proof fn array_is_sound(items: Seq<JsonView>, n: nat)
    requires
        n > 0,
        forall|i: int| 0 <= i < items.len() ==> is_sound(#[trigger] items[i], (n - 1) as nat),
    ensures
        is_sound(JsonView::Array(items), n),
{
}

/// A sound value reads back from its text, with its keys sorted.
pub proof fn sound_values_read_back(json: JsonView)
    requires
        is_sound(json, 127),
        reads_back(json),
    ensures
        reads_as_sorted(json_text(json), json),
{
}

/// The body of an error reads back from its text.
pub proof fn errors_are_sound(body: ErrorBodyView)
    ensures
        is_sound(error_json(body), 127),
{
    keys_differ();
    let outer = error_json(body)->Object_0;
    let inner = outer[1].1->Object_0;
    object_is_sound(inner, 1);
    assert(outer[1].1 == JsonView::Object(inner));
    object_is_sound(outer, 2);
    deeper_is_sound(error_json(body), 2, 127);
}

/// The event that reports a failure reads back from its text.
pub proof fn failures_are_sound(message: Seq<char>)
    ensures
        is_sound(failure_json(message), 127),
{
    keys_differ();
    let outer = failure_json(message)->Object_0;
    let inner = outer[1].1->Object_0;
    object_is_sound(inner, 1);
    assert(outer[1].1 == JsonView::Object(inner));
    object_is_sound(outer, 2);
    deeper_is_sound(failure_json(message), 2, 127);
}

proof fn usage_is_sound(usage: AnthropicStreamUsage)
    ensures
        is_sound(usage_json(usage), 1),
{
    keys_differ();
    object_is_sound(usage_json(usage)->Object_0, 1);
}

/// An event reads back from its text, if the input of a tool call that it carries does
/// and is nested one level less deeply.
pub proof fn events_are_sound(message: EventView)
    requires
        message matches EventView::ContentBlockDelta { input: Some(input), .. } ==> is_sound(
            input,
            126,
        ),
    ensures
        is_sound(event_json(message), 127),
{
    keys_differ();
    let v = event_json(message);
    match message {
        EventView::MessageStart { usage, .. } => {
            usage_is_sound(usage);
            deeper_is_sound(usage_json(usage), 1, 126);
        },
        EventView::MessageDelta { usage, .. } => {
            usage_is_sound(usage);
            deeper_is_sound(usage_json(usage), 1, 126);
        },
        _ => {},
    }
    object_is_sound(v->Object_0, 127);
}

proof fn response_block_is_sound(block: ResponseBlockView)
    requires
        block matches ResponseBlockView::ToolUse { input, .. } ==> is_sound(input, 124),
    ensures
        is_sound(response_block_json(block), 125),
{
    keys_differ();
    let marker = cache_control_json(AnthropicCacheControl::Ephemeral);
    object_is_sound(marker->Object_0, 1);
    assert(marker == JsonView::Object(marker->Object_0));
    deeper_is_sound(marker, 1, 124);
    object_is_sound(response_block_json(block)->Object_0, 125);
}

/// A response reads back from its text, if the inputs of its tool calls do and are
/// nested three levels less deeply.
pub proof fn responses_are_sound(response: ResponseView)
    requires
        forall|i: int|
            0 <= i < response.content.len() ==> ((
            #[trigger] response.content[i]) matches ResponseBlockView::ToolUse { input, .. }
                ==> is_sound(input, 124)),
    ensures
        is_sound(response_json(response), 127),
{
    keys_differ();
    let blocks = response.content.map_values(|b: ResponseBlockView| response_block_json(b));
    assert forall|i: int| 0 <= i < blocks.len() implies is_sound(#[trigger] blocks[i], 125) by {
        response_block_is_sound(response.content[i]);
    }
    array_is_sound(blocks, 126);
    let usage = response_usage_json(response.usage);
    object_is_sound(usage->Object_0, 1);
    assert(usage == JsonView::Object(usage->Object_0));
    deeper_is_sound(usage, 1, 126);
    object_is_sound(response_json(response)->Object_0, 127);
}

/// Token counts read back from their text.
pub proof fn counts_are_sound(counts: AnthropicCountTokensResponse)
    ensures
        is_sound(counts_json(counts), 127),
{
    keys_differ();
    object_is_sound(counts_json(counts)->Object_0, 127);
}

} // verus!
