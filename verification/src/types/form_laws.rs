//! What a client finds in the JSON that it is sent.
use crate::count_tokens::{AnthropicCountTokensResponse, counts_json};
use crate::error::{ErrorBodyView, error_json};
use crate::json::{JsonNumberView, JsonView};
use crate::provider::AnthropicStopReason;
use crate::types::messages::{AnthropicResponseUsage, ResponseBlockView, ResponseView};
use crate::types::response::{response_block_json, response_json, response_usage_json};
use crate::types::sse::{event_json, failure_json, usage_json};
use crate::types::streaming::{AnthropicStreamUsage, EventView};
use crate::types::wire_laws::keys_differ;
use vstd::prelude::*;

verus! {

/// Whether an object holds a value under a key, and under that key nothing else.
pub open spec fn member(v: JsonView, key: Seq<char>, x: JsonView) -> bool {
    &&& v is Object
    &&& exists|i: int| 0 <= i < v->Object_0.len() && #[trigger] v->Object_0[i] == (key, x)
    &&& forall|j: int|
        0 <= j < v->Object_0.len() && (#[trigger] v->Object_0[j]).0 == key ==> v->Object_0[j].1 == x
}

/// Whether an object holds nothing under a key.
pub open spec fn no_member(v: JsonView, key: Seq<char>) -> bool {
    v is Object && forall|j: int| 0 <= j < v->Object_0.len() ==> (#[trigger] v->Object_0[j]).0 != key
}

/// A number of JSON.
pub open spec fn number(n: nat) -> JsonView {
    JsonView::Number(JsonNumberView::Unsigned(n as u64))
}

/// Whether an object holds a text under a key, or `null` where there is none.
pub open spec fn text_or_null(v: JsonView, key: Seq<char>, text: Option<Seq<char>>) -> bool {
    match text {
        Some(s) => member(v, key, JsonView::String(s)),
        None => member(v, key, JsonView::Null),
    }
}

/// Whether an object holds a count under a key, or nothing where there is none.
pub open spec fn count_or_nothing(v: JsonView, key: Seq<char>, n: Option<u32>) -> bool {
    match n {
        Some(x) => member(v, key, number(x as nat)),
        None => no_member(v, key),
    }
}

/// Whether an object holds the name of a stop reason, or `null` where there is none.
pub open spec fn reason_or_null(v: JsonView, reason: Option<AnthropicStopReason>) -> bool {
    match reason {
        Some(AnthropicStopReason::EndTurn) => member(
            v,
            "stop_reason"@,
            JsonView::String("end_turn"@),
        ),
        Some(AnthropicStopReason::MaxTokens) => member(
            v,
            "stop_reason"@,
            JsonView::String("max_tokens"@),
        ),
        Some(AnthropicStopReason::StopSequence) => member(
            v,
            "stop_reason"@,
            JsonView::String("stop_sequence"@),
        ),
        Some(AnthropicStopReason::ToolUse) => member(
            v,
            "stop_reason"@,
            JsonView::String("tool_use"@),
        ),
        Some(AnthropicStopReason::Unknown) => member(
            v,
            "stop_reason"@,
            JsonView::String("unknown"@),
        ),
        None => member(v, "stop_reason"@, JsonView::Null),
    }
}

/// Whether an object holds the counts of a usage.
pub open spec fn holds_counts(
    v: JsonView,
    input: u32,
    output: u32,
    written: Option<u32>,
    read: Option<u32>,
) -> bool {
    &&& member(v, "input_tokens"@, number(input as nat))
    &&& member(v, "output_tokens"@, number(output as nat))
    &&& count_or_nothing(v, "cache_creation_input_tokens"@, written)
    &&& count_or_nothing(v, "cache_read_input_tokens"@, read)
}

proof fn is_member(v: JsonView, i: int)
    requires
        v is Object,
        0 <= i < v->Object_0.len(),
        forall|j: int|
            0 <= j < v->Object_0.len() && j != i ==> (#[trigger] v->Object_0[j]).0
                != v->Object_0[i].0,
    ensures
        member(v, v->Object_0[i].0, v->Object_0[i].1),
{
    assert(v->Object_0[i] == (v->Object_0[i].0, v->Object_0[i].1));
}

/// The usage of a response and that of an event hold their counts. A count of the cache
/// that is not known is left out.
pub proof fn usages_hold_their_counts(usage: AnthropicResponseUsage, streamed: AnthropicStreamUsage)
    ensures
        holds_counts(
            response_usage_json(usage),
            usage.input_tokens,
            usage.output_tokens,
            usage.cache_creation_input_tokens,
            usage.cache_read_input_tokens,
        ),
        holds_counts(
            usage_json(streamed),
            streamed.input_tokens,
            streamed.output_tokens,
            streamed.cache_creation_input_tokens,
            streamed.cache_read_input_tokens,
        ),
{
    counts_of_response(usage);
    counts_of_event(streamed);
}

proof fn counts_of_response(usage: AnthropicResponseUsage)
    ensures
        holds_counts(
            response_usage_json(usage),
            usage.input_tokens,
            usage.output_tokens,
            usage.cache_creation_input_tokens,
            usage.cache_read_input_tokens,
        ),
{
    keys_differ();
    let v = response_usage_json(usage);
    is_member(v, 0);
    is_member(v, 1);
    if v->Object_0.len() > 2 {
        is_member(v, 2);
    }
    if v->Object_0.len() > 3 {
        is_member(v, 3);
    }
}

proof fn counts_of_event(usage: AnthropicStreamUsage)
    ensures
        holds_counts(
            usage_json(usage),
            usage.input_tokens,
            usage.output_tokens,
            usage.cache_creation_input_tokens,
            usage.cache_read_input_tokens,
        ),
{
    keys_differ();
    let v = usage_json(usage);
    is_member(v, 0);
    is_member(v, 1);
    if v->Object_0.len() > 2 {
        is_member(v, 2);
    }
    if v->Object_0.len() > 3 {
        is_member(v, 3);
    }
}

/// A client finds in a response its ID, type, role, model and stop reason, every block in
/// order, and the usage.
pub proof fn responses_hold_their_fields(response: ResponseView)
    ensures
        ({
            let v = response_json(response);
            &&& member(v, "id"@, JsonView::String(response.id))
            &&& member(v, "type"@, JsonView::String(response.response_type))
            &&& member(v, "role"@, JsonView::String(response.role))
            &&& member(v, "model"@, JsonView::String(response.model))
            &&& reason_or_null(v, response.stop_reason)
            &&& member(v, "usage"@, response_usage_json(response.usage))
            &&& response.stop_sequence is None ==> no_member(v, "stop_sequence"@)
            &&& exists|items: Seq<JsonView>|
                #![trigger items.len()]
                member(v, "content"@, JsonView::Array(items)) && items.len()
                    == response.content.len() && forall|k: int|
                    0 <= k < items.len() ==> #[trigger] items[k] == response_block_json(
                        response.content[k],
                    )
        }),
{
    keys_differ();
    let v = response_json(response);
    let n = v->Object_0.len() as int;
    assert(v->Object_0[n - 1].0 == "usage"@);
    is_member(v, 0);
    is_member(v, 1);
    is_member(v, 2);
    is_member(v, 3);
    is_member(v, 4);
    is_member(v, 5);
    is_member(v, n - 1);
    let items = response.content.map_values(|b: ResponseBlockView| response_block_json(b));
    assert(items.len() == response.content.len());
    assert(member(v, "content"@, JsonView::Array(items)));
}

/// A client finds in a block of a response its type and its own fields, and a cache
/// marker only where there is one.
pub proof fn blocks_hold_their_fields(block: ResponseBlockView)
    ensures
        ({
            let v = response_block_json(block);
            match block {
                ResponseBlockView::Text { text, cache_control } => {
                    &&& member(v, "type"@, JsonView::String("text"@))
                    &&& member(v, "text"@, JsonView::String(text))
                    &&& cache_control is None ==> no_member(v, "cache_control"@)
                },
                ResponseBlockView::ToolUse { id, name, input, cache_control } => {
                    &&& member(v, "type"@, JsonView::String("tool_use"@))
                    &&& member(v, "id"@, JsonView::String(id))
                    &&& member(v, "name"@, JsonView::String(name))
                    &&& member(v, "input"@, input)
                    &&& cache_control is None ==> no_member(v, "cache_control"@)
                },
                ResponseBlockView::Thinking { thinking, signature } => {
                    &&& member(v, "type"@, JsonView::String("thinking"@))
                    &&& member(v, "thinking"@, JsonView::String(thinking))
                    &&& member(v, "signature"@, JsonView::String(signature))
                },
                ResponseBlockView::RedactedThinking { data } => {
                    &&& member(v, "type"@, JsonView::String("redacted_thinking"@))
                    &&& member(v, "data"@, JsonView::String(data))
                },
            }
        }),
{
    keys_differ();
    let v = response_block_json(block);
    is_member(v, 0);
    is_member(v, 1);
    if v->Object_0.len() > 2 {
        is_member(v, 2);
    }
    if v->Object_0.len() > 3 {
        is_member(v, 3);
    }
    if v->Object_0.len() > 4 {
        is_member(v, 4);
    }
}

/// A client finds in the data of an event the fields of the event.
pub proof fn events_hold_their_fields(message: EventView)
    ensures
        ({
            let v = event_json(message);
            match message {
                EventView::MessageStart { id, response_type, model, stop_sequence, usage } => {
                    &&& member(v, "id"@, JsonView::String(id))
                    &&& member(v, "type"@, JsonView::String(response_type))
                    &&& member(v, "model"@, JsonView::String(model))
                    &&& stop_sequence is None ==> member(v, "stop_sequence"@, JsonView::Null)
                    &&& member(v, "usage"@, usage_json(usage))
                },
                EventView::ContentBlockStart {
                    index,
                    content_type,
                    id,
                    thinking,
                    signature,
                    name,
                } => {
                    &&& member(v, "index"@, number(index))
                    &&& member(v, "type"@, JsonView::String(content_type))
                    &&& member(v, "id"@, JsonView::String(id))
                    &&& text_or_null(v, "thinking"@, thinking)
                    &&& text_or_null(v, "signature"@, signature)
                    &&& text_or_null(v, "name"@, name)
                },
                EventView::ContentBlockDelta {
                    index,
                    delta_type,
                    text,
                    tool_use_id,
                    name,
                    input,
                } => {
                    &&& member(v, "index"@, number(index))
                    &&& member(v, "type"@, JsonView::String(delta_type))
                    &&& member(v, "delta_type"@, JsonView::String(delta_type))
                    &&& text_or_null(v, "text"@, text)
                    &&& text_or_null(v, "tool_use_id"@, tool_use_id)
                    &&& text_or_null(v, "name"@, name)
                    &&& match input {
                        Some(x) => member(v, "input"@, x),
                        None => member(v, "input"@, JsonView::Null),
                    }
                },
                EventView::ContentBlockStop { index, signature } => {
                    &&& member(v, "index"@, number(index))
                    &&& match signature {
                        Some(s) => member(v, "signature"@, JsonView::String(s)),
                        None => no_member(v, "signature"@),
                    }
                },
                EventView::MessageDelta { delta_type, stop_reason, stop_sequence, usage } => {
                    &&& member(v, "type"@, JsonView::String(delta_type))
                    &&& reason_or_null(v, stop_reason)
                    &&& stop_sequence is None ==> member(v, "stop_sequence"@, JsonView::Null)
                    &&& member(v, "usage"@, usage_json(usage))
                },
                EventView::MessageStop => v == JsonView::Object(Seq::empty()),
            }
        }),
{
    keys_differ();
    let v = event_json(message);
    let n = v->Object_0.len();
    if n > 0 {
        is_member(v, 0);
    }
    if n > 1 {
        is_member(v, 1);
    }
    if n > 2 {
        is_member(v, 2);
    }
    if n > 3 {
        is_member(v, 3);
    }
    if n > 4 {
        is_member(v, 4);
    }
    if n > 5 {
        is_member(v, 5);
    }
    if n > 6 {
        is_member(v, 6);
    }
}

/// A client finds in the body of an error its type, and the message and the type of what
/// went wrong.
pub proof fn errors_hold_their_fields(body: ErrorBodyView)
    ensures
        ({
            let v = error_json(body);
            &&& member(v, "type"@, JsonView::String(body.body_type))
            &&& exists|inner: JsonView|
                #![trigger member(v, "error"@, inner)]
                member(v, "error"@, inner) && member(
                    inner,
                    "message"@,
                    JsonView::String(body.message),
                ) && match body.error_type {
                    Some(name) => member(inner, "type"@, JsonView::String(name)),
                    None => no_member(inner, "type"@),
                }
        }),
{
    keys_differ();
    let v = error_json(body);
    let inner = v->Object_0[1].1;
    is_member(v, 0);
    is_member(v, 1);
    is_member(inner, 0);
    if inner->Object_0.len() > 1 {
        is_member(inner, 1);
    }
    assert(member(v, "error"@, inner));
}

/// A client finds the message of a failure in the event that reports it.
pub proof fn failures_hold_their_message(message: Seq<char>)
    ensures
        ({
            let v = failure_json(message);
            &&& member(v, "type"@, JsonView::String("error"@))
            &&& exists|inner: JsonView|
                #![trigger member(v, "error"@, inner)]
                member(v, "error"@, inner) && member(
                    inner,
                    "message"@,
                    JsonView::String(message),
                ) && member(inner, "type"@, JsonView::String("api_error"@))
        }),
{
    keys_differ();
    let v = failure_json(message);
    let inner = v->Object_0[1].1;
    is_member(v, 0);
    is_member(v, 1);
    is_member(inner, 0);
    is_member(inner, 1);
    assert(member(v, "error"@, inner));
}

/// A client finds each count of tokens under its own name.
pub proof fn counts_hold_their_fields(counts: AnthropicCountTokensResponse)
    ensures
        member(counts_json(counts), "input_tokens"@, number(counts.input_tokens as nat)),
        member(
            counts_json(counts),
            "cache_creation_input_tokens"@,
            number(counts.cache_creation_input_tokens as nat),
        ),
        member(
            counts_json(counts),
            "cache_read_input_tokens"@,
            number(counts.cache_read_input_tokens as nat),
        ),
{
    keys_differ();
    let v = counts_json(counts);
    is_member(v, 0);
    is_member(v, 1);
    is_member(v, 2);
}

/// Whether a value is an integer of JSON.
pub open spec fn is_integer_json(v: JsonView, n: i32) -> bool {
    if n >= 0 {
        v == JsonView::Number(JsonNumberView::Unsigned(n as u64))
    } else {
        v == JsonView::Number(JsonNumberView::Negative(n as i64))
    }
}

/// A client finds a stop sequence as an integer, where there is one.
pub proof fn stop_sequences_are_integers(response: ResponseView, message: EventView, n: i32)
    ensures
        response.stop_sequence == Some(n) ==> exists|v: JsonView| #[trigger]
            member(response_json(response), "stop_sequence"@, v) && is_integer_json(v, n),
        message is MessageStart && message->MessageStart_stop_sequence == Some(n) ==> exists|
            v: JsonView,
        | #[trigger]
            member(event_json(message), "stop_sequence"@, v) && is_integer_json(v, n),
        message is MessageDelta && message->MessageDelta_stop_sequence == Some(n) ==> exists|
            v: JsonView,
        | #[trigger]
            member(event_json(message), "stop_sequence"@, v) && is_integer_json(v, n),
{
    keys_differ();
    let r = response_json(response);
    let e = event_json(message);
    if response.stop_sequence == Some(n) {
        assert(r->Object_0[6].0 == "stop_sequence"@);
        is_member(r, 6);
        assert(member(r, "stop_sequence"@, r->Object_0[6].1));
    }
    if message is MessageStart {
        assert(e->Object_0[3].0 == "stop_sequence"@);
        is_member(e, 3);
        assert(member(e, "stop_sequence"@, e->Object_0[3].1));
    }
    if message is MessageDelta {
        assert(e->Object_0[2].0 == "stop_sequence"@);
        is_member(e, 2);
        assert(member(e, "stop_sequence"@, e->Object_0[2].1));
    }
}

} // verus!
