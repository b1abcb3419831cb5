//! What holds of every translation.
use crate::inference::{
    CacheControlSpan, CacheControlTarget, ContentBlockChatOutputView, InputMessageContentView,
};
use crate::model::collected_all;
use crate::outside::{json_text, reads_as};
use crate::provider::AnthropicCacheControl;
use crate::types::into_params::{
    RouteView, data_in_blocks, data_in_messages, message_of, message_results, message_spans,
    names_with_blocks, params_of, role_of, route_of, spans_of, spans_of_message, system_markers,
    system_spans, tool_markers, tool_names, tool_spans,
};
use crate::types::messages::{
    BlockView, ContentView, MessageView, RequestView, ResponseBlockView, SourceView, SystemView,
};
use crate::types::response::response_block;
use crate::types::translate::{
    Marked, RefusalView, content_of, content_results, marked, marker_on, markers_on, refusal_of,
};
use vstd::prelude::*;

verus! {

// ---------------------------------------------------------------------------
// Alignment
// ---------------------------------------------------------------------------

/// Every message of a request becomes one message, with its role, and every block
/// of a message becomes one item at the same place.
pub proof fn translation_keeps_places(
    request: RequestView,
    refusals: Seq<RefusalView>,
    message_idx: int,
)
    requires
        params_of(request, refusals) is Ok,
        0 <= message_idx < request.messages.len(),
    ensures
        ({
            let messages = params_of(request, refusals)->Ok_0.input.messages;
            let message = request.messages[message_idx];
            let names = tool_names(request.messages);
            &&& messages.len() == request.messages.len()
            &&& messages[message_idx].role == role_of(message.role)
            &&& match message.content {
                ContentView::String(text) => messages[message_idx].content.len() == 1
                    && messages[message_idx].content[0] == InputMessageContentView::Text(
                    crate::inference::TextView { text },
                ),
                ContentView::Blocks(blocks) => messages[message_idx].content.len() == blocks.len()
                    && forall|k: int|
                    0 <= k < blocks.len() ==> content_of(#[trigger] blocks[k], names, refusals)
                        == Ok::<_, Seq<char>>(messages[message_idx].content[k]),
            }
        }),
{
    let names = tool_names(request.messages);
    let all = message_results(request.messages, names, refusals);
    collected_all(all);
    let messages = params_of(request, refusals)->Ok_0.input.messages;
    assert(all[message_idx] == Ok::<_, Seq<char>>(messages[message_idx]));
    match request.messages[message_idx].content {
        ContentView::String(_) => {},
        ContentView::Blocks(blocks) => {
            let items = content_results(blocks, names, refusals);
            collected_all(items);
            assert forall|k: int| 0 <= k < blocks.len() implies content_of(
                #[trigger] blocks[k],
                names,
                refusals,
            ) == Ok::<_, Seq<char>>(messages[message_idx].content[k]) by {
                assert(items[k] == content_of(blocks[k], names, refusals));
            }
        },
    }
}

// ---------------------------------------------------------------------------
// Cache markers
// ---------------------------------------------------------------------------

proof fn marked_places(markers: Seq<Option<AnthropicCacheControl>>, m: Marked)
    requires
        markers.len() <= usize::MAX,
    ensures
        marked(markers).contains(m) <==> m.index < markers.len() && markers[m.index as int]
            == Some(m.marker),
    decreases markers.len(),
{
    if markers.len() > 0 {
        let rest = markers.drop_last();
        let before = marked(rest);
        marked_places(rest, m);
        match markers.last() {
            Some(marker) => {
                let last = Marked { index: (markers.len() - 1) as usize, marker };
                let all = before.push(last);
                assert(all[before.len() as int] == last);
                if before.contains(m) {
                    let i = choose|i: int| 0 <= i < before.len() && before[i] == m;
                    assert(all[i] == m);
                }
                if all.contains(m) && m != last {
                    let i = choose|i: int| 0 <= i < all.len() && all[i] == m;
                    assert(before[i] == m);
                }
            },
            None => {},
        }
    }
}

/// Whether a block of a message carries a cache marker.
pub open spec fn block_is_marked(
    messages: Seq<MessageView>,
    message_idx: usize,
    content_idx: usize,
    marker: AnthropicCacheControl,
) -> bool {
    message_idx < messages.len() && match messages[message_idx as int].content {
        ContentView::String(_) => false,
        ContentView::Blocks(blocks) => content_idx < blocks.len() && marker_on(
            blocks[content_idx as int],
        ) == Some(marker),
    }
}

/// Whether the lists of a request are as long as lists can be on this machine.
pub open spec fn lists_fit(request: RequestView) -> bool {
    &&& request.messages.len() <= usize::MAX
    &&& forall|i: int|
        0 <= i < request.messages.len() ==> match (#[trigger] request.messages[i]).content {
            ContentView::String(_) => true,
            ContentView::Blocks(blocks) => blocks.len() <= usize::MAX,
        }
    &&& match request.system {
        SystemView::String(_) => true,
        SystemView::Blocks(blocks) => blocks.len() <= usize::MAX,
    }
    &&& match request.tools {
        Some(tools) => tools.len() <= usize::MAX,
        None => true,
    }
}

proof fn message_places(
    messages: Seq<MessageView>,
    message_idx: usize,
    content_idx: usize,
    marker: AnthropicCacheControl,
)
    requires
        messages.len() <= usize::MAX,
        forall|i: int|
            0 <= i < messages.len() ==> match (#[trigger] messages[i]).content {
                ContentView::String(_) => true,
                ContentView::Blocks(blocks) => blocks.len() <= usize::MAX,
            },
    ensures
        message_spans(messages).contains(
            (CacheControlSpan {
                target: CacheControlTarget::MessageContent { message_idx, content_idx },
                marker,
            }),
        ) <==> block_is_marked(messages, message_idx, content_idx, marker),
    decreases messages.len(),
{
    let span = CacheControlSpan {
        target: CacheControlTarget::MessageContent { message_idx, content_idx },
        marker,
    };
    if messages.len() > 0 {
        let rest = messages.drop_last();
        let last = messages.len() - 1;
        assert forall|i: int| 0 <= i < rest.len() implies match (#[trigger] rest[i]).content {
            ContentView::String(_) => true,
            ContentView::Blocks(blocks) => blocks.len() <= usize::MAX,
        } by {
            assert(messages[i] == rest[i]);
        }
        message_places(rest, message_idx, content_idx, marker);
        let before = message_spans(rest);
        let added = spans_of_message(last, messages[last].content);
        let all = before + added;
        assert(all.contains(span) <==> before.contains(span) || added.contains(span)) by {
            contained_in_either(before, added, span);
        }
        match messages[last].content {
            ContentView::String(_) => {},
            ContentView::Blocks(blocks) => {
                let markers = markers_on(blocks);
                let m = Marked { index: content_idx, marker };
                marked_places(markers, m);
                let found = marked(markers);
                if added.contains(span) {
                    let i = choose|i: int| 0 <= i < added.len() && added[i] == span;
                    assert(found[i] == m);
                }
                if message_idx == last && found.contains(m) {
                    let i = choose|i: int| 0 <= i < found.len() && found[i] == m;
                    assert(added[i] == span);
                }
            },
        }
    }
}

proof fn contained_in_either(a: Seq<CacheControlSpan>, b: Seq<CacheControlSpan>, x: CacheControlSpan)
    ensures
        (a + b).contains(x) <==> a.contains(x) || b.contains(x),
{
    if a.contains(x) {
        let i = choose|i: int| 0 <= i < a.len() && a[i] == x;
        assert((a + b)[i] == x);
    }
    if b.contains(x) {
        let i = choose|i: int| 0 <= i < b.len() && b[i] == x;
        assert((a + b)[a.len() + i] == x);
    }
    if (a + b).contains(x) {
        let i = choose|i: int| 0 <= i < (a + b).len() && (a + b)[i] == x;
        if i < a.len() {
            assert(a[i] == x);
        } else {
            assert(b[i - a.len()] == x);
        }
    }
}

proof fn spans_by_part(request: RequestView, span: CacheControlSpan)
    ensures
        spans_of(request).contains(span) <==> match span.target {
            CacheControlTarget::SystemBlock { .. } => system_spans(request.system).contains(span),
            CacheControlTarget::MessageContent { .. } => message_spans(request.messages).contains(
                span,
            ),
            CacheControlTarget::Tool { .. } => tool_spans(request.tools).contains(span),
        },
{
    let system = system_spans(request.system);
    let messages = message_spans(request.messages);
    let tools = tool_spans(request.tools);
    contained_in_either(system + messages, tools, span);
    contained_in_either(system, messages, span);
    message_targets(request.messages);
}

proof fn message_targets(messages: Seq<MessageView>)
    ensures
        forall|i: int|
            0 <= i < message_spans(messages).len() ==> (#[trigger] message_spans(
                messages,
            )[i]).target is MessageContent,
    decreases messages.len(),
{
    if messages.len() > 0 {
        message_targets(messages.drop_last());
        let before = message_spans(messages.drop_last());
        let all = message_spans(messages);
        assert forall|i: int| 0 <= i < all.len() implies (#[trigger] all[i]).target
            is MessageContent by {
            if i < before.len() {
                assert(all[i] == before[i]);
            }
        }
    }
}

/// A cache marker on a block of a message reaches the engine with the place of
/// that block, and no other marker does.
pub proof fn message_markers_are_kept(
    request: RequestView,
    message_idx: usize,
    content_idx: usize,
    marker: AnthropicCacheControl,
)
    requires
        lists_fit(request),
    ensures
        spans_of(request).contains(
            (CacheControlSpan {
                target: CacheControlTarget::MessageContent { message_idx, content_idx },
                marker,
            }),
        ) <==> block_is_marked(request.messages, message_idx, content_idx, marker),
{
    spans_by_part(
        request,
        CacheControlSpan {
            target: CacheControlTarget::MessageContent { message_idx, content_idx },
            marker,
        },
    );
    message_places(request.messages, message_idx, content_idx, marker);
}

/// A cache marker on a block of the system prompt reaches the engine with the
/// place of that block, and no other marker does.
pub proof fn system_markers_are_kept(
    request: RequestView,
    block_idx: usize,
    marker: AnthropicCacheControl,
)
    requires
        lists_fit(request),
    ensures
        spans_of(request).contains(
            (CacheControlSpan { target: CacheControlTarget::SystemBlock { block_idx }, marker }),
        ) <==> match request.system {
            SystemView::String(_) => false,
            SystemView::Blocks(blocks) => block_idx < blocks.len()
                && blocks[block_idx as int].cache_control == Some(marker),
        },
{
    let span = CacheControlSpan { target: CacheControlTarget::SystemBlock { block_idx }, marker };
    spans_by_part(request, span);
    match request.system {
        SystemView::String(_) => {},
        SystemView::Blocks(blocks) => {
            let markers = system_markers(blocks);
            let m = Marked { index: block_idx, marker };
            marked_places(markers, m);
            let found = marked(markers);
            let spans = system_spans(request.system);
            if spans.contains(span) {
                let i = choose|i: int| 0 <= i < spans.len() && spans[i] == span;
                assert(found[i] == m);
            }
            if found.contains(m) {
                let i = choose|i: int| 0 <= i < found.len() && found[i] == m;
                assert(spans[i] == span);
            }
        },
    }
}

/// A cache marker on a tool reaches the engine with the place of that tool, and
/// no other marker does.
pub proof fn tool_markers_are_kept(
    request: RequestView,
    tool_idx: usize,
    marker: AnthropicCacheControl,
)
    requires
        lists_fit(request),
    ensures
        spans_of(request).contains(
            (CacheControlSpan { target: CacheControlTarget::Tool { tool_idx }, marker }),
        ) <==> match request.tools {
            None => false,
            Some(tools) => tool_idx < tools.len() && tools[tool_idx as int].cache_control == Some(
                marker,
            ),
        },
{
    let span = CacheControlSpan { target: CacheControlTarget::Tool { tool_idx }, marker };
    spans_by_part(request, span);
    match request.tools {
        None => {},
        Some(tools) => {
            let markers = tool_markers(tools);
            let m = Marked { index: tool_idx, marker };
            marked_places(markers, m);
            let found = marked(markers);
            let spans = tool_spans(request.tools);
            if spans.contains(span) {
                let i = choose|i: int| 0 <= i < spans.len() && spans[i] == span;
                assert(found[i] == m);
            }
            if found.contains(m) {
                let i = choose|i: int| 0 <= i < found.len() && found[i] == m;
                assert(spans[i] == span);
            }
        },
    }
}

// ---------------------------------------------------------------------------
// Tool names
// ---------------------------------------------------------------------------

/// Whether a block is a call of a tool with this ID.
pub open spec fn calls(block: BlockView, id: Seq<char>) -> bool {
    block is ToolUse && block->ToolUse_id == id
}

/// Whether a message calls a tool with this ID.
pub open spec fn message_calls(message: MessageView, id: Seq<char>) -> bool {
    match message.content {
        ContentView::String(_) => false,
        ContentView::Blocks(blocks) => exists|k: int|
            0 <= k < blocks.len() && calls(#[trigger] blocks[k], id),
    }
}

/// Whether every call with this ID in a message has this name.
pub open spec fn message_calls_only(message: MessageView, id: Seq<char>, name: Seq<char>) -> bool {
    match message.content {
        ContentView::String(_) => true,
        ContentView::Blocks(blocks) => forall|k: int|
            0 <= k < blocks.len() && calls(#[trigger] blocks[k], id) ==> blocks[k]->ToolUse_name
                == name,
    }
}

proof fn names_in_blocks(
    names: Map<Seq<char>, Seq<char>>,
    blocks: Seq<BlockView>,
    id: Seq<char>,
    name: Seq<char>,
)
    requires
        forall|k: int|
            0 <= k < blocks.len() && calls(#[trigger] blocks[k], id) ==> blocks[k]->ToolUse_name
                == name,
        names.dom().contains(id) ==> names[id] == name,
    ensures
        ({
            let all = names_with_blocks(names, blocks);
            &&& all.dom().contains(id) <==> names.dom().contains(id) || exists|k: int|
                0 <= k < blocks.len() && calls(#[trigger] blocks[k], id)
            &&& all.dom().contains(id) ==> all[id] == name
        }),
    decreases blocks.len(),
{
    if blocks.len() > 0 {
        let rest = blocks.drop_last();
        let last = blocks.len() - 1;
        assert forall|k: int| 0 <= k < rest.len() && calls(#[trigger] rest[k], id) implies rest[k]
            ->ToolUse_name == name by {
            assert(calls(blocks[k], id));
        }
        names_in_blocks(names, rest, id, name);
        assert(blocks[last] == blocks.last());
        if exists|k: int| 0 <= k < rest.len() && calls(#[trigger] rest[k], id) {
            let k = choose|k: int| 0 <= k < rest.len() && calls(#[trigger] rest[k], id);
            assert(calls(blocks[k], id));
        }
        if exists|k: int| 0 <= k < blocks.len() && calls(#[trigger] blocks[k], id) {
            let k = choose|k: int| 0 <= k < blocks.len() && calls(#[trigger] blocks[k], id);
            if k < last {
                assert(calls(rest[k], id));
            }
        }
    }
}

/// A tool result is given the name of the tool that its call names, wherever in
/// the conversation the call stands. A result of no call has an empty name.
pub proof fn tool_result_finds_its_call(messages: Seq<MessageView>, id: Seq<char>, name: Seq<char>)
    requires
        forall|i: int|
            0 <= i < messages.len() ==> message_calls_only(#[trigger] messages[i], id, name),
    ensures
        tool_names(messages).dom().contains(id) <==> exists|i: int|
            0 <= i < messages.len() && message_calls(#[trigger] messages[i], id),
        tool_names(messages).dom().contains(id) ==> tool_names(messages)[id] == name,
    decreases messages.len(),
{
    if messages.len() > 0 {
        let rest = messages.drop_last();
        let last = messages.len() - 1;
        assert forall|i: int| 0 <= i < rest.len() implies message_calls_only(
            #[trigger] rest[i],
            id,
            name,
        ) by {
            assert(messages[i] == rest[i]);
        }
        tool_result_finds_its_call(rest, id, name);
        assert(message_calls_only(messages[last], id, name));
        match messages[last].content {
            ContentView::String(_) => {},
            ContentView::Blocks(blocks) => {
                names_in_blocks(tool_names(rest), blocks, id, name);
            },
        }
        if exists|i: int| 0 <= i < rest.len() && message_calls(#[trigger] rest[i], id) {
            let i = choose|i: int| 0 <= i < rest.len() && message_calls(#[trigger] rest[i], id);
            assert(message_calls(messages[i], id));
        }
        if exists|i: int| 0 <= i < messages.len() && message_calls(#[trigger] messages[i], id) {
            let i = choose|i: int|
                0 <= i < messages.len() && message_calls(#[trigger] messages[i], id);
            if i < last {
                assert(message_calls(rest[i], id));
            }
        }
    }
}

// ---------------------------------------------------------------------------
// Refusals
// ---------------------------------------------------------------------------

proof fn block_refusals(
    blocks: Seq<BlockView>,
    k: int,
    names: Map<Seq<char>, Seq<char>>,
    refusals: Seq<RefusalView>,
)
    requires
        0 <= k < blocks.len(),
        none_refused(data_in_blocks(blocks), refusals),
    ensures
        content_of(blocks[k], names, refusals) == content_of(blocks[k], names, Seq::empty()),
    decreases blocks.len(),
{
    let rest = blocks.drop_last();
    let before = data_in_blocks(rest);
    let all = data_in_blocks(blocks);
    if k < rest.len() {
        assert forall|i: int| 0 <= i < before.len() implies refusal_of(
            refusals,
            (#[trigger] before[i]).0,
            before[i].1,
        ) is None by {
            assert(all[i] == before[i]);
        }
        block_refusals(rest, k, names, refusals);
    } else {
        let source = match blocks.last() {
            BlockView::Image { source, .. } => Some(source),
            BlockView::Document { source, .. } => Some(source),
            _ => None,
        };
        if let Some(SourceView::Base64 { media_type, data }) = source {
            assert(all[before.len() as int] == (media_type, data));
        }
    }
}

/// Whether the engine refuses none of some base64 data.
pub open spec fn none_refused(
    sources: Seq<(Seq<char>, Seq<char>)>,
    refusals: Seq<RefusalView>,
) -> bool {
    forall|i: int|
        0 <= i < sources.len() ==> refusal_of(refusals, (#[trigger] sources[i]).0, sources[i].1)
            is None
}

proof fn message_refusals(
    messages: Seq<MessageView>,
    i: int,
    names: Map<Seq<char>, Seq<char>>,
    refusals: Seq<RefusalView>,
)
    requires
        0 <= i < messages.len(),
        none_refused(data_in_messages(messages), refusals),
    ensures
        message_of(messages[i], names, refusals) == message_of(messages[i], names, Seq::empty()),
    decreases messages.len(),
{
    let rest = messages.drop_last();
    let before = data_in_messages(rest);
    let all = data_in_messages(messages);
    if i < rest.len() {
        assert forall|k: int| 0 <= k < before.len() implies refusal_of(
            refusals,
            (#[trigger] before[k]).0,
            before[k].1,
        ) is None by {
            assert(all[k] == before[k]);
        }
        message_refusals(rest, i, names, refusals);
    } else if let ContentView::Blocks(blocks) = messages.last().content {
        let data = data_in_blocks(blocks);
        assert forall|k: int| 0 <= k < data.len() implies refusal_of(
            refusals,
            (#[trigger] data[k]).0,
            data[k].1,
        ) is None by {
            assert(all[before.len() + k] == data[k]);
        }
        assert forall|k: int| 0 <= k < blocks.len() implies content_of(
            #[trigger] blocks[k],
            names,
            refusals,
        ) == content_of(blocks[k], names, Seq::empty()) by {
            block_refusals(blocks, k, names, refusals);
        }
        assert(content_results(blocks, names, refusals) =~= content_results(
            blocks,
            names,
            Seq::empty(),
        ));
    }
}

/// Only the base64 data that a request holds can be refused: where the engine
/// refuses none of it, the request is translated as if nothing were refused.
pub proof fn only_held_data_is_refused(request: RequestView, refusals: Seq<RefusalView>)
    requires
        none_refused(data_in_messages(request.messages), refusals),
    ensures
        params_of(request, refusals) == params_of(request, Seq::empty()),
{
    let names = tool_names(request.messages);
    let messages = request.messages;
    assert forall|i: int| 0 <= i < messages.len() implies message_of(
        #[trigger] messages[i],
        names,
        refusals,
    ) == message_of(messages[i], names, Seq::empty()) by {
        message_refusals(messages, i, names, refusals);
    }
    assert(message_results(messages, names, refusals) =~= message_results(
        messages,
        names,
        Seq::empty(),
    ));
}

// ---------------------------------------------------------------------------
// Conversations
// ---------------------------------------------------------------------------

/// What an item of a message is when a model answers with it.
pub open spec fn echoed(item: InputMessageContentView) -> Option<ContentBlockChatOutputView> {
    match item {
        InputMessageContentView::Text(t) => Some(ContentBlockChatOutputView::Text { text: t.text }),
        InputMessageContentView::ToolCall(c) => Some(
            ContentBlockChatOutputView::ToolCall {
                id: c.id,
                raw_name: c.name,
                raw_arguments: c.arguments,
            },
        ),
        InputMessageContentView::Thought(t) => Some(
            ContentBlockChatOutputView::Thought { text: t.text, signature: t.signature },
        ),
        InputMessageContentView::Unknown(u) => Some(
            ContentBlockChatOutputView::Unknown { data: u.data },
        ),
        _ => None,
    }
}

/// A block of a response can be sent back in the next request: what the model
/// said comes back to it as it said it. The input of a tool call does where its
/// text reads as that input.
pub proof fn answers_can_be_sent_back(
    block: BlockView,
    names: Map<Seq<char>, Seq<char>>,
    refusals: Seq<RefusalView>,
)
    requires
        block is Text || block is Thinking || block is RedactedThinking || block is ToolUse,
        block matches BlockView::ToolUse { input, .. } ==> reads_as(json_text(input), input),
    ensures
        content_of(block, names, refusals) matches Ok(item) && echoed(item) matches Some(output)
            && match (block, response_block(output)) {
            (BlockView::Text { text, .. }, ResponseBlockView::Text { text: back, .. }) => text
                == back,
            (
                BlockView::Thinking { thinking, signature },
                ResponseBlockView::Thinking { thinking: t, signature: s },
            ) => thinking == t && signature == s,
            (
                BlockView::RedactedThinking { data },
                ResponseBlockView::RedactedThinking { data: back },
            ) => data == back,
            (
                BlockView::ToolUse { id, name, input, .. },
                ResponseBlockView::ToolUse { id: i, name: n, input: back, .. },
            ) => id == i && name == n && input == back,
            _ => false,
        },
{
    match block {
        BlockView::Thinking { thinking, signature } => {
            if thinking.len() == 0 {
                assert(thinking =~= Seq::empty());
            }
            if signature.len() == 0 {
                assert(signature =~= Seq::empty());
            }
        },
        _ => {},
    }
}

// ---------------------------------------------------------------------------
// Model names
// ---------------------------------------------------------------------------

/// A request calls either a function or a model, never both and never neither.
pub proof fn a_request_has_one_target(model: Seq<char>)
    ensures
        route_of(model).function_name is Some <==> route_of(model).model_name is None,
{
}

/// A model name with a prefix calls what stands behind the prefix.
pub proof fn prefixed_names_are_routed(name: Seq<char>)
    ensures
        route_of("tensorzero::function_name::"@ + name) == (RouteView {
            function_name: Some(name),
            model_name: None,
        }),
        route_of("tensorzero::model_name::"@ + name) == (RouteView {
            function_name: None,
            model_name: Some(name),
        }),
{
    let f = "tensorzero::function_name::"@;
    let m = "tensorzero::model_name::"@;
    reveal_strlit("tensorzero::function_name::");
    reveal_strlit("tensorzero::model_name::");
    assert((f + name).subrange(0, f.len() as int) =~= f);
    assert((f + name).subrange(f.len() as int, (f + name).len() as int) =~= name);
    assert((m + name).subrange(0, m.len() as int) =~= m);
    assert((m + name).subrange(m.len() as int, (m + name).len() as int) =~= name);
    let start = (m + name).subrange(0, f.len() as int);
    assert(f[12] == 'f');
    assert(m[12] == 'm');
    if (m + name).len() >= f.len() {
        assert(start[12] == m[12]);
    }
}

} // verus!
