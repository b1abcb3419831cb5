//! What the engine is asked for, by the fields of the request.
use crate::inference::{
    CacheControlSpan, CacheControlTarget, FileView, InputMessageContentView, Role,
    SystemView as EngineSystemView, ToolChoiceView,
};
use crate::json::JsonView;
use crate::model::{collected, collected_all};
use crate::outside::{json_text, parsed_mime, parsed_url};
use crate::provider::AnthropicCacheControl;
use crate::types::into_params::{
    data_in_blocks, data_in_messages, data_of_source, lines, message_of, message_results,
    message_spans, names_with_blocks, spans_of, spans_of_message, system_markers, system_spans,
    system_texts, tool_markers, tool_names, tool_spans, translation,
};
use crate::types::messages::{
    AnthropicRoleOwned, AnthropicToolChoiceView, BlockView, ContentView, MessageView, RequestView,
    SourceView, SystemBlockView, SystemView,
};
use crate::types::translate::{
    RefusalView, content_of, content_results, marked, markers_on, refusal_of, tool_result_text,
};
use crate::types::translate_laws::lists_fit;
use vstd::prelude::*;

verus! {

// ---------------------------------------------------------------------------
// Tools
// ---------------------------------------------------------------------------

/// The engine is given the tools of the request, one for one and in order. Each has the
/// name, the schema, the description and the strictness of the request's tool; the
/// description is empty only where none is given, and the tool is not strict only where
/// it need not be.
pub proof fn tools_are_kept(request: RequestView, refusals: Seq<RefusalView>, k: int)
    requires
        translation(request, refusals) is Ok,
        request.tools is Some,
        0 <= k < request.tools->0.len(),
    ensures
        ({
            let given = request.tools->0;
            let tools = translation(request, refusals)->Ok_0.dynamic_tool_params.additional_tools;
            &&& tools is Some
            &&& tools->0.len() == given.len()
            &&& tools->0[k] is Function
            &&& tools->0[k]->Function_0.name == given[k].name
            &&& tools->0[k]->Function_0.parameters == given[k].parameters
            &&& match given[k].description {
                Some(text) => tools->0[k]->Function_0.description == text,
                None => tools->0[k]->Function_0.description.len() == 0,
            }
            &&& match given[k].strict {
                Some(strict) => tools->0[k]->Function_0.strict == strict,
                None => !tools->0[k]->Function_0.strict,
            }
        }),
{
}

/// The engine is given tools if and only if the request has some, and is told nothing
/// else about them.
pub proof fn tools_are_not_made_up(request: RequestView, refusals: Seq<RefusalView>)
    requires
        translation(request, refusals) is Ok,
    ensures
        ({
            let params = translation(request, refusals)->Ok_0.dynamic_tool_params;
            &&& params.additional_tools is Some <==> request.tools is Some
            &&& request.tools matches Some(given) ==> params.additional_tools->0.len()
                == given.len()
            &&& params.allowed_tools is None
            &&& params.provider_tools.len() == 0
        }),
{
}

/// The engine may, must or must not call a tool as the request says. Only a request that
/// asks for any tool allows parallel calls.
pub proof fn the_tool_choice_is_kept(request: RequestView, refusals: Seq<RefusalView>)
    requires
        translation(request, refusals) is Ok,
    ensures
        ({
            let params = translation(request, refusals)->Ok_0.dynamic_tool_params;
            match request.tool_choice {
                None => params.tool_choice is None && params.parallel_tool_calls is None,
                Some(AnthropicToolChoiceView::Auto { .. }) => params.tool_choice == Some(
                    ToolChoiceView::Auto,
                ) && params.parallel_tool_calls is None,
                Some(AnthropicToolChoiceView::Any { .. }) => params.tool_choice == Some(
                    ToolChoiceView::Required,
                ) && params.parallel_tool_calls == Some(true),
                Some(AnthropicToolChoiceView::Tool { name, .. }) => params.tool_choice == Some(
                    ToolChoiceView::Specific(name),
                ) && params.parallel_tool_calls is None,
                Some(AnthropicToolChoiceView::NoTool { .. }) => params.tool_choice == Some(
                    ToolChoiceView::NoTool,
                ) && params.parallel_tool_calls is None,
            }
        }),
{
}

// ---------------------------------------------------------------------------
// Route, parameters and metadata
// ---------------------------------------------------------------------------

/// The request calls what its model name stands for: the function or the model behind the
/// prefix, or the function of that name where there is no prefix.
pub proof fn the_model_name_is_the_route(request: RequestView, refusals: Seq<RefusalView>)
    requires
        translation(request, refusals) is Ok,
    ensures
        ({
            let params = translation(request, refusals)->Ok_0;
            let f = "tensorzero::function_name::"@;
            let m = "tensorzero::model_name::"@;
            &&& forall|name: Seq<char>|
                request.model == #[trigger] (f + name) ==> params.function_name == Some(name)
                    && params.model_name is None
            &&& forall|name: Seq<char>|
                request.model == #[trigger] (m + name) ==> params.model_name == Some(name)
                    && params.function_name is None
            &&& (forall|name: Seq<char>| request.model != #[trigger] (f + name)) && (forall|
                name: Seq<char>,
            | request.model != #[trigger] (m + name)) ==> params.function_name == Some(
                request.model,
            ) && params.model_name is None
        }),
{
    let f = "tensorzero::function_name::"@;
    let m = "tensorzero::model_name::"@;
    let model = request.model;
    reveal_strlit("tensorzero::function_name::");
    reveal_strlit("tensorzero::model_name::");
    assert(f[12] == 'f');
    assert(m[12] == 'm');
    let behind_f = model.skip(f.len() as int);
    let behind_m = model.skip(m.len() as int);
    assert forall|name: Seq<char>| model == #[trigger] (f + name) implies model.subrange(
        0,
        f.len() as int,
    ) == f && model.subrange(f.len() as int, model.len() as int) == name by {
        assert(model.subrange(0, f.len() as int) =~= f);
        assert(model.subrange(f.len() as int, model.len() as int) =~= name);
    }
    assert forall|name: Seq<char>| model == #[trigger] (m + name) implies model.subrange(
        0,
        m.len() as int,
    ) == m && model.subrange(m.len() as int, model.len() as int) == name && model[12] == 'm' by {
        assert(model.subrange(0, m.len() as int) =~= m);
        assert(model.subrange(m.len() as int, model.len() as int) =~= name);
        assert(model[12] == m[12]);
    }
    if model.len() >= f.len() && model.subrange(0, f.len() as int) == f {
        assert(model.subrange(0, f.len() as int)[12] == model[12]);
        assert(model =~= f + behind_f);
    }
    if model.len() >= m.len() && model.subrange(0, m.len() as int) == m {
        assert(model =~= m + behind_m);
    }
}

/// Each parameter of the completion is the one of the extension fields where they give
/// one, and else that of the request. A token limit of zero is none. Other parameters
/// come from the extension fields alone.
pub proof fn parameters_are_kept(request: RequestView, refusals: Seq<RefusalView>)
    requires
        translation(request, refusals) is Ok,
    ensures
        ({
            let chat = translation(request, refusals)->Ok_0.params.chat_completion;
            let given = match request.metadata {
                Some(metadata) => match metadata.tensorzero {
                    Some(extension) => extension.params,
                    None => None,
                },
                None => None,
            };
            match given {
                Some(params) => {
                    let own = params.chat_completion;
                    &&& own.temperature is Some ==> chat.temperature == own.temperature
                    &&& own.temperature is None ==> chat.temperature == request.temperature
                    &&& own.top_p is Some ==> chat.top_p == own.top_p
                    &&& own.top_p is None ==> chat.top_p == request.top_p
                    &&& own.stop_sequences is Some ==> chat.stop_sequences == own.stop_sequences
                    &&& own.stop_sequences is None ==> chat.stop_sequences
                        == request.stop_sequences
                    &&& own.max_tokens is Some ==> chat.max_tokens == own.max_tokens
                    &&& own.max_tokens is None && request.max_tokens > 0 ==> chat.max_tokens
                        == Some(request.max_tokens)
                    &&& own.max_tokens is None && request.max_tokens == 0
                        ==> chat.max_tokens is None
                    &&& chat.other == own.other
                },
                None => {
                    &&& chat.temperature == request.temperature
                    &&& chat.top_p == request.top_p
                    &&& chat.stop_sequences == request.stop_sequences
                    &&& request.max_tokens > 0 ==> chat.max_tokens == Some(request.max_tokens)
                    &&& request.max_tokens == 0 ==> chat.max_tokens is None
                    &&& chat.other.len() == 0
                },
            }
        }),
{
}

/// The extension fields reach the engine, each in its own place. Flags are stated only
/// where they are set.
pub proof fn extension_fields_are_kept(request: RequestView, refusals: Seq<RefusalView>)
    requires
        translation(request, refusals) is Ok,
    ensures
        ({
            let params = translation(request, refusals)->Ok_0;
            let given = match request.metadata {
                Some(metadata) => metadata.tensorzero,
                None => None,
            };
            match given {
                Some(extension) => {
                    &&& params.episode_id == extension.episode_id
                    &&& params.namespace == extension.namespace
                    &&& params.cache_options == extension.cache_options
                    &&& params.credentials == extension.credentials
                    &&& params.extra_body == extension.extra_body
                    &&& params.extra_headers == extension.extra_headers
                    &&& extension.dryrun == Some(true) ==> params.dryrun == Some(true)
                    &&& extension.dryrun != Some(true) ==> params.dryrun is None
                    &&& params.include_raw_usage <==> extension.include_raw_usage == Some(true)
                },
                None => {
                    &&& params.episode_id is None
                    &&& params.namespace is None
                    &&& params.cache_options is None
                    &&& forall|key: Seq<char>| !(#[trigger] params.credentials.dom().contains(key))
                    &&& params.extra_body is None
                    &&& params.extra_headers is None
                    &&& params.dryrun is None
                    &&& !params.include_raw_usage
                },
            }
        }),
{
}

/// The tags of the inference are those of the extension fields, and the user under
/// `tensorzero::user` where the request names one.
pub proof fn tags_are_kept(request: RequestView, refusals: Seq<RefusalView>, key: Seq<char>)
    requires
        translation(request, refusals) is Ok,
    ensures
        ({
            let tags = translation(request, refusals)->Ok_0.tags;
            let user = match request.metadata {
                Some(metadata) => metadata.user_id,
                None => None,
            };
            let given = match request.metadata {
                Some(metadata) => match metadata.tensorzero {
                    Some(extension) => Some(extension.tags),
                    None => None,
                },
                None => None,
            };
            if key == "tensorzero::user"@ && user is Some {
                tags.dom().contains(key) && tags[key] == user->0
            } else {
                match given {
                    Some(own) => {
                        &&& tags.dom().contains(key) <==> own.dom().contains(key)
                        &&& own.dom().contains(key) ==> tags[key] == own[key]
                    },
                    None => !tags.dom().contains(key),
                }
            }
        }),
{
}

/// The engine streams if and only if the request asks for it, and is asked for nothing
/// that a request cannot ask for.
pub proof fn only_what_is_asked_for(request: RequestView, refusals: Seq<RefusalView>)
    requires
        translation(request, refusals) is Ok,
    ensures
        ({
            let params = translation(request, refusals)->Ok_0;
            &&& request.stream ==> params.stream == Some(true)
            &&& !request.stream ==> params.stream is None
            &&& params.variant_name is None
            &&& !params.internal
            &&& params.output_schema is None
            &&& !params.include_original_response
            &&& !params.include_raw_response
            &&& !params.include_aggregated_response
            &&& params.internal_dynamic_variant_config is None
        }),
{
}

// ---------------------------------------------------------------------------
// System prompt
// ---------------------------------------------------------------------------

/// The texts of the blocks of a system prompt with line breaks between them.
pub open spec fn broken_lines(blocks: Seq<SystemBlockView>) -> Seq<char>
    decreases blocks.len(),
{
    if blocks.len() == 0 {
        Seq::empty()
    } else if blocks.len() == 1 {
        blocks[0].text
    } else {
        blocks[0].text + seq!['\n'] + broken_lines(blocks.skip(1))
    }
}

proof fn lines_are_broken(blocks: Seq<SystemBlockView>)
    ensures
        lines(system_texts(blocks)) == broken_lines(blocks),
    decreases blocks.len(),
{
    let texts = system_texts(blocks);
    if blocks.len() >= 2 {
        lines_are_broken(blocks.skip(1));
        lines_from_the_front(texts);
        assert(texts.skip(1) =~= system_texts(blocks.skip(1)));
    }
}

proof fn lines_from_the_front(texts: Seq<Seq<char>>)
    requires
        texts.len() >= 2,
    ensures
        lines(texts) == texts[0] + seq!['\n'] + lines(texts.skip(1)),
    decreases texts.len(),
{
    reveal_strlit("\n");
    assert("\n"@ =~= seq!['\n']);
    let front = texts.drop_last();
    if texts.len() == 2 {
        assert(front.len() == 1 && front[0] == texts[0]);
        assert(lines(front) == texts[0]);
        assert(lines(texts.skip(1)) == texts[1]);
        assert(lines(texts) == texts[0] + "\n"@ + texts[1]);
        assert(lines(texts) =~= texts[0] + seq!['\n'] + lines(texts.skip(1)));
    } else {
        lines_from_the_front(front);
        let back = texts.skip(1);
        assert(back.drop_last() =~= front.skip(1));
        assert(back.last() == texts.last());
        assert(front[0] == texts[0]);
        assert(lines(back) == lines(front.skip(1)) + "\n"@ + texts.last());
        assert(lines(texts) =~= texts[0] + seq!['\n'] + lines(texts.skip(1)));
    }
}

/// The engine is given the system prompt: the text, or the texts of the blocks, one to a
/// line. An empty prompt is none.
pub proof fn the_system_prompt_is_kept(request: RequestView, refusals: Seq<RefusalView>)
    requires
        translation(request, refusals) is Ok,
    ensures
        ({
            let system = translation(request, refusals)->Ok_0.input.system;
            let text = match request.system {
                SystemView::String(text) => text,
                SystemView::Blocks(blocks) => broken_lines(blocks),
            };
            &&& text.len() > 0 ==> system == Some(EngineSystemView::Text(text))
            &&& text.len() == 0 ==> system is None
        }),
{
    match request.system {
        SystemView::String(_) => {},
        SystemView::Blocks(blocks) => {
            lines_are_broken(blocks);
        },
    }
}

// ---------------------------------------------------------------------------
// Messages
// ---------------------------------------------------------------------------

/// Some texts with line breaks between them, behind what was joined before. No break
/// stands where nothing was joined.
pub open spec fn joined_lines(before: Seq<char>, content: Seq<BlockView>) -> Seq<char>
    decreases content.len(),
{
    if content.len() == 0 {
        before
    } else {
        let line = content[0]->Text_text;
        joined_lines(
            if before.len() == 0 {
                line
            } else {
                before + seq!['\n'] + line
            },
            content.skip(1),
        )
    }
}

/// Whether all blocks are texts.
pub open spec fn all_text(content: Seq<BlockView>) -> bool {
    forall|i: int| 0 <= i < content.len() ==> (#[trigger] content[i]) is Text
}

proof fn joined_from_the_back(before: Seq<char>, content: Seq<BlockView>)
    requires
        content.len() > 0,
    ensures
        joined_lines(before, content) == ({
            let head = joined_lines(before, content.drop_last());
            let line = content.last()->Text_text;
            if head.len() == 0 {
                line
            } else {
                head + seq!['\n'] + line
            }
        }),
    decreases content.len(),
{
    let rest = content.skip(1);
    let line = content[0]->Text_text;
    let next = if before.len() == 0 {
        line
    } else {
        before + seq!['\n'] + line
    };
    if content.len() == 1 {
        assert(rest =~= Seq::<BlockView>::empty());
        assert(content.drop_last() =~= Seq::<BlockView>::empty());
        assert(joined_lines(next, rest) == next);
    } else {
        joined_from_the_back(next, rest);
        assert(content.drop_last().skip(1) =~= rest.drop_last());
        assert(content.drop_last()[0] == content[0]);
        assert(rest.last() == content.last());
    }
}

proof fn result_is_joined(content: Seq<BlockView>)
    ensures
        tool_result_text(content) is Ok <==> all_text(content),
        tool_result_text(content) matches Ok(text) ==> text == joined_lines(Seq::empty(), content),
    decreases content.len(),
{
    reveal_strlit("\n");
    assert("\n"@ =~= seq!['\n']);
    if content.len() > 0 {
        let rest = content.drop_last();
        result_is_joined(rest);
        joined_from_the_back(Seq::empty(), content);
        if all_text(content) {
            assert forall|i: int| 0 <= i < rest.len() implies (#[trigger] rest[i]) is Text by {
                assert(content[i] is Text);
            }
            assert(content[content.len() - 1] is Text);
        }
        if all_text(rest) && content.last() is Text {
            assert forall|i: int| 0 <= i < content.len() implies (#[trigger] content[i])
                is Text by {
                if i < rest.len() {
                    assert(rest[i] is Text);
                }
            }
        }
    }
}

/// Whether the engine refuses some base64 data.
pub open spec fn is_refused(
    refusals: Seq<RefusalView>,
    media_type: Seq<char>,
    data: Seq<char>,
) -> bool {
    exists|i: int|
        0 <= i < refusals.len() && (#[trigger] refusals[i]).media_type == media_type
            && refusals[i].data == data
}

proof fn refusals_are_found(refusals: Seq<RefusalView>, media_type: Seq<char>, data: Seq<char>)
    ensures
        refusal_of(refusals, media_type, data) is Some <==> is_refused(refusals, media_type, data),
    decreases refusals.len(),
{
    if refusals.len() > 0 {
        let rest = refusals.skip(1);
        refusals_are_found(rest, media_type, data);
        if is_refused(rest, media_type, data) {
            let i = choose|i: int|
                0 <= i < rest.len() && (#[trigger] rest[i]).media_type == media_type && rest[i].data
                    == data;
            assert(refusals[i + 1] == rest[i]);
        }
        if is_refused(refusals, media_type, data) {
            let i = choose|i: int|
                0 <= i < refusals.len() && (#[trigger] refusals[i]).media_type == media_type
                    && refusals[i].data == data;
            if i > 0 {
                assert(rest[i - 1] == refusals[i]);
            }
        }
    }
}

/// Whether a source can be a file of the engine.
pub open spec fn is_file(source: SourceView, refusals: Seq<RefusalView>) -> bool {
    match source {
        SourceView::Base64 { media_type, data } => parsed_mime(media_type) is Some && !is_refused(
            refusals,
            media_type,
            data,
        ),
        SourceView::Url { url } => parsed_url(url) is Some,
    }
}

/// Whether the engine can be given a content block.
pub open spec fn can_be_given(block: BlockView, refusals: Seq<RefusalView>) -> bool {
    match block {
        BlockView::Image { source, .. } => is_file(source, refusals),
        BlockView::Document { source, .. } => is_file(source, refusals),
        BlockView::ToolResult { content, .. } => all_text(content),
        _ => true,
    }
}

/// Whether a file is the one of a source.
pub open spec fn is_file_of(file: FileView, source: SourceView) -> bool {
    match source {
        SourceView::Base64 { media_type, data } => {
            &&& file is Base64
            &&& file->Base64_0.data == data
            &&& parsed_mime(media_type) == Some(file->Base64_0.mime_type)
            &&& file->Base64_0.source_url is None
            &&& file->Base64_0.detail is None
            &&& file->Base64_0.filename is None
        },
        SourceView::Url { url } => {
            &&& file is Url
            &&& parsed_url(url) == Some(file->Url_0.url)
            &&& file->Url_0.mime_type is None
            &&& file->Url_0.detail is None
            &&& file->Url_0.filename is None
        },
    }
}

/// Whether an item of a message of the engine stands for a content block, whatever the
/// tool is that a result is of.
pub open spec fn stands_for(item: InputMessageContentView, block: BlockView) -> bool {
    match block {
        BlockView::Text { text, .. } => item is Text && item->Text_0.text == text,
        BlockView::Thinking { thinking, signature } => {
            &&& item is Thought
            &&& thinking.len() > 0 ==> item->Thought_0.text == Some(thinking)
            &&& thinking.len() == 0 ==> item->Thought_0.text is None
            &&& signature.len() > 0 ==> item->Thought_0.signature == Some(signature)
            &&& signature.len() == 0 ==> item->Thought_0.signature is None
            &&& item->Thought_0.summary is None
            &&& item->Thought_0.provider_type is None
            &&& item->Thought_0.extra_data is None
        },
        BlockView::RedactedThinking { data } => {
            &&& item is Unknown
            &&& item->Unknown_0.data == JsonView::String(data)
            &&& item->Unknown_0.model_name is None
            &&& item->Unknown_0.provider_name is None
        },
        BlockView::ToolUse { id, name: tool, input, .. } => {
            &&& item is ToolCall
            &&& item->ToolCall_0.id == id
            &&& item->ToolCall_0.name == tool
            &&& item->ToolCall_0.arguments == json_text(input)
        },
        BlockView::ToolResult { tool_use_id, content, .. } => {
            &&& item is ToolResult
            &&& item->ToolResult_0.id == tool_use_id
            &&& item->ToolResult_0.result == joined_lines(Seq::empty(), content)
        },
        BlockView::Image { source, .. } => item is File && is_file_of(item->File_0, source),
        BlockView::Document { source, .. } => item is File && is_file_of(item->File_0, source),
    }
}

/// The name of a tool in a table of names, empty where it has none.
spec fn name_in(names: Map<Seq<char>, Seq<char>>, id: Seq<char>) -> Seq<char> {
    if names.dom().contains(id) {
        names[id]
    } else {
        Seq::empty()
    }
}

proof fn block_is_given(
    block: BlockView,
    names: Map<Seq<char>, Seq<char>>,
    refusals: Seq<RefusalView>,
)
    ensures
        content_of(block, names, refusals) is Ok <==> can_be_given(block, refusals),
        content_of(block, names, refusals) matches Ok(item) ==> stands_for(item, block),
        block is ToolResult ==> (content_of(block, names, refusals) matches Ok(item)
            ==> item->ToolResult_0.name == name_in(names, block->ToolResult_tool_use_id)),
{
    match block {
        BlockView::Image { source: SourceView::Base64 { media_type, data }, .. } => {
            refusals_are_found(refusals, media_type, data);
        },
        BlockView::Document { source: SourceView::Base64 { media_type, data }, .. } => {
            refusals_are_found(refusals, media_type, data);
        },
        BlockView::ToolResult { content, .. } => {
            result_is_joined(content);
        },
        _ => {},
    }
}

proof fn collected_if_all<T, E>(results: Seq<Result<T, E>>)
    ensures
        collected(results) is Ok <==> forall|i: int|
            0 <= i < results.len() ==> (#[trigger] results[i]) is Ok,
    decreases results.len(),
{
    if results.len() > 0 {
        let rest = results.drop_last();
        collected_if_all(rest);
        if collected(results) is Ok {
            collected_all(results);
        }
        if forall|i: int| 0 <= i < results.len() ==> (#[trigger] results[i]) is Ok {
            assert forall|i: int| 0 <= i < rest.len() implies (#[trigger] rest[i]) is Ok by {
                assert(results[i] is Ok);
            }
            assert(results[results.len() - 1] is Ok);
        }
    }
}

/// Whether every block of a message can be given to the engine.
pub open spec fn message_can_be_given(message: MessageView, refusals: Seq<RefusalView>) -> bool {
    match message.content {
        ContentView::String(_) => true,
        ContentView::Blocks(blocks) => forall|j: int|
            0 <= j < blocks.len() ==> can_be_given(#[trigger] blocks[j], refusals),
    }
}

proof fn message_is_given(
    message: MessageView,
    names: Map<Seq<char>, Seq<char>>,
    refusals: Seq<RefusalView>,
)
    ensures
        message_of(message, names, refusals) is Ok <==> message_can_be_given(message, refusals),
{
    match message.content {
        ContentView::String(_) => {},
        ContentView::Blocks(blocks) => {
            let all = content_results(blocks, names, refusals);
            collected_if_all(all);
            assert forall|j: int| 0 <= j < blocks.len() implies (all[j] is Ok <==> can_be_given(
                #[trigger] blocks[j],
                refusals,
            )) by {
                block_is_given(blocks[j], names, refusals);
            }
            if forall|j: int| 0 <= j < blocks.len() ==> can_be_given(
                #[trigger] blocks[j],
                refusals,
            ) {
                assert forall|j: int| 0 <= j < all.len() implies (#[trigger] all[j]) is Ok by {
                    assert(can_be_given(blocks[j], refusals));
                }
            }
            if collected(all) is Ok {
                assert forall|j: int| 0 <= j < blocks.len() implies can_be_given(
                    #[trigger] blocks[j],
                    refusals,
                ) by {
                    assert(all[j] is Ok);
                }
            }
        },
    }
}

/// A request is translated if and only if it names a model, has messages, and every block
/// of every message can be given to the engine: files that the engine takes, and tool
/// results of texts alone.
pub proof fn requests_are_translated(request: RequestView, refusals: Seq<RefusalView>)
    ensures
        translation(request, refusals) is Ok <==> request.model.len() > 0 && request.messages.len()
            > 0 && forall|i: int|
            0 <= i < request.messages.len() ==> message_can_be_given(
                #[trigger] request.messages[i],
                refusals,
            ),
        translation(request, refusals) matches Err(error) ==> error.status == 400,
        request.model.len() == 0 ==> translation(request, refusals)->Err_0.message
            == "model is required"@,
        request.model.len() > 0 && request.messages.len() == 0 ==> translation(
            request,
            refusals,
        )->Err_0.message == "messages is required"@,
{
    let messages = request.messages;
    let names = tool_names(messages);
    let all = message_results(messages, names, refusals);
    collected_if_all(all);
    assert forall|i: int| 0 <= i < messages.len() implies (all[i] is Ok <==> message_can_be_given(
        #[trigger] messages[i],
        refusals,
    )) by {
        message_is_given(messages[i], names, refusals);
    }
    if forall|i: int| 0 <= i < messages.len() ==> message_can_be_given(
        #[trigger] messages[i],
        refusals,
    ) {
        assert forall|i: int| 0 <= i < all.len() implies (#[trigger] all[i]) is Ok by {
            assert(message_can_be_given(messages[i], refusals));
        }
    }
    if collected(all) is Ok {
        assert forall|i: int| 0 <= i < messages.len() implies message_can_be_given(
            #[trigger] messages[i],
            refusals,
        ) by {
            assert(all[i] is Ok);
        }
    }
}

/// Whether a block of some messages is a call with an ID, and no call behind it has that
/// ID.
pub open spec fn is_last_call(
    messages: Seq<MessageView>,
    i: int,
    j: int,
    id: Seq<char>,
    name: Seq<char>,
) -> bool {
    &&& 0 <= i < messages.len()
    &&& messages[i].content is Blocks
    &&& 0 <= j < messages[i].content->Blocks_0.len()
    &&& messages[i].content->Blocks_0[j] is ToolUse
    &&& messages[i].content->Blocks_0[j]->ToolUse_id == id
    &&& messages[i].content->Blocks_0[j]->ToolUse_name == name
    &&& no_call_from(messages[i], j + 1, id)
    &&& forall|k: int| i < k < messages.len() ==> no_call_from(#[trigger] messages[k], 0, id)
}

/// Whether no block of a message from a place on is a call with an ID.
pub open spec fn no_call_from(message: MessageView, from: int, id: Seq<char>) -> bool {
    message.content matches ContentView::Blocks(blocks) ==> forall|k: int|
        from <= k < blocks.len() && (#[trigger] blocks[k]) is ToolUse ==> blocks[k]->ToolUse_id != id
}

proof fn names_stay(names: Map<Seq<char>, Seq<char>>, blocks: Seq<BlockView>, id: Seq<char>)
    requires
        forall|k: int|
            0 <= k < blocks.len() && (#[trigger] blocks[k]) is ToolUse ==> blocks[k]->ToolUse_id
                != id,
    ensures
        names_with_blocks(names, blocks).dom().contains(id) <==> names.dom().contains(id),
        names.dom().contains(id) ==> names_with_blocks(names, blocks)[id] == names[id],
    decreases blocks.len(),
{
    if blocks.len() > 0 {
        let rest = blocks.drop_last();
        assert forall|k: int| 0 <= k < rest.len() && (#[trigger] rest[k]) is ToolUse implies rest[k]
            ->ToolUse_id != id by {
            assert(rest[k] == blocks[k]);
        }
        names_stay(names, rest, id);
        assert(blocks[blocks.len() - 1] == blocks.last());
    }
}

proof fn last_name_counts(
    names: Map<Seq<char>, Seq<char>>,
    blocks: Seq<BlockView>,
    j: int,
    id: Seq<char>,
)
    requires
        0 <= j < blocks.len(),
        blocks[j] is ToolUse,
        blocks[j]->ToolUse_id == id,
        forall|k: int|
            j < k < blocks.len() && (#[trigger] blocks[k]) is ToolUse ==> blocks[k]->ToolUse_id
                != id,
    ensures
        names_with_blocks(names, blocks).dom().contains(id),
        names_with_blocks(names, blocks)[id] == blocks[j]->ToolUse_name,
    decreases blocks.len(),
{
    if j < blocks.len() - 1 {
        let rest = blocks.drop_last();
        assert forall|k: int| j < k < rest.len() && (#[trigger] rest[k]) is ToolUse implies rest[k]
            ->ToolUse_id != id by {
            assert(rest[k] == blocks[k]);
        }
        last_name_counts(names, rest, j, id);
        assert(blocks[blocks.len() - 1] == blocks.last());
    }
}

proof fn last_call_names(
    messages: Seq<MessageView>,
    i: int,
    j: int,
    id: Seq<char>,
    name: Seq<char>,
)
    requires
        is_last_call(messages, i, j, id, name),
    ensures
        tool_names(messages).dom().contains(id),
        tool_names(messages)[id] == name,
    decreases messages.len(),
{
    let rest = messages.drop_last();
    let last = messages.len() - 1;
    if i == last {
        last_name_counts(tool_names(rest), messages[last].content->Blocks_0, j, id);
    } else {
        assert(rest[i] == messages[i]);
        assert forall|k: int| i < k < rest.len() implies no_call_from(
            #[trigger] rest[k],
            0,
            id,
        ) by {
            assert(rest[k] == messages[k]);
        }
        last_call_names(rest, i, j, id, name);
        assert(no_call_from(messages[last], 0, id));
        if let ContentView::Blocks(blocks) = messages[last].content {
            names_stay(tool_names(rest), blocks, id);
        }
    }
}

proof fn no_call_names(messages: Seq<MessageView>, id: Seq<char>)
    requires
        forall|k: int| 0 <= k < messages.len() ==> no_call_from(#[trigger] messages[k], 0, id),
    ensures
        !tool_names(messages).dom().contains(id),
    decreases messages.len(),
{
    if messages.len() > 0 {
        let rest = messages.drop_last();
        let last = messages.len() - 1;
        assert forall|k: int| 0 <= k < rest.len() implies no_call_from(
            #[trigger] rest[k],
            0,
            id,
        ) by {
            assert(rest[k] == messages[k]);
        }
        no_call_names(rest, id);
        assert(no_call_from(messages[last], 0, id));
        if let ContentView::Blocks(blocks) = messages[last].content {
            names_stay(tool_names(rest), blocks, id);
        }
    }
}

/// The engine is given the messages of the request, one for one and in order, each with
/// its role. A text is one item; the blocks are one item each, which stands for the block.
pub proof fn messages_are_kept(request: RequestView, refusals: Seq<RefusalView>, i: int)
    requires
        translation(request, refusals) is Ok,
        0 <= i < request.messages.len(),
    ensures
        ({
            let messages = translation(request, refusals)->Ok_0.input.messages;
            let given = request.messages[i];
            let made = messages[i];
            &&& messages.len() == request.messages.len()
            &&& given.role == AnthropicRoleOwned::User <==> made.role == Role::User
            &&& given.role == AnthropicRoleOwned::Assistant <==> made.role == Role::Assistant
            &&& match given.content {
                ContentView::String(text) => {
                    &&& made.content.len() == 1
                    &&& made.content[0] is Text
                    &&& made.content[0]->Text_0.text == text
                },
                ContentView::Blocks(blocks) => {
                    &&& made.content.len() == blocks.len()
                    &&& forall|j: int|
                        0 <= j < blocks.len() ==> stands_for(made.content[j], #[trigger] blocks[j])
                },
            }
        }),
{
    let names = tool_names(request.messages);
    let all = message_results(request.messages, names, refusals);
    collected_all(all);
    let messages = translation(request, refusals)->Ok_0.input.messages;
    assert(all[i] == Ok::<_, Seq<char>>(messages[i]));
    match request.messages[i].content {
        ContentView::String(_) => {},
        ContentView::Blocks(blocks) => {
            let items = content_results(blocks, names, refusals);
            collected_all(items);
            assert forall|j: int| 0 <= j < blocks.len() implies stands_for(
                messages[i].content[j],
                #[trigger] blocks[j],
            ) by {
                assert(items[j] == Ok::<_, Seq<char>>(messages[i].content[j]));
                block_is_given(blocks[j], names, refusals);
            }
        },
    }
}

/// A tool result is named after the last call in the conversation that has its ID, and has
/// no name where there is no such call.
pub proof fn results_are_named_after_their_call(
    request: RequestView,
    refusals: Seq<RefusalView>,
    i: int,
    j: int,
)
    requires
        translation(request, refusals) is Ok,
        0 <= i < request.messages.len(),
        request.messages[i].content is Blocks,
        0 <= j < request.messages[i].content->Blocks_0.len(),
        request.messages[i].content->Blocks_0[j] is ToolResult,
    ensures
        ({
            let item = translation(request, refusals)->Ok_0.input.messages[i].content[j];
            let id = request.messages[i].content->Blocks_0[j]->ToolResult_tool_use_id;
            &&& item is ToolResult
            &&& forall|a: int, b: int, name: Seq<char>| #[trigger]
                is_last_call(request.messages, a, b, id, name) ==> item->ToolResult_0.name == name
            &&& (forall|k: int|
                0 <= k < request.messages.len() ==> no_call_from(
                    #[trigger] request.messages[k],
                    0,
                    id,
                )) ==> item->ToolResult_0.name.len() == 0
        }),
{
    let names = tool_names(request.messages);
    let all = message_results(request.messages, names, refusals);
    collected_all(all);
    let messages = translation(request, refusals)->Ok_0.input.messages;
    assert(all[i] == Ok::<_, Seq<char>>(messages[i]));
    let blocks = request.messages[i].content->Blocks_0;
    let items = content_results(blocks, names, refusals);
    collected_all(items);
    assert(items[j] == Ok::<_, Seq<char>>(messages[i].content[j]));
    block_is_given(blocks[j], names, refusals);
    let item = messages[i].content[j];
    let id = blocks[j]->ToolResult_tool_use_id;
    assert forall|a: int, b: int, name: Seq<char>| #[trigger]
        is_last_call(request.messages, a, b, id, name) implies item->ToolResult_0.name == name by {
        last_call_names(request.messages, a, b, id, name);
    }
    if forall|k: int|
        0 <= k < request.messages.len() ==> no_call_from(#[trigger] request.messages[k], 0, id) {
        no_call_names(request.messages, id);
    }
}

// ---------------------------------------------------------------------------
// Refused requests
// ---------------------------------------------------------------------------

/// Whether a refusal is the first of some base64 data.
pub open spec fn is_first_refusal(
    refusals: Seq<RefusalView>,
    k: int,
    media_type: Seq<char>,
    data: Seq<char>,
) -> bool {
    &&& 0 <= k < refusals.len()
    &&& refusals[k].media_type == media_type
    &&& refusals[k].data == data
    &&& forall|i: int|
        0 <= i < k ==> !((#[trigger] refusals[i]).media_type == media_type && refusals[i].data
            == data)
}

proof fn first_refusal_counts(
    refusals: Seq<RefusalView>,
    k: int,
    media_type: Seq<char>,
    data: Seq<char>,
)
    requires
        is_first_refusal(refusals, k, media_type, data),
    ensures
        refusal_of(refusals, media_type, data) == Some(refusals[k].reason),
    decreases refusals.len(),
{
    if k > 0 {
        let rest = refusals.skip(1);
        assert(rest[k - 1] == refusals[k]);
        assert forall|i: int| 0 <= i < k - 1 implies !((#[trigger] rest[i]).media_type == media_type
            && rest[i].data == data) by {
            assert(rest[i] == refusals[i + 1]);
        }
        first_refusal_counts(rest, k - 1, media_type, data);
        assert(!(refusals[0].media_type == media_type && refusals[0].data == data));
    }
}

/// A complaint about a source, where `what` is the kind of file that it should be.
pub open spec fn complains_of_source(
    message: Seq<char>,
    source: SourceView,
    refusals: Seq<RefusalView>,
    bad_mime: Seq<char>,
    bad_data: Seq<char>,
    bad_url: Seq<char>,
) -> bool {
    match source {
        SourceView::Base64 { media_type, data } => if parsed_mime(media_type) is None {
            message == bad_mime + "`"@ + media_type + "`"@
        } else {
            forall|k: int| #[trigger]
                is_first_refusal(refusals, k, media_type, data) ==> message == bad_data
                    + refusals[k].reason
        },
        SourceView::Url { url } => message == bad_url + "`"@ + url + "`"@,
    }
}

/// The name of the kind of a block.
pub open spec fn kind_name(block: BlockView) -> Seq<char> {
    match block {
        BlockView::Text { .. } => "text"@,
        BlockView::Image { .. } => "image"@,
        BlockView::Document { .. } => "document"@,
        BlockView::ToolUse { .. } => "tool_use"@,
        BlockView::ToolResult { .. } => "tool_result"@,
        BlockView::Thinking { .. } => "thinking"@,
        BlockView::RedactedThinking { .. } => "redacted_thinking"@,
    }
}

/// Whether a message says why the engine cannot be given a block.
pub open spec fn complains_of(
    message: Seq<char>,
    block: BlockView,
    refusals: Seq<RefusalView>,
) -> bool {
    match block {
        BlockView::Image { source, .. } => complains_of_source(
            message,
            source,
            refusals,
            "Invalid MIME type in base64 image: "@,
            "Invalid base64 image data: "@,
            "Invalid URL in image content block: "@,
        ),
        BlockView::Document { source, .. } => complains_of_source(
            message,
            source,
            refusals,
            "Invalid MIME type in base64 document: "@,
            "Invalid base64 document data: "@,
            "Invalid URL in document content block: "@,
        ),
        BlockView::ToolResult { content, .. } => forall|k: int|
            0 <= k < content.len() && !((#[trigger] content[k]) is Text) && all_text(
                content.take(k),
            ) ==> message == "Unsupported content block type '"@ + kind_name(content[k])
                + "' inside tool_result; only Text blocks are supported"@,
        _ => false,
    }
}

proof fn first_bad_content(content: Seq<BlockView>, k: int)
    requires
        0 <= k < content.len(),
        !(content[k] is Text),
        all_text(content.take(k)),
    ensures
        tool_result_text(content) == Err::<Seq<char>, Seq<char>>(
            "Unsupported content block type '"@ + kind_name(content[k])
                + "' inside tool_result; only Text blocks are supported"@,
        ),
    decreases content.len(),
{
    let rest = content.drop_last();
    if k < content.len() - 1 {
        assert(rest.take(k) =~= content.take(k));
        first_bad_content(rest, k);
    } else {
        assert(rest =~= content.take(k));
        result_is_joined(rest);
    }
}

proof fn block_is_complained_of(
    block: BlockView,
    names: Map<Seq<char>, Seq<char>>,
    refusals: Seq<RefusalView>,
)
    requires
        !can_be_given(block, refusals),
    ensures
        content_of(block, names, refusals) matches Err(message) && complains_of(
            message,
            block,
            refusals,
        ),
{
    block_is_given(block, names, refusals);
    let message = content_of(block, names, refusals)->Err_0;
    match block {
        BlockView::Image { source: SourceView::Base64 { media_type, data }, .. } => {
            assert forall|k: int| #[trigger]
                is_first_refusal(refusals, k, media_type, data) implies refusal_of(
                refusals,
                media_type,
                data,
            ) == Some(refusals[k].reason) by {
                first_refusal_counts(refusals, k, media_type, data);
            }
        },
        BlockView::Document { source: SourceView::Base64 { media_type, data }, .. } => {
            assert forall|k: int| #[trigger]
                is_first_refusal(refusals, k, media_type, data) implies refusal_of(
                refusals,
                media_type,
                data,
            ) == Some(refusals[k].reason) by {
                first_refusal_counts(refusals, k, media_type, data);
            }
        },
        BlockView::ToolResult { content, .. } => {
            assert forall|k: int|
                0 <= k < content.len() && !((#[trigger] content[k]) is Text) && all_text(
                    content.take(k),
                ) implies message == "Unsupported content block type '"@ + kind_name(content[k])
                + "' inside tool_result; only Text blocks are supported"@ by {
                first_bad_content(content, k);
            }
        },
        _ => {},
    }
}

proof fn first_error_counts<T, E>(results: Seq<Result<T, E>>, n: int)
    requires
        0 <= n < results.len(),
        results[n] is Err,
        forall|k: int| 0 <= k < n ==> (#[trigger] results[k]) is Ok,
    ensures
        collected(results) == Err::<Seq<T>, E>(results[n]->Err_0),
    decreases results.len(),
{
    let rest = results.drop_last();
    if n < results.len() - 1 {
        assert forall|k: int| 0 <= k < n implies (#[trigger] rest[k]) is Ok by {
            assert(results[k] is Ok);
        }
        first_error_counts(rest, n);
    } else {
        assert forall|k: int| 0 <= k < rest.len() implies (#[trigger] rest[k]) is Ok by {
            assert(results[k] is Ok);
        }
        collected_if_all(rest);
    }
}

/// A request with blocks that the engine cannot be given is refused because of the first
/// of them, and the error says what is wrong with that block.
pub proof fn the_first_bad_block_is_named(
    request: RequestView,
    refusals: Seq<RefusalView>,
    i: int,
    j: int,
)
    requires
        request.model.len() > 0,
        0 <= i < request.messages.len(),
        request.messages[i].content is Blocks,
        0 <= j < request.messages[i].content->Blocks_0.len(),
        !can_be_given(request.messages[i].content->Blocks_0[j], refusals),
        forall|k: int|
            0 <= k < j ==> can_be_given(
                #[trigger] request.messages[i].content->Blocks_0[k],
                refusals,
            ),
        forall|k: int|
            0 <= k < i ==> message_can_be_given(#[trigger] request.messages[k], refusals),
    ensures
        translation(request, refusals) matches Err(error) && error.status == 400 && complains_of(
            error.message,
            request.messages[i].content->Blocks_0[j],
            refusals,
        ),
{
    let messages = request.messages;
    let names = tool_names(messages);
    let blocks = messages[i].content->Blocks_0;
    let items = content_results(blocks, names, refusals);
    assert forall|k: int| 0 <= k < j implies (#[trigger] items[k]) is Ok by {
        block_is_given(blocks[k], names, refusals);
    }
    block_is_complained_of(blocks[j], names, refusals);
    first_error_counts(items, j);
    let all = message_results(messages, names, refusals);
    assert forall|k: int| 0 <= k < i implies (#[trigger] all[k]) is Ok by {
        assert(message_can_be_given(messages[k], refusals));
        message_is_given(messages[k], names, refusals);
    }
    assert(all[i] == message_of(messages[i], names, refusals));
    first_error_counts(all, i);
}

// ---------------------------------------------------------------------------
// Base64 data and cache markers
// ---------------------------------------------------------------------------

/// Whether a block holds some base64 data.
pub open spec fn holds_data(block: BlockView, media_type: Seq<char>, data: Seq<char>) -> bool {
    match block {
        BlockView::Image { source, .. } => source == SourceView::Base64 { media_type, data },
        BlockView::Document { source, .. } => source == SourceView::Base64 { media_type, data },
        _ => false,
    }
}

/// Whether a message holds some base64 data.
pub open spec fn message_holds_data(
    message: MessageView,
    media_type: Seq<char>,
    data: Seq<char>,
) -> bool {
    match message.content {
        ContentView::String(_) => false,
        ContentView::Blocks(blocks) => exists|j: int|
            0 <= j < blocks.len() && holds_data(#[trigger] blocks[j], media_type, data),
    }
}

proof fn in_either<A>(a: Seq<A>, b: Seq<A>, x: A)
    ensures
        (a + b).contains(x) <==> a.contains(x) || b.contains(x),
{
    if a.contains(x) {
        let i = choose|i: int| 0 <= i < a.len() && a[i] == x;
        assert((a + b)[i] == x);
    }
    if b.contains(x) {
        let i = choose|i: int| 0 <= i < b.len() && b[i] == x;
        assert((a + b)[a.len() + i] == x);
    }
    if (a + b).contains(x) {
        let i = choose|i: int| 0 <= i < (a + b).len() && (a + b)[i] == x;
        if i < a.len() {
            assert(a[i] == x);
        } else {
            assert(b[i - a.len()] == x);
        }
    }
}

proof fn source_data(source: SourceView, media_type: Seq<char>, data: Seq<char>)
    ensures
        data_of_source(source).contains((media_type, data)) <==> source == (SourceView::Base64 {
            media_type,
            data,
        }),
{
    if let SourceView::Base64 { media_type: m, data: d } = source {
        assert(data_of_source(source)[0] == (m, d));
    }
}

proof fn blocks_data(blocks: Seq<BlockView>, media_type: Seq<char>, data: Seq<char>)
    ensures
        data_in_blocks(blocks).contains((media_type, data)) <==> exists|j: int|
            0 <= j < blocks.len() && holds_data(#[trigger] blocks[j], media_type, data),
    decreases blocks.len(),
{
    if blocks.len() > 0 {
        let rest = blocks.drop_last();
        let last = blocks.len() - 1;
        blocks_data(rest, media_type, data);
        let own = match blocks.last() {
            BlockView::Image { source, .. } => data_of_source(source),
            BlockView::Document { source, .. } => data_of_source(source),
            _ => Seq::empty(),
        };
        in_either(data_in_blocks(rest), own, (media_type, data));
        match blocks.last() {
            BlockView::Image { source, .. } => source_data(source, media_type, data),
            BlockView::Document { source, .. } => source_data(source, media_type, data),
            _ => {},
        }
        assert(own.contains((media_type, data)) <==> holds_data(blocks[last], media_type, data));
        if exists|j: int| 0 <= j < rest.len() && holds_data(#[trigger] rest[j], media_type, data) {
            let j = choose|j: int|
                0 <= j < rest.len() && holds_data(#[trigger] rest[j], media_type, data);
            assert(holds_data(blocks[j], media_type, data));
        }
        if exists|j: int|
            0 <= j < blocks.len() && holds_data(#[trigger] blocks[j], media_type, data) {
            let j = choose|j: int|
                0 <= j < blocks.len() && holds_data(#[trigger] blocks[j], media_type, data);
            if j < last {
                assert(holds_data(rest[j], media_type, data));
            }
        }
    }
}

/// The engine is asked about the base64 data of the images and documents in the messages,
/// and about no other data.
pub proof fn all_data_is_checked(
    messages: Seq<MessageView>,
    media_type: Seq<char>,
    data: Seq<char>,
)
    ensures
        data_in_messages(messages).contains((media_type, data)) <==> exists|i: int|
            0 <= i < messages.len() && message_holds_data(
                #[trigger] messages[i],
                media_type,
                data,
            ),
    decreases messages.len(),
{
    if messages.len() > 0 {
        let rest = messages.drop_last();
        let last = messages.len() - 1;
        all_data_is_checked(rest, media_type, data);
        let own = match messages.last().content {
            ContentView::Blocks(blocks) => data_in_blocks(blocks),
            ContentView::String(_) => Seq::empty(),
        };
        in_either(data_in_messages(rest), own, (media_type, data));
        if let ContentView::Blocks(blocks) = messages.last().content {
            blocks_data(blocks, media_type, data);
        }
        assert(own.contains((media_type, data)) <==> message_holds_data(
            messages[last],
            media_type,
            data,
        ));
        if exists|i: int|
            0 <= i < rest.len() && message_holds_data(#[trigger] rest[i], media_type, data) {
            let i = choose|i: int|
                0 <= i < rest.len() && message_holds_data(#[trigger] rest[i], media_type, data);
            assert(message_holds_data(messages[i], media_type, data));
        }
        if exists|i: int|
            0 <= i < messages.len() && message_holds_data(
                #[trigger] messages[i],
                media_type,
                data,
            ) {
            let i = choose|i: int|
                0 <= i < messages.len() && message_holds_data(
                    #[trigger] messages[i],
                    media_type,
                    data,
                );
            if i < last {
                assert(message_holds_data(rest[i], media_type, data));
            }
        }
    }
}

/// The cache markers of a request reach the engine.
pub proof fn the_markers_are_sent(request: RequestView, refusals: Seq<RefusalView>)
    requires
        translation(request, refusals) is Ok,
    ensures
        translation(request, refusals)->Ok_0.cache_control_spans == spans_of(request),
{
}

/// Whether a target stands before another: those of the system prompt before those of the
/// messages, and those before the tools, each in the order of the request.
pub open spec fn stands_before(a: CacheControlTarget, b: CacheControlTarget) -> bool {
    match (a, b) {
        (
            CacheControlTarget::SystemBlock { block_idx: i },
            CacheControlTarget::SystemBlock { block_idx: j },
        ) => i < j,
        (CacheControlTarget::SystemBlock { .. }, _) => true,
        (
            CacheControlTarget::MessageContent { message_idx: i, content_idx: k },
            CacheControlTarget::MessageContent { message_idx: j, content_idx: l },
        ) => i < j || i == j && k < l,
        (CacheControlTarget::MessageContent { .. }, CacheControlTarget::Tool { .. }) => true,
        (CacheControlTarget::Tool { tool_idx: i }, CacheControlTarget::Tool { tool_idx: j }) => i
            < j,
        _ => false,
    }
}

/// Whether each of some spans stands before those that follow it.
pub open spec fn in_order(spans: Seq<CacheControlSpan>) -> bool {
    forall|a: int, b: int|
        0 <= a < b < spans.len() ==> stands_before(
            (#[trigger] spans[a]).target,
            (#[trigger] spans[b]).target,
        )
}

proof fn marked_in_order(markers: Seq<Option<AnthropicCacheControl>>)
    requires
        markers.len() <= usize::MAX,
    ensures
        forall|a: int|
            0 <= a < marked(markers).len() ==> (#[trigger] marked(markers)[a]).index
                < markers.len(),
        forall|a: int, b: int|
            0 <= a < b < marked(markers).len() ==> (#[trigger] marked(markers)[a]).index < (
            #[trigger] marked(markers)[b]).index,
    decreases markers.len(),
{
    if markers.len() > 0 {
        marked_in_order(markers.drop_last());
    }
}

proof fn message_spans_in_order(messages: Seq<MessageView>)
    requires
        messages.len() <= usize::MAX,
        forall|i: int|
            0 <= i < messages.len() ==> ((#[trigger] messages[i]).content matches
                ContentView::Blocks(blocks) ==> blocks.len() <= usize::MAX),
    ensures
        in_order(message_spans(messages)),
        forall|a: int|
            0 <= a < message_spans(messages).len() ==> (#[trigger] message_spans(messages)[a]).target
                is MessageContent && message_spans(messages)[a].target->message_idx
                < messages.len(),
    decreases messages.len(),
{
    if messages.len() > 0 {
        let rest = messages.drop_last();
        let last = messages.len() - 1;
        assert forall|i: int| 0 <= i < rest.len() implies ((#[trigger] rest[i]).content matches
            ContentView::Blocks(blocks) ==> blocks.len() <= usize::MAX) by {
            assert(rest[i] == messages[i]);
        }
        message_spans_in_order(rest);
        assert(messages[last] == messages.last());
        let before = message_spans(rest);
        let own = spans_of_message(last, messages.last().content);
        if let ContentView::Blocks(blocks) = messages.last().content {
            marked_in_order(markers_on(blocks));
        }
        assert(message_spans(messages) == before + own);
        assert forall|a: int| 0 <= a < own.len() implies (#[trigger] own[a]).target
            is MessageContent && own[a].target->message_idx == last by {
        }
    }
}

/// The cache markers reach the engine in the order of the request, none of them twice.
pub proof fn markers_are_in_order(request: RequestView)
    requires
        lists_fit(request),
    ensures
        in_order(spans_of(request)),
{
    let system = system_spans(request.system);
    let messages = message_spans(request.messages);
    let tools = tool_spans(request.tools);
    message_spans_in_order(request.messages);
    if let SystemView::Blocks(blocks) = request.system {
        marked_in_order(system_markers(blocks));
    }
    if let Some(list) = request.tools {
        marked_in_order(tool_markers(list));
    }
    assert forall|a: int| 0 <= a < system.len() implies (#[trigger] system[a]).target
        is SystemBlock by {
    }
    assert forall|a: int| 0 <= a < tools.len() implies (#[trigger] tools[a]).target is Tool by {
    }
}

} // verus!
