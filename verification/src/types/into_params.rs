//! The request to the inference engine that a request stands for.
use crate::error::{Error, ErrorView, invalid};
use crate::inference::{
    CacheControlSpan, CacheControlTarget, ChatCompletionInferenceParams,
    ChatCompletionInferenceParamsView, DynamicToolParams, DynamicToolParamsView, FunctionTool,
    FunctionToolView, InferenceParams, InferenceParamsView, Input, InputMessage,
    InputMessageContent, InputMessageContentView, InputMessageView, InputView, Params, ParamsView,
    Role, System, SystemView as EngineSystemView, Text, TextView, Tool, ToolView,
};
use crate::json::Json;
use crate::model::{collected, collected_next, nonempty, or_else, or_value, outcome, so_far};
use crate::provider::AnthropicCacheControl;
use crate::string_map::StringMap;
use crate::text::{after_prefix, joined, owned, strip_prefix};
use crate::types::messages::{
    AnthropicContentBlockOwned, AnthropicDocumentSourceOwned, AnthropicImageSourceOwned,
    AnthropicMessageContentOwned, AnthropicMessageOwned, AnthropicMessagesParams,
    AnthropicRoleOwned, AnthropicSystem, AnthropicSystemContentBlockOwned,
    AnthropicTensorZeroMetadata, AnthropicToolChoiceOwned, AnthropicToolChoiceView,
    AnthropicToolOwned, AnthropicToolView, BlockView, ContentView, ExtensionView, MessageView,
    MetadataView, RequestView, SourceView, SystemBlockView, SystemView, no_extension,
};
use crate::types::metadata_reader::no_chat_params;
use crate::types::translate::{
    Base64Refusal, Marked, RefusalView, blocks_into_input_content, content_results, marked,
    markers_on, tool_choice_of, tool_choice_owned_to_internal,
};
use vstd::prelude::*;

verus! {

// ---------------------------------------------------------------------------
// Model name
// ---------------------------------------------------------------------------

/// What a model name stands for: the function, or else the model, to call.
pub struct RouteView {
    pub function_name: Option<Seq<char>>,
    pub model_name: Option<Seq<char>>,
}

/// What a model name stands for. A name without a prefix names a function.
pub open spec fn route_of(model: Seq<char>) -> RouteView {
    match after_prefix(model, "tensorzero::function_name::"@) {
        Some(name) => RouteView { function_name: Some(name), model_name: None },
        None => match after_prefix(model, "tensorzero::model_name::"@) {
            Some(name) => RouteView { function_name: None, model_name: Some(name) },
            None => RouteView { function_name: Some(model), model_name: None },
        },
    }
}

/// The function, or else the model, to call.
#[derive(Debug)]
pub struct Route {
    pub function_name: Option<String>,
    pub model_name: Option<String>,
}

impl DeepView for Route {
    type V = RouteView;

    open spec fn deep_view(&self) -> RouteView {
        RouteView {
            function_name: self.function_name.deep_view(),
            model_name: self.model_name.deep_view(),
        }
    }
}

impl Route {
    /// What a model name stands for.
    pub fn of_model(model: &str) -> (r: Route)
        ensures
            r.deep_view() == route_of(model@),
    {
        match strip_prefix(model, "tensorzero::function_name::") {
            Some(name) => Route { function_name: Some(name), model_name: None },
            None => match strip_prefix(model, "tensorzero::model_name::") {
                Some(name) => Route { function_name: None, model_name: Some(name) },
                None => Route { function_name: Some(owned(model)), model_name: None },
            },
        }
    }
}

// ---------------------------------------------------------------------------
// System prompt
// ---------------------------------------------------------------------------

/// Texts, one to a line.
pub open spec fn lines(texts: Seq<Seq<char>>) -> Seq<char>
    decreases texts.len(),
{
    if texts.len() == 0 {
        Seq::empty()
    } else if texts.len() == 1 {
        texts[0]
    } else {
        lines(texts.drop_last()) + "\n"@ + texts.last()
    }
}

/// The texts of the blocks of a system prompt.
pub open spec fn system_texts(blocks: Seq<SystemBlockView>) -> Seq<Seq<char>> {
    blocks.map_values(|b: SystemBlockView| b.text)
}

/// The cache markers on the blocks of a system prompt.
pub open spec fn system_markers(blocks: Seq<SystemBlockView>) -> Seq<
    Option<AnthropicCacheControl>,
> {
    blocks.map_values(|b: SystemBlockView| b.cache_control)
}

/// What a system prompt becomes: nothing where it is empty.
pub open spec fn system_of(system: SystemView) -> Option<EngineSystemView> {
    let text = match system {
        SystemView::String(s) => s,
        SystemView::Blocks(blocks) => lines(system_texts(blocks)),
    };
    match nonempty(text) {
        Some(s) => Some(EngineSystemView::Text(s)),
        None => None,
    }
}

/// The cache markers of a system prompt.
pub open spec fn system_spans(system: SystemView) -> Seq<CacheControlSpan> {
    match system {
        SystemView::String(_) => Seq::empty(),
        SystemView::Blocks(blocks) => marked(system_markers(blocks)).map_values(
            |m: Marked| system_span(m),
        ),
    }
}

/// A cache marker on a block of the system prompt.
pub open spec fn system_span(m: Marked) -> CacheControlSpan {
    CacheControlSpan {
        target: CacheControlTarget::SystemBlock { block_idx: m.index },
        marker: m.marker,
    }
}

impl AnthropicSystem {
    fn text(&self) -> (r: String)
        ensures
            r@ == (match self.deep_view() {
                SystemView::String(s) => s,
                SystemView::Blocks(blocks) => lines(system_texts(blocks)),
            }),
    {
        match self {
            AnthropicSystem::String(s) => s.clone(),
            AnthropicSystem::Blocks(blocks) => {
                let ghost all = system_texts(blocks.deep_view());
                let mut text: String = String::new();
                assert(text@ =~= Seq::empty());
                let n: usize = blocks.len();
                for i in 0..n
                    invariant
                        n == blocks@.len(),
                        all == system_texts(blocks.deep_view()),
                        text@ == lines(all.take(i as int)),
                {
                    let AnthropicSystemContentBlockOwned::Text { text: line, .. } = &blocks[i];
                    assert(all[i as int] == line@);
                    assert(all.take(i + 1).drop_last() =~= all.take(i as int));
                    if i == 0 {
                        text = line.clone();
                    } else {
                        let broken: String = joined(text.as_str(), "\n");
                        text = joined(broken.as_str(), line.as_str());
                    }
                }
                assert(all.take(n as int) =~= all);
                text
            },
        }
    }

    /// What the system prompt becomes.
    fn engine_system(&self) -> (r: Option<System>)
        ensures
            r.deep_view() == system_of(self.deep_view()),
    {
        let text: String = self.text();
        if text.as_str().is_empty() {
            None
        } else {
            Some(System::Text(text))
        }
    }

    /// Adds the cache markers of the system prompt.
    fn push_spans(&self, spans: &mut Vec<CacheControlSpan>)
        ensures
            final(spans)@ == old(spans)@ + system_spans(self.deep_view()),
    {
        match self {
            AnthropicSystem::String(_) => {
                assert(spans@ + Seq::empty() =~= spans@);
            },
            AnthropicSystem::Blocks(blocks) => {
                let ghost views = blocks.deep_view();
                let ghost all = system_markers(views);
                let n: usize = blocks.len();
                assert(marked(all.take(0)).map_values(|m: Marked| system_span(m)) =~= Seq::empty());
                assert(spans@ + Seq::empty() =~= spans@);
                for i in 0..n
                    invariant
                        n == blocks@.len(),
                        all == system_markers(blocks.deep_view()),
                        spans@ == old(spans)@ + marked(all.take(i as int)).map_values(
                            |m: Marked| system_span(m),
                        ),
                {
                    let AnthropicSystemContentBlockOwned::Text { cache_control, .. } = &blocks[i];
                    assert(all[i as int] == *cache_control);
                    assert(all.take(i + 1).drop_last() =~= all.take(i as int));
                    if let Some(marker) = cache_control {
                        spans.push(
                            CacheControlSpan {
                                target: CacheControlTarget::SystemBlock { block_idx: i },
                                marker: *marker,
                            },
                        );
                    }
                    assert(spans@ =~= old(spans)@ + marked(all.take(i + 1)).map_values(
                        |m: Marked| system_span(m),
                    ));
                }
                assert(all.take(n as int) =~= all);
            },
        }
    }
}

// ---------------------------------------------------------------------------
// Messages
// ---------------------------------------------------------------------------

/// The tool names by call ID that some blocks add to others.
pub open spec fn names_with_blocks(
    names: Map<Seq<char>, Seq<char>>,
    blocks: Seq<BlockView>,
) -> Map<Seq<char>, Seq<char>>
    decreases blocks.len(),
{
    if blocks.len() == 0 {
        names
    } else {
        let before = names_with_blocks(names, blocks.drop_last());
        match blocks.last() {
            BlockView::ToolUse { id, name, .. } => before.insert(id, name),
            _ => before,
        }
    }
}

/// The tool names by call ID in a conversation. Where two calls share an ID, the
/// later one names it.
pub open spec fn tool_names(messages: Seq<MessageView>) -> Map<Seq<char>, Seq<char>>
    decreases messages.len(),
{
    if messages.len() == 0 {
        Map::empty()
    } else {
        let before = tool_names(messages.drop_last());
        match messages.last().content {
            ContentView::Blocks(blocks) => names_with_blocks(before, blocks),
            ContentView::String(_) => before,
        }
    }
}

/// What a role becomes.
pub open spec fn role_of(role: AnthropicRoleOwned) -> Role {
    match role {
        AnthropicRoleOwned::User => Role::User,
        AnthropicRoleOwned::Assistant => Role::Assistant,
    }
}

/// What a message becomes.
pub open spec fn message_of(
    message: MessageView,
    names: Map<Seq<char>, Seq<char>>,
    refusals: Seq<RefusalView>,
) -> Result<InputMessageView, Seq<char>> {
    match message.content {
        ContentView::String(text) => Ok(
            InputMessageView {
                role: role_of(message.role),
                content: seq![InputMessageContentView::Text(TextView { text })],
            },
        ),
        ContentView::Blocks(blocks) => match collected(content_results(blocks, names, refusals)) {
            Err(e) => Err(e),
            Ok(content) => Ok(InputMessageView { role: role_of(message.role), content }),
        },
    }
}

/// What each message becomes.
pub open spec fn message_results(
    messages: Seq<MessageView>,
    names: Map<Seq<char>, Seq<char>>,
    refusals: Seq<RefusalView>,
) -> Seq<Result<InputMessageView, Seq<char>>> {
    messages.map_values(|m: MessageView| message_of(m, names, refusals))
}

/// A cache marker on a block of a message.
pub open spec fn message_span(message_idx: int, m: Marked) -> CacheControlSpan {
    CacheControlSpan {
        target: CacheControlTarget::MessageContent {
            message_idx: message_idx as usize,
            content_idx: m.index,
        },
        marker: m.marker,
    }
}

/// The cache markers of a message.
pub open spec fn spans_of_message(message_idx: int, content: ContentView) -> Seq<
    CacheControlSpan,
> {
    match content {
        ContentView::String(_) => Seq::empty(),
        ContentView::Blocks(blocks) => marked(markers_on(blocks)).map_values(
            |m: Marked| message_span(message_idx, m),
        ),
    }
}

/// The cache markers of some messages.
pub open spec fn message_spans(messages: Seq<MessageView>) -> Seq<CacheControlSpan>
    decreases messages.len(),
{
    if messages.len() == 0 {
        Seq::empty()
    } else {
        message_spans(messages.drop_last()) + spans_of_message(
            messages.len() - 1,
            messages.last().content,
        )
    }
}

fn add_block_names(names: StringMap, blocks: &Vec<AnthropicContentBlockOwned>) -> (r: StringMap)
    ensures
        r@ == names_with_blocks(names@, blocks.deep_view()),
{
    let ghost all = blocks.deep_view();
    let ghost before = names@;
    let mut names: StringMap = names;
    let n: usize = blocks.len();
    for i in 0..n
        invariant
            n == blocks@.len(),
            all == blocks.deep_view(),
            names@ == names_with_blocks(before, all.take(i as int)),
    {
        assert(all.take(i + 1).drop_last() =~= all.take(i as int));
        assert(all.take(i + 1).last() == blocks@[i as int].deep_view());
        if let AnthropicContentBlockOwned::ToolUse { id, name, .. } = &blocks[i] {
            names = names.with(id.clone(), name.clone());
        }
    }
    assert(all.take(n as int) =~= all);
    names
}

fn find_tool_names(messages: &Vec<AnthropicMessageOwned>) -> (r: StringMap)
    ensures
        r@ == tool_names(messages.deep_view()),
{
    let ghost all = messages.deep_view();
    let mut names: StringMap = StringMap::new();
    let n: usize = messages.len();
    for i in 0..n
        invariant
            n == messages@.len(),
            all == messages.deep_view(),
            names@ == tool_names(all.take(i as int)),
    {
        assert(all.take(i + 1).drop_last() =~= all.take(i as int));
        assert(all.take(i + 1).last() == messages@[i as int].deep_view());
        if let AnthropicMessageContentOwned::Blocks(blocks) = &messages[i].content {
            names = add_block_names(names, blocks);
        }
    }
    assert(all.take(n as int) =~= all);
    names
}

impl AnthropicRoleOwned {
    fn engine_role(self) -> (r: Role)
        ensures
            r == role_of(self),
    {
        match self {
            AnthropicRoleOwned::User => Role::User,
            AnthropicRoleOwned::Assistant => Role::Assistant,
        }
    }
}

fn push_message_spans(spans: &mut Vec<CacheControlSpan>, message_idx: usize, found: &Vec<Marked>)
    ensures
        final(spans)@ == old(spans)@ + found@.map_values(
            |m: Marked| message_span(message_idx as int, m),
        ),
{
    let n: usize = found.len();
    assert(spans@ =~= old(spans)@ + found@.take(0).map_values(
        |m: Marked| message_span(message_idx as int, m),
    ));
    for i in 0..n
        invariant
            n == found@.len(),
            spans@ == old(spans)@ + found@.take(i as int).map_values(
                |m: Marked| message_span(message_idx as int, m),
            ),
    {
        let m: Marked = found[i];
        spans.push(
            CacheControlSpan {
                target: CacheControlTarget::MessageContent { message_idx, content_idx: m.index },
                marker: m.marker,
            },
        );
        assert(spans@ =~= old(spans)@ + found@.take(i + 1).map_values(
            |m: Marked| message_span(message_idx as int, m),
        ));
    }
    assert(found@.take(n as int) =~= found@);
}

/// What the messages become. Their cache markers are added to `spans`.
fn translate_messages(
    messages: &Vec<AnthropicMessageOwned>,
    names: &StringMap,
    refusals: &Vec<Base64Refusal>,
    spans: &mut Vec<CacheControlSpan>,
) -> (r: Result<Vec<InputMessage>, Error>)
    ensures
        match (
            r,
            collected(message_results(messages.deep_view(), names@, refusals.deep_view())),
        ) {
            (Ok(translated), Ok(expected)) => translated.deep_view() == expected
                && final(spans)@ == old(spans)@ + message_spans(messages.deep_view()),
            (Err(error), Err(message)) => error.deep_view() == invalid(message),
            _ => false,
        },
{
    let ghost views = messages.deep_view();
    let ghost all = message_results(views, names@, refusals.deep_view());
    let mut translated: Vec<InputMessage> = Vec::new();
    assert(translated.deep_view() =~= Seq::empty());
    assert(spans@ =~= old(spans)@ + message_spans(views.take(0)));
    let n: usize = messages.len();
    for i in 0..n
        invariant
            n == messages@.len(),
            views == messages.deep_view(),
            all == message_results(views, names@, refusals.deep_view()),
            so_far(all, i as int, translated.deep_view()),
            spans@ == old(spans)@ + message_spans(views.take(i as int)),
    {
        let message: &AnthropicMessageOwned = &messages[i];
        let ghost before = spans@;
        assert(views.take(i + 1).drop_last() =~= views.take(i as int));
        assert(views[i as int] == message.deep_view());
        proof {
            collected_next(all, i as int, translated.deep_view());
            assert(all[i as int] == message_of(
                message.deep_view(),
                names@,
                refusals.deep_view(),
            ));
        }
        let role: Role = message.role.engine_role();
        let content: Vec<InputMessageContent> = match &message.content {
            AnthropicMessageContentOwned::String(s) => {
                let content: Vec<InputMessageContent> = vec![
                    InputMessageContent::Text(Text { text: s.clone() }),
                ];
                assert(content.deep_view() =~= seq![
                    InputMessageContentView::Text(TextView { text: s@ }),
                ]);
                content
            },
            AnthropicMessageContentOwned::Blocks(blocks) => match blocks_into_input_content(
                blocks,
                names,
                refusals,
            ) {
                Err(e) => {
                    return Err(e);
                },
                Ok((content, found)) => {
                    assert(found.deep_view() =~= found@);
                    push_message_spans(spans, i, &found);
                    content
                },
            },
        };
        assert(spans@ =~= before + spans_of_message(i as int, message.content.deep_view()));
        assert(spans@ =~= old(spans)@ + message_spans(views.take(i + 1)));
        let ghost done = translated.deep_view();
        let next: InputMessage = InputMessage { role, content };
        translated.push(next);
        assert(translated.deep_view() =~= done.push(next.deep_view()));
    }
    assert(all.take(n as int) =~= all);
    assert(views.take(n as int) =~= views);
    Ok(translated)
}

// ---------------------------------------------------------------------------
// Tools
// ---------------------------------------------------------------------------

/// What a tool definition becomes.
pub open spec fn tool_of(tool: AnthropicToolView) -> ToolView {
    ToolView::Function(
        FunctionToolView {
            name: tool.name,
            description: or_value(tool.description, Seq::empty()),
            parameters: tool.parameters,
            strict: or_value(tool.strict, false),
        },
    )
}

/// What the tools of a request become.
pub open spec fn tools_of(tools: Option<Seq<AnthropicToolView>>) -> Option<Seq<ToolView>> {
    match tools {
        Some(list) => Some(list.map_values(|t: AnthropicToolView| tool_of(t))),
        None => None,
    }
}

/// The cache markers on some tools.
pub open spec fn tool_markers(tools: Seq<AnthropicToolView>) -> Seq<
    Option<AnthropicCacheControl>,
> {
    tools.map_values(|t: AnthropicToolView| t.cache_control)
}

/// A cache marker on a tool.
pub open spec fn tool_span(m: Marked) -> CacheControlSpan {
    CacheControlSpan {
        target: CacheControlTarget::Tool { tool_idx: m.index },
        marker: m.marker,
    }
}

/// The cache markers of the tools of a request.
pub open spec fn tool_spans(tools: Option<Seq<AnthropicToolView>>) -> Seq<CacheControlSpan> {
    match tools {
        Some(list) => marked(tool_markers(list)).map_values(|m: Marked| tool_span(m)),
        None => Seq::empty(),
    }
}

/// Whether the model may call tools in parallel: stated only where it must call
/// some tool.
pub open spec fn parallel_calls(choice: Option<AnthropicToolChoiceView>) -> Option<bool> {
    match choice {
        Some(AnthropicToolChoiceView::Any { .. }) => Some(true),
        _ => None,
    }
}

/// The tool parameters of a request.
pub open spec fn tool_params_of(request: RequestView) -> DynamicToolParamsView {
    DynamicToolParamsView {
        allowed_tools: None,
        additional_tools: tools_of(request.tools),
        tool_choice: match request.tool_choice {
            Some(choice) => Some(tool_choice_of(choice)),
            None => None,
        },
        parallel_tool_calls: parallel_calls(request.tool_choice),
        provider_tools: Seq::empty(),
    }
}

impl AnthropicToolOwned {
    fn engine_tool(&self) -> (r: Tool)
        ensures
            r.deep_view() == tool_of(self.deep_view()),
    {
        let description: String = match &self.description {
            Some(text) => text.clone(),
            None => String::new(),
        };
        assert(description@ =~= or_value(self.description.deep_view(), Seq::empty()));
        Tool::Function(
            FunctionTool {
                name: self.name.clone(),
                description,
                parameters: self.parameters.duplicate(),
                strict: self.strict.unwrap_or(false),
            },
        )
    }
}

/// What some tools become. Their cache markers are added to `spans`.
fn translate_tools(tools: &Vec<AnthropicToolOwned>, spans: &mut Vec<CacheControlSpan>) -> (r: Vec<
    Tool,
>)
    ensures
        Some(r.deep_view()) == tools_of(Some(tools.deep_view())),
        final(spans)@ == old(spans)@ + tool_spans(Some(tools.deep_view())),
{
    let ghost views = tools.deep_view();
    let ghost markers = tool_markers(views);
    let mut translated: Vec<Tool> = Vec::new();
    let n: usize = tools.len();
    assert(spans@ =~= old(spans)@ + marked(markers.take(0)).map_values(|m: Marked| tool_span(m)));
    for i in 0..n
        invariant
            n == tools@.len(),
            views == tools.deep_view(),
            markers == tool_markers(views),
            translated@.len() == i,
            forall|k: int| 0 <= k < i ==> (#[trigger] translated@[k]).deep_view() == tool_of(views[k]),
            spans@ == old(spans)@ + marked(markers.take(i as int)).map_values(
                |m: Marked| tool_span(m),
            ),
    {
        let tool: &AnthropicToolOwned = &tools[i];
        assert(views[i as int] == tool.deep_view());
        assert(markers.take(i + 1).drop_last() =~= markers.take(i as int));
        if let Some(marker) = tool.cache_control {
            spans.push(
                CacheControlSpan { target: CacheControlTarget::Tool { tool_idx: i }, marker },
            );
        }
        assert(spans@ =~= old(spans)@ + marked(markers.take(i + 1)).map_values(
            |m: Marked| tool_span(m),
        ));
        translated.push(tool.engine_tool());
    }
    assert(markers.take(n as int) =~= markers);
    assert(translated.deep_view() =~= views.map_values(|t: AnthropicToolView| tool_of(t)));
    translated
}

// ---------------------------------------------------------------------------
// Parameters and metadata
// ---------------------------------------------------------------------------

/// The token limit of a request: none where it is zero.
pub open spec fn token_limit(max_tokens: u32) -> Option<u32> {
    if max_tokens > 0 {
        Some(max_tokens)
    } else {
        None
    }
}

/// The parameters of the completion: what the extension fields give comes before
/// what the request gives.
pub open spec fn chat_params_of(request: RequestView) -> ChatCompletionInferenceParamsView {
    let given = match extension_of(request).params {
        Some(params) => params.chat_completion,
        None => no_chat_params(),
    };
    ChatCompletionInferenceParamsView {
        temperature: or_else(given.temperature, request.temperature),
        max_tokens: or_else(given.max_tokens, token_limit(request.max_tokens)),
        top_p: or_else(given.top_p, request.top_p),
        stop_sequences: or_else(given.stop_sequences, request.stop_sequences),
        other: given.other,
    }
}

/// The extension fields of a request.
pub open spec fn extension_of(request: RequestView) -> ExtensionView {
    match request.metadata {
        Some(metadata) => or_value(metadata.tensorzero, no_extension()),
        None => no_extension(),
    }
}

/// The tags of an inference: those of the extension fields, and the user.
pub open spec fn tags_of(request: RequestView) -> Map<Seq<char>, Seq<char>> {
    let tags = extension_of(request).tags;
    match request.metadata {
        Some(MetadataView { user_id: Some(user), .. }) => tags.insert("tensorzero::user"@, user),
        _ => tags,
    }
}

/// A flag that is stated only where it is set.
pub open spec fn flag(b: bool) -> Option<bool> {
    if b {
        Some(true)
    } else {
        None
    }
}

/// The cache markers of a request: those of the system prompt, of the messages
/// and of the tools.
pub open spec fn spans_of(request: RequestView) -> Seq<CacheControlSpan> {
    system_spans(request.system) + message_spans(request.messages) + tool_spans(request.tools)
}

/// The request to the engine, given what the messages become.
pub open spec fn params_with(request: RequestView, messages: Seq<InputMessageView>) -> ParamsView {
    let extension = extension_of(request);
    ParamsView {
        function_name: route_of(request.model).function_name,
        model_name: route_of(request.model).model_name,
        episode_id: extension.episode_id,
        namespace: extension.namespace,
        input: InputView { system: system_of(request.system), messages },
        stream: flag(request.stream),
        params: InferenceParamsView { chat_completion: chat_params_of(request) },
        variant_name: None,
        dryrun: flag(or_value(extension.dryrun, false)),
        internal: false,
        tags: tags_of(request),
        dynamic_tool_params: tool_params_of(request),
        output_schema: None,
        cache_options: extension.cache_options,
        credentials: extension.credentials,
        include_original_response: false,
        include_raw_response: false,
        include_raw_usage: or_value(extension.include_raw_usage, false),
        include_aggregated_response: false,
        extra_body: extension.extra_body,
        extra_headers: extension.extra_headers,
        internal_dynamic_variant_config: None,
        cache_control_spans: spans_of(request),
    }
}

/// The request to the engine that a request stands for, or the message of the
/// error. The model and the messages must be there, and every block must be
/// translatable.
pub open spec fn params_of(request: RequestView, refusals: Seq<RefusalView>) -> Result<
    ParamsView,
    Seq<char>,
> {
    if request.model.len() == 0 {
        Err("model is required"@)
    } else if request.messages.len() == 0 {
        Err("messages is required"@)
    } else {
        match collected(
            message_results(request.messages, tool_names(request.messages), refusals),
        ) {
            Err(message) => Err(message),
            Ok(messages) => Ok(params_with(request, messages)),
        }
    }
}

/// The outcome of a translation.
pub open spec fn translation(request: RequestView, refusals: Seq<RefusalView>) -> Result<
    ParamsView,
    ErrorView,
> {
    match params_of(request, refusals) {
        Ok(params) => Ok(params),
        Err(message) => Err(invalid(message)),
    }
}

// ---------------------------------------------------------------------------
// Base64 data
// ---------------------------------------------------------------------------

/// Base64 data that a request holds, for the engine to accept or refuse.
#[derive(Debug)]
pub struct Base64Source {
    pub media_type: String,
    pub data: String,
}

impl DeepView for Base64Source {
    type V = (Seq<char>, Seq<char>);

    open spec fn deep_view(&self) -> (Seq<char>, Seq<char>) {
        (self.media_type@, self.data@)
    }
}

/// The base64 data of a source.
pub open spec fn data_of_source(source: SourceView) -> Seq<(Seq<char>, Seq<char>)> {
    match source {
        SourceView::Base64 { media_type, data } => seq![(media_type, data)],
        SourceView::Url { .. } => Seq::empty(),
    }
}

/// The base64 data of some content blocks.
pub open spec fn data_in_blocks(blocks: Seq<BlockView>) -> Seq<(Seq<char>, Seq<char>)>
    decreases blocks.len(),
{
    if blocks.len() == 0 {
        Seq::empty()
    } else {
        data_in_blocks(blocks.drop_last()) + match blocks.last() {
            BlockView::Image { source, .. } => data_of_source(source),
            BlockView::Document { source, .. } => data_of_source(source),
            _ => Seq::empty(),
        }
    }
}

/// The base64 data of some messages.
pub open spec fn data_in_messages(messages: Seq<MessageView>) -> Seq<(Seq<char>, Seq<char>)>
    decreases messages.len(),
{
    if messages.len() == 0 {
        Seq::empty()
    } else {
        data_in_messages(messages.drop_last()) + match messages.last().content {
            ContentView::Blocks(blocks) => data_in_blocks(blocks),
            ContentView::String(_) => Seq::empty(),
        }
    }
}

fn push_source(sources: &mut Vec<Base64Source>, media_type: &String, data: &String)
    ensures
        final(sources).deep_view() == old(sources).deep_view() + seq![(media_type@, data@)],
{
    let ghost before = sources.deep_view();
    sources.push(Base64Source { media_type: media_type.clone(), data: data.clone() });
    assert(sources.deep_view() =~= before + seq![(media_type@, data@)]);
}

fn push_block_sources(sources: &mut Vec<Base64Source>, blocks: &Vec<AnthropicContentBlockOwned>)
    ensures
        final(sources).deep_view() == old(sources).deep_view() + data_in_blocks(
            blocks.deep_view(),
        ),
{
    let ghost start = sources.deep_view();
    let ghost all = blocks.deep_view();
    let n: usize = blocks.len();
    assert(start + data_in_blocks(all.take(0)) =~= start);
    for i in 0..n
        invariant
            n == blocks@.len(),
            all == blocks.deep_view(),
            sources.deep_view() == start + data_in_blocks(all.take(i as int)),
    {
        let ghost before = sources.deep_view();
        assert(all.take(i + 1).drop_last() =~= all.take(i as int));
        assert(all.take(i + 1).last() == blocks@[i as int].deep_view());
        match &blocks[i] {
            AnthropicContentBlockOwned::Image {
                source: AnthropicImageSourceOwned::Base64 { media_type, data },
                ..
            } => push_source(sources, media_type, data),
            AnthropicContentBlockOwned::Document {
                source: AnthropicDocumentSourceOwned::Base64 { media_type, data },
                ..
            } => push_source(sources, media_type, data),
            _ => {},
        }
        assert(sources.deep_view() =~= start + data_in_blocks(all.take(i + 1)));
    }
    assert(all.take(n as int) =~= all);
}

impl AnthropicMessagesParams {
    /// The base64 data of the images and documents in the messages, in order.
    pub fn base64_sources(&self) -> (r: Vec<Base64Source>)
        ensures
            r.deep_view() == data_in_messages(self.deep_view().messages),
    {
        let mut sources: Vec<Base64Source> = Vec::new();
        let ghost all = self.deep_view().messages;
        let n: usize = self.messages.len();
        assert(sources.deep_view() =~= data_in_messages(all.take(0)));
        for i in 0..n
            invariant
                n == self.messages@.len(),
                all == self.deep_view().messages,
                sources.deep_view() == data_in_messages(all.take(i as int)),
        {
            assert(all.take(i + 1).drop_last() =~= all.take(i as int));
            assert(all.take(i + 1).last() == self.messages@[i as int].deep_view());
            let ghost before = sources.deep_view();
            match &self.messages[i].content {
                AnthropicMessageContentOwned::Blocks(blocks) => push_block_sources(
                    &mut sources,
                    blocks,
                ),
                AnthropicMessageContentOwned::String(_) => {
                    assert(before + Seq::empty() =~= before);
                },
            }
        }
        assert(all.take(n as int) =~= all);
        sources
    }
}

impl AnthropicMessagesParams {
    /// The request to the engine that this request stands for, given which base64
    /// data the engine refuses.
    pub fn try_into_params(self, refusals: &Vec<Base64Refusal>) -> (r: Result<Params, Error>)
        ensures
            outcome(r) == translation(self.deep_view(), refusals.deep_view()),
    {
        let ghost request = self.deep_view();
        if self.model.as_str().is_empty() {
            return Err(Error::invalid_request(owned("model is required")));
        }
        if self.messages.len() == 0 {
            assert(request.messages.len() == 0);
            return Err(Error::invalid_request(owned("messages is required")));
        }
        assert(request.messages.len() > 0);
        let route: Route = Route::of_model(self.model.as_str());
        let mut spans: Vec<CacheControlSpan> = Vec::new();
        let system: Option<System> = self.system.engine_system();
        self.system.push_spans(&mut spans);
        assert(spans@ =~= system_spans(request.system));
        let names: StringMap = find_tool_names(&self.messages);
        let messages: Vec<InputMessage> = match translate_messages(
            &self.messages,
            &names,
            refusals,
            &mut spans,
        ) {
            Err(e) => {
                return Err(e);
            },
            Ok(messages) => messages,
        };
        let additional_tools: Option<Vec<Tool>> = match &self.tools {
            Some(tools) => Some(translate_tools(tools, &mut spans)),
            None => {
                assert(spans@ + Seq::empty() =~= spans@);
                None
            },
        };
        assert(spans@ =~= spans_of(request));
        assert(spans.deep_view() =~= spans@);
        let parallel_tool_calls: Option<bool> = match &self.tool_choice {
            Some(AnthropicToolChoiceOwned::Any { .. }) => Some(true),
            _ => None,
        };
        let tool_choice = match self.tool_choice {
            Some(choice) => Some(tool_choice_owned_to_internal(choice)),
            None => None,
        };
        let (user_id, extension) = match self.metadata {
            Some(metadata) => (
                metadata.user_id,
                match metadata.tensorzero {
                    Some(extension) => extension,
                    None => AnthropicTensorZeroMetadata::default(),
                },
            ),
            None => (None, AnthropicTensorZeroMetadata::default()),
        };
        assert(extension.deep_view() == extension_of(request));
        let tags: StringMap = match user_id {
            Some(user) => extension.tags.with(owned("tensorzero::user"), user),
            None => extension.tags,
        };
        let given: ChatCompletionInferenceParams = match extension.params {
            Some(params) => params.chat_completion,
            None => ChatCompletionInferenceParams::default(),
        };
        let chat_completion: ChatCompletionInferenceParams = ChatCompletionInferenceParams {
            temperature: match given.temperature {
                Some(n) => Some(n),
                None => self.temperature,
            },
            max_tokens: match given.max_tokens {
                Some(n) => Some(n),
                None => if self.max_tokens > 0 {
                    Some(self.max_tokens)
                } else {
                    None
                },
            },
            top_p: match given.top_p {
                Some(n) => Some(n),
                None => self.top_p,
            },
            stop_sequences: match given.stop_sequences {
                Some(stops) => Some(stops),
                None => self.stop_sequences,
            },
            other: given.other,
        };
        assert(chat_completion.deep_view() == chat_params_of(request));
        let provider_tools: Vec<Json> = Vec::new();
        assert(provider_tools.deep_view() =~= Seq::empty());
        let dynamic_tool_params: DynamicToolParams = DynamicToolParams {
            allowed_tools: None,
            additional_tools,
            tool_choice,
            parallel_tool_calls,
            provider_tools,
        };
        assert(dynamic_tool_params.deep_view() == tool_params_of(request));
        Ok(
            Params {
                function_name: route.function_name,
                model_name: route.model_name,
                episode_id: extension.episode_id,
                namespace: extension.namespace,
                input: Input { system, messages },
                stream: if self.stream {
                    Some(true)
                } else {
                    None
                },
                params: InferenceParams { chat_completion },
                variant_name: None,
                dryrun: if extension.dryrun.unwrap_or(false) {
                    Some(true)
                } else {
                    None
                },
                internal: false,
                tags,
                dynamic_tool_params,
                output_schema: None,
                cache_options: extension.cache_options,
                credentials: extension.credentials,
                include_original_response: false,
                include_raw_response: false,
                include_raw_usage: extension.include_raw_usage.unwrap_or(false),
                include_aggregated_response: false,
                extra_body: extension.extra_body,
                extra_headers: extension.extra_headers,
                internal_dynamic_variant_config: None,
                cache_control_spans: spans,
            },
        )
    }
}

} // verus!
