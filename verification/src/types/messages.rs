//! Requests and responses of `POST /v1/messages`.
use crate::inference::{InferenceParams, InferenceParamsView};
use crate::json::{Json, JsonNumber, JsonNumberView, JsonView};
use crate::provider::{AnthropicCacheControl, AnthropicStopReason};
use crate::string_map::StringMap;
use vstd::prelude::*;

verus! {

// ---------------------------------------------------------------------------
// System prompt
// ---------------------------------------------------------------------------

/// A content block of a system prompt.
#[derive(Debug, PartialEq, Eq)]
pub enum AnthropicSystemContentBlockOwned {
    Text { text: String, cache_control: Option<AnthropicCacheControl> },
}

pub struct SystemBlockView {
    pub text: Seq<char>,
    pub cache_control: Option<AnthropicCacheControl>,
}

impl DeepView for AnthropicSystemContentBlockOwned {
    type V = SystemBlockView;

    open spec fn deep_view(&self) -> SystemBlockView {
        match self {
            AnthropicSystemContentBlockOwned::Text { text, cache_control } => SystemBlockView {
                text: text@,
                cache_control: *cache_control,
            },
        }
    }
}

/// A system prompt: a text, or content blocks.
#[derive(Debug, PartialEq, Eq)]
pub enum AnthropicSystem {
    String(String),
    Blocks(Vec<AnthropicSystemContentBlockOwned>),
}

pub enum SystemView {
    String(Seq<char>),
    Blocks(Seq<SystemBlockView>),
}

impl DeepView for AnthropicSystem {
    type V = SystemView;

    open spec fn deep_view(&self) -> SystemView {
        match self {
            AnthropicSystem::String(s) => SystemView::String(s@),
            AnthropicSystem::Blocks(blocks) => SystemView::Blocks(blocks.deep_view()),
        }
    }
}

impl Default for AnthropicSystem {
    fn default() -> (r: AnthropicSystem)
        ensures
            r.deep_view() == SystemView::String(Seq::empty()),
    {
        AnthropicSystem::String(String::new())
    }
}

// ---------------------------------------------------------------------------
// Messages
// ---------------------------------------------------------------------------

/// Who speaks.
#[derive(Clone, Copy, Debug, PartialEq, Eq, Structural)]
pub enum AnthropicRoleOwned {
    User,
    Assistant,
}

impl DeepView for AnthropicRoleOwned {
    type V = AnthropicRoleOwned;

    open spec fn deep_view(&self) -> AnthropicRoleOwned {
        *self
    }
}

/// Where an image comes from.
#[derive(Debug, PartialEq, Eq)]
pub enum AnthropicImageSourceOwned {
    Base64 { media_type: String, data: String },
    Url { url: String },
}

/// Where a document comes from.
#[derive(Debug, PartialEq, Eq)]
pub enum AnthropicDocumentSourceOwned {
    Base64 { media_type: String, data: String },
    Url { url: String },
}

pub enum SourceView {
    Base64 { media_type: Seq<char>, data: Seq<char> },
    Url { url: Seq<char> },
}

impl DeepView for AnthropicImageSourceOwned {
    type V = SourceView;

    open spec fn deep_view(&self) -> SourceView {
        match self {
            AnthropicImageSourceOwned::Base64 { media_type, data } => SourceView::Base64 {
                media_type: media_type@,
                data: data@,
            },
            AnthropicImageSourceOwned::Url { url } => SourceView::Url { url: url@ },
        }
    }
}

impl DeepView for AnthropicDocumentSourceOwned {
    type V = SourceView;

    open spec fn deep_view(&self) -> SourceView {
        match self {
            AnthropicDocumentSourceOwned::Base64 { media_type, data } => SourceView::Base64 {
                media_type: media_type@,
                data: data@,
            },
            AnthropicDocumentSourceOwned::Url { url } => SourceView::Url { url: url@ },
        }
    }
}

/// A content block of a message.
#[allow(inconsistent_fields)]
#[derive(Debug, PartialEq, Eq)]
pub enum AnthropicContentBlockOwned {
    Text { text: String, cache_control: Option<AnthropicCacheControl> },
    Image { cache_control: Option<AnthropicCacheControl>, source: AnthropicImageSourceOwned },
    Document { cache_control: Option<AnthropicCacheControl>, source: AnthropicDocumentSourceOwned },
    ToolUse {
        id: String,
        name: String,
        input: Json,
        cache_control: Option<AnthropicCacheControl>,
    },
    ToolResult {
        tool_use_id: String,
        content: Vec<AnthropicContentBlockOwned>,
        is_error: Option<bool>,
        cache_control: Option<AnthropicCacheControl>,
    },
    Thinking { thinking: String, signature: String },
    RedactedThinking { data: String },
}

pub enum BlockView {
    Text { text: Seq<char>, cache_control: Option<AnthropicCacheControl> },
    Image { cache_control: Option<AnthropicCacheControl>, source: SourceView },
    Document { cache_control: Option<AnthropicCacheControl>, source: SourceView },
    ToolUse {
        id: Seq<char>,
        name: Seq<char>,
        input: JsonView,
        cache_control: Option<AnthropicCacheControl>,
    },
    ToolResult {
        tool_use_id: Seq<char>,
        content: Seq<BlockView>,
        is_error: Option<bool>,
        cache_control: Option<AnthropicCacheControl>,
    },
    Thinking { thinking: Seq<char>, signature: Seq<char> },
    RedactedThinking { data: Seq<char> },
}

impl AnthropicContentBlockOwned {
    pub open spec fn model(&self) -> BlockView
        decreases self,
    {
        match self {
            AnthropicContentBlockOwned::Text { text, cache_control } => BlockView::Text {
                text: text@,
                cache_control: *cache_control,
            },
            AnthropicContentBlockOwned::Image { cache_control, source } => BlockView::Image {
                cache_control: *cache_control,
                source: source.deep_view(),
            },
            AnthropicContentBlockOwned::Document { cache_control, source } => BlockView::Document {
                cache_control: *cache_control,
                source: source.deep_view(),
            },
            AnthropicContentBlockOwned::ToolUse { id, name, input, cache_control } =>
                BlockView::ToolUse {
                    id: id@,
                    name: name@,
                    input: input@,
                    cache_control: *cache_control,
                },
            AnthropicContentBlockOwned::ToolResult {
                tool_use_id,
                content,
                is_error,
                cache_control,
            } => BlockView::ToolResult {
                tool_use_id: tool_use_id@,
                content: Seq::new(
                    content@.len(),
                    |i: int|
                        if 0 <= i < content@.len() {
                            content@[i].model()
                        } else {
                            BlockView::RedactedThinking { data: Seq::empty() }
                        },
                ),
                is_error: *is_error,
                cache_control: *cache_control,
            },
            AnthropicContentBlockOwned::Thinking { thinking, signature } => BlockView::Thinking {
                thinking: thinking@,
                signature: signature@,
            },
            AnthropicContentBlockOwned::RedactedThinking { data } => BlockView::RedactedThinking {
                data: data@,
            },
        }
    }
}

impl DeepView for AnthropicContentBlockOwned {
    type V = BlockView;

    open spec fn deep_view(&self) -> BlockView {
        self.model()
    }
}

/// The kind of a content block.
pub open spec fn block_kind(block: BlockView) -> Seq<char> {
    match block {
        BlockView::Text { .. } => "text"@,
        BlockView::Image { .. } => "image"@,
        BlockView::Document { .. } => "document"@,
        BlockView::ToolUse { .. } => "tool_use"@,
        BlockView::ToolResult { .. } => "tool_result"@,
        BlockView::Thinking { .. } => "thinking"@,
        BlockView::RedactedThinking { .. } => "redacted_thinking"@,
    }
}

impl AnthropicContentBlockOwned {
    /// The kind of this content block, for error messages.
    pub fn kind(&self) -> (r: &'static str)
        ensures
            r@ == block_kind(self.deep_view()),
    {
        match self {
            AnthropicContentBlockOwned::Text { .. } => "text",
            AnthropicContentBlockOwned::Image { .. } => "image",
            AnthropicContentBlockOwned::Document { .. } => "document",
            AnthropicContentBlockOwned::ToolUse { .. } => "tool_use",
            AnthropicContentBlockOwned::ToolResult { .. } => "tool_result",
            AnthropicContentBlockOwned::Thinking { .. } => "thinking",
            AnthropicContentBlockOwned::RedactedThinking { .. } => "redacted_thinking",
        }
    }
}

/// The content of a message: a text, or content blocks.
#[derive(Debug, PartialEq, Eq)]
pub enum AnthropicMessageContentOwned {
    String(String),
    Blocks(Vec<AnthropicContentBlockOwned>),
}

pub enum ContentView {
    String(Seq<char>),
    Blocks(Seq<BlockView>),
}

impl DeepView for AnthropicMessageContentOwned {
    type V = ContentView;

    open spec fn deep_view(&self) -> ContentView {
        match self {
            AnthropicMessageContentOwned::String(s) => ContentView::String(s@),
            AnthropicMessageContentOwned::Blocks(blocks) => ContentView::Blocks(
                blocks.deep_view(),
            ),
        }
    }
}

impl Default for AnthropicMessageContentOwned {
    fn default() -> (r: AnthropicMessageContentOwned)
        ensures
            r.deep_view() == ContentView::String(Seq::empty()),
    {
        AnthropicMessageContentOwned::String(String::new())
    }
}

/// A message of the conversation.
#[derive(Debug, PartialEq, Eq)]
pub struct AnthropicMessageOwned {
    pub role: AnthropicRoleOwned,
    pub content: AnthropicMessageContentOwned,
}

pub struct MessageView {
    pub role: AnthropicRoleOwned,
    pub content: ContentView,
}

impl DeepView for AnthropicMessageOwned {
    type V = MessageView;

    open spec fn deep_view(&self) -> MessageView {
        MessageView { role: self.role, content: self.content.deep_view() }
    }
}

// ---------------------------------------------------------------------------
// Tools
// ---------------------------------------------------------------------------

/// A tool definition. `parameters` is `input_schema` on the wire.
#[derive(Debug, PartialEq, Eq)]
pub struct AnthropicToolOwned {
    pub name: String,
    pub description: Option<String>,
    pub parameters: Json,
    pub strict: Option<bool>,
    pub cache_control: Option<AnthropicCacheControl>,
}

pub struct AnthropicToolView {
    pub name: Seq<char>,
    pub description: Option<Seq<char>>,
    pub parameters: JsonView,
    pub strict: Option<bool>,
    pub cache_control: Option<AnthropicCacheControl>,
}

impl DeepView for AnthropicToolOwned {
    type V = AnthropicToolView;

    open spec fn deep_view(&self) -> AnthropicToolView {
        AnthropicToolView {
            name: self.name@,
            description: self.description.deep_view(),
            parameters: self.parameters@,
            strict: self.strict,
            cache_control: self.cache_control,
        }
    }
}

/// Which tools the model may call.
#[derive(Debug, PartialEq, Eq)]
pub enum AnthropicToolChoiceOwned {
    Auto { disable_parallel_tool_use: Option<bool> },
    Any { disable_parallel_tool_use: Option<bool> },
    Tool { name: String, disable_parallel_tool_use: Option<bool> },
    NoTool { disable_parallel_tool_use: Option<bool> },
}

pub enum AnthropicToolChoiceView {
    Auto { disable_parallel_tool_use: Option<bool> },
    Any { disable_parallel_tool_use: Option<bool> },
    Tool { name: Seq<char>, disable_parallel_tool_use: Option<bool> },
    NoTool { disable_parallel_tool_use: Option<bool> },
}

impl DeepView for AnthropicToolChoiceOwned {
    type V = AnthropicToolChoiceView;

    open spec fn deep_view(&self) -> AnthropicToolChoiceView {
        match self {
            AnthropicToolChoiceOwned::Auto { disable_parallel_tool_use } =>
                AnthropicToolChoiceView::Auto {
                    disable_parallel_tool_use: *disable_parallel_tool_use,
                },
            AnthropicToolChoiceOwned::Any { disable_parallel_tool_use } =>
                AnthropicToolChoiceView::Any {
                    disable_parallel_tool_use: *disable_parallel_tool_use,
                },
            AnthropicToolChoiceOwned::Tool { name, disable_parallel_tool_use } =>
                AnthropicToolChoiceView::Tool {
                    name: name@,
                    disable_parallel_tool_use: *disable_parallel_tool_use,
                },
            AnthropicToolChoiceOwned::NoTool { disable_parallel_tool_use } =>
                AnthropicToolChoiceView::NoTool {
                    disable_parallel_tool_use: *disable_parallel_tool_use,
                },
        }
    }
}

/// Whether a tool choice forbids parallel calls.
pub open spec fn disables_parallel(choice: AnthropicToolChoiceView) -> Option<bool> {
    match choice {
        AnthropicToolChoiceView::Auto { disable_parallel_tool_use } => disable_parallel_tool_use,
        AnthropicToolChoiceView::Any { disable_parallel_tool_use } => disable_parallel_tool_use,
        AnthropicToolChoiceView::Tool { disable_parallel_tool_use, .. } =>
            disable_parallel_tool_use,
        AnthropicToolChoiceView::NoTool { disable_parallel_tool_use } => disable_parallel_tool_use,
    }
}

/// Whether a tool choice forbids parallel calls.
pub fn get_disable_parallel(choice: &AnthropicToolChoiceOwned) -> (r: Option<bool>)
    ensures
        r == disables_parallel(choice.deep_view()),
{
    match choice {
        AnthropicToolChoiceOwned::Auto { disable_parallel_tool_use } => *disable_parallel_tool_use,
        AnthropicToolChoiceOwned::Any { disable_parallel_tool_use } => *disable_parallel_tool_use,
        AnthropicToolChoiceOwned::Tool { disable_parallel_tool_use, .. } =>
            *disable_parallel_tool_use,
        AnthropicToolChoiceOwned::NoTool { disable_parallel_tool_use } =>
            *disable_parallel_tool_use,
    }
}

// ---------------------------------------------------------------------------
// Metadata
// ---------------------------------------------------------------------------

/// The extension fields under `metadata.tensorzero`. `cache_options`,
/// `extra_body` and `extra_headers` are carried as they came.
#[derive(Debug)]
pub struct AnthropicTensorZeroMetadata {
    pub episode_id: Option<u128>,
    pub variant_name: Option<String>,
    pub tags: StringMap,
    pub cache_options: Option<Json>,
    pub extra_body: Option<Json>,
    pub extra_headers: Option<Json>,
    pub dryrun: Option<bool>,
    pub namespace: Option<String>,
    pub credentials: StringMap,
    pub params: Option<InferenceParams>,
    pub include_raw_usage: Option<bool>,
}

pub struct ExtensionView {
    pub episode_id: Option<u128>,
    pub variant_name: Option<Seq<char>>,
    pub tags: Map<Seq<char>, Seq<char>>,
    pub cache_options: Option<JsonView>,
    pub extra_body: Option<JsonView>,
    pub extra_headers: Option<JsonView>,
    pub dryrun: Option<bool>,
    pub namespace: Option<Seq<char>>,
    pub credentials: Map<Seq<char>, Seq<char>>,
    pub params: Option<InferenceParamsView>,
    pub include_raw_usage: Option<bool>,
}

impl DeepView for AnthropicTensorZeroMetadata {
    type V = ExtensionView;

    open spec fn deep_view(&self) -> ExtensionView {
        ExtensionView {
            episode_id: self.episode_id,
            variant_name: self.variant_name.deep_view(),
            tags: self.tags@,
            cache_options: self.cache_options.deep_view(),
            extra_body: self.extra_body.deep_view(),
            extra_headers: self.extra_headers.deep_view(),
            dryrun: self.dryrun,
            namespace: self.namespace.deep_view(),
            credentials: self.credentials@,
            params: self.params.deep_view(),
            include_raw_usage: self.include_raw_usage,
        }
    }
}

/// Extension fields that say nothing.
pub open spec fn no_extension() -> ExtensionView {
    ExtensionView {
        episode_id: None,
        variant_name: None,
        tags: Map::empty(),
        cache_options: None,
        extra_body: None,
        extra_headers: None,
        dryrun: None,
        namespace: None,
        credentials: Map::empty(),
        params: None,
        include_raw_usage: None,
    }
}

impl Default for AnthropicTensorZeroMetadata {
    fn default() -> (r: AnthropicTensorZeroMetadata)
        ensures
            r.deep_view() == no_extension(),
    {
        AnthropicTensorZeroMetadata {
            episode_id: None,
            variant_name: None,
            tags: StringMap::new(),
            cache_options: None,
            extra_body: None,
            extra_headers: None,
            dryrun: None,
            namespace: None,
            credentials: StringMap::new(),
            params: None,
            include_raw_usage: None,
        }
    }
}

/// The `metadata` of a request.
#[derive(Debug)]
pub struct AnthropicMetadata {
    /// Becomes a tag of the inference.
    pub user_id: Option<String>,
    pub tensorzero: Option<AnthropicTensorZeroMetadata>,
}

pub struct MetadataView {
    pub user_id: Option<Seq<char>>,
    pub tensorzero: Option<ExtensionView>,
}

impl DeepView for AnthropicMetadata {
    type V = MetadataView;

    open spec fn deep_view(&self) -> MetadataView {
        MetadataView { user_id: self.user_id.deep_view(), tensorzero: self.tensorzero.deep_view() }
    }
}

impl Default for AnthropicMetadata {
    fn default() -> (r: AnthropicMetadata)
        ensures
            r.deep_view() == (MetadataView { user_id: None, tensorzero: None }),
    {
        AnthropicMetadata { user_id: None, tensorzero: None }
    }
}

// ---------------------------------------------------------------------------
// Requests
// ---------------------------------------------------------------------------

/// The body of `POST /v1/messages`.
#[derive(Debug)]
pub struct AnthropicMessagesParams {
    pub model: String,
    pub messages: Vec<AnthropicMessageOwned>,
    pub system: AnthropicSystem,
    pub max_tokens: u32,
    pub temperature: Option<JsonNumber>,
    pub top_p: Option<JsonNumber>,
    pub top_k: Option<i32>,
    pub stop_sequences: Option<Vec<String>>,
    pub stream: bool,
    pub tools: Option<Vec<AnthropicToolOwned>>,
    pub tool_choice: Option<AnthropicToolChoiceOwned>,
    pub metadata: Option<AnthropicMetadata>,
    pub service_tier: Option<String>,
    pub container: Option<String>,
}

pub struct RequestView {
    pub model: Seq<char>,
    pub messages: Seq<MessageView>,
    pub system: SystemView,
    pub max_tokens: u32,
    pub temperature: Option<JsonNumberView>,
    pub top_p: Option<JsonNumberView>,
    pub top_k: Option<i32>,
    pub stop_sequences: Option<Seq<Seq<char>>>,
    pub stream: bool,
    pub tools: Option<Seq<AnthropicToolView>>,
    pub tool_choice: Option<AnthropicToolChoiceView>,
    pub metadata: Option<MetadataView>,
    pub service_tier: Option<Seq<char>>,
    pub container: Option<Seq<char>>,
}

impl DeepView for AnthropicMessagesParams {
    type V = RequestView;

    open spec fn deep_view(&self) -> RequestView {
        RequestView {
            model: self.model@,
            messages: self.messages.deep_view(),
            system: self.system.deep_view(),
            max_tokens: self.max_tokens,
            temperature: self.temperature.deep_view(),
            top_p: self.top_p.deep_view(),
            top_k: self.top_k,
            stop_sequences: self.stop_sequences.deep_view(),
            stream: self.stream,
            tools: self.tools.deep_view(),
            tool_choice: self.tool_choice.deep_view(),
            metadata: self.metadata.deep_view(),
            service_tier: self.service_tier.deep_view(),
            container: self.container.deep_view(),
        }
    }
}

// ---------------------------------------------------------------------------
// Responses
// ---------------------------------------------------------------------------

/// A content block of a response.
#[derive(Debug)]
pub enum AnthropicResponseContentBlock {
    Text { text: String, cache_control: Option<AnthropicCacheControl> },
    ToolUse {
        id: String,
        name: String,
        input: Json,
        cache_control: Option<AnthropicCacheControl>,
    },
    Thinking { thinking: String, signature: String },
    RedactedThinking { data: String },
}

pub enum ResponseBlockView {
    Text { text: Seq<char>, cache_control: Option<AnthropicCacheControl> },
    ToolUse {
        id: Seq<char>,
        name: Seq<char>,
        input: JsonView,
        cache_control: Option<AnthropicCacheControl>,
    },
    Thinking { thinking: Seq<char>, signature: Seq<char> },
    RedactedThinking { data: Seq<char> },
}

impl DeepView for AnthropicResponseContentBlock {
    type V = ResponseBlockView;

    open spec fn deep_view(&self) -> ResponseBlockView {
        match self {
            AnthropicResponseContentBlock::Text { text, cache_control } =>
                ResponseBlockView::Text { text: text@, cache_control: *cache_control },
            AnthropicResponseContentBlock::ToolUse { id, name, input, cache_control } =>
                ResponseBlockView::ToolUse {
                    id: id@,
                    name: name@,
                    input: input@,
                    cache_control: *cache_control,
                },
            AnthropicResponseContentBlock::Thinking { thinking, signature } =>
                ResponseBlockView::Thinking { thinking: thinking@, signature: signature@ },
            AnthropicResponseContentBlock::RedactedThinking { data } =>
                ResponseBlockView::RedactedThinking { data: data@ },
        }
    }
}

/// The usage in a response.
#[derive(Clone, Copy, Debug, PartialEq, Eq, Structural)]
pub struct AnthropicResponseUsage {
    pub input_tokens: u32,
    pub output_tokens: u32,
    pub cache_creation_input_tokens: Option<u32>,
    pub cache_read_input_tokens: Option<u32>,
}

/// The body of a response that is not streamed.
#[derive(Debug)]
pub struct AnthropicResponse {
    pub id: String,
    pub response_type: String,
    pub role: String,
    pub content: Vec<AnthropicResponseContentBlock>,
    pub model: String,
    pub stop_reason: Option<AnthropicStopReason>,
    pub stop_sequence: Option<i32>,
    pub usage: AnthropicResponseUsage,
}

pub struct ResponseView {
    pub id: Seq<char>,
    pub response_type: Seq<char>,
    pub role: Seq<char>,
    pub content: Seq<ResponseBlockView>,
    pub model: Seq<char>,
    pub stop_reason: Option<AnthropicStopReason>,
    pub stop_sequence: Option<i32>,
    pub usage: AnthropicResponseUsage,
}

impl DeepView for AnthropicResponse {
    type V = ResponseView;

    open spec fn deep_view(&self) -> ResponseView {
        ResponseView {
            id: self.id@,
            response_type: self.response_type@,
            role: self.role@,
            content: self.content.deep_view(),
            model: self.model@,
            stop_reason: self.stop_reason,
            stop_sequence: self.stop_sequence,
            usage: self.usage,
        }
    }
}

} // verus!
