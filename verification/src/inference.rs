//! The inference engine's side: what an inference request is made of, what an
//! inference answers, and the chunks in which it answers when it streams.
use crate::json::{Json, JsonEntry, JsonNumber, JsonNumberView, JsonView};
use crate::provider::AnthropicCacheControl;
use crate::string_map::StringMap;
use vstd::prelude::*;

verus! {

// ---------------------------------------------------------------------------
// Messages
// ---------------------------------------------------------------------------

/// Who speaks.
#[derive(Clone, Copy, Debug, PartialEq, Eq, Structural)]
pub enum Role {
    User,
    Assistant,
}

/// A piece of text.
#[derive(Debug)]
pub struct Text {
    pub text: String,
}

pub struct TextView {
    pub text: Seq<char>,
}

impl DeepView for Text {
    type V = TextView;

    open spec fn deep_view(&self) -> TextView {
        TextView { text: self.text@ }
    }
}

/// A call of a tool, its arguments as JSON text.
#[derive(Debug)]
pub struct ToolCall {
    pub id: String,
    pub name: String,
    pub arguments: String,
}

pub struct ToolCallView {
    pub id: Seq<char>,
    pub name: Seq<char>,
    pub arguments: Seq<char>,
}

impl DeepView for ToolCall {
    type V = ToolCallView;

    open spec fn deep_view(&self) -> ToolCallView {
        ToolCallView { id: self.id@, name: self.name@, arguments: self.arguments@ }
    }
}

/// What a tool answered to a call.
#[derive(Debug)]
pub struct ToolResult {
    pub id: String,
    pub name: String,
    pub result: String,
}

pub struct ToolResultView {
    pub id: Seq<char>,
    pub name: Seq<char>,
    pub result: Seq<char>,
}

impl DeepView for ToolResult {
    type V = ToolResultView;

    open spec fn deep_view(&self) -> ToolResultView {
        ToolResultView { id: self.id@, name: self.name@, result: self.result@ }
    }
}

/// A thought of the model.
#[derive(Debug)]
pub struct Thought {
    pub text: Option<String>,
    pub signature: Option<String>,
    pub summary: Option<Json>,
    pub provider_type: Option<String>,
    pub extra_data: Option<Json>,
}

pub struct ThoughtView {
    pub text: Option<Seq<char>>,
    pub signature: Option<Seq<char>>,
    pub summary: Option<JsonView>,
    pub provider_type: Option<Seq<char>>,
    pub extra_data: Option<JsonView>,
}

impl DeepView for Thought {
    type V = ThoughtView;

    open spec fn deep_view(&self) -> ThoughtView {
        ThoughtView {
            text: self.text.deep_view(),
            signature: self.signature.deep_view(),
            summary: self.summary.deep_view(),
            provider_type: self.provider_type.deep_view(),
            extra_data: self.extra_data.deep_view(),
        }
    }
}

/// A block whose kind only some provider knows.
#[derive(Debug)]
pub struct Unknown {
    pub data: Json,
    pub model_name: Option<String>,
    pub provider_name: Option<String>,
}

pub struct UnknownView {
    pub data: JsonView,
    pub model_name: Option<Seq<char>>,
    pub provider_name: Option<Seq<char>>,
}

impl DeepView for Unknown {
    type V = UnknownView;

    open spec fn deep_view(&self) -> UnknownView {
        UnknownView {
            data: self.data.deep_view(),
            model_name: self.model_name.deep_view(),
            provider_name: self.provider_name.deep_view(),
        }
    }
}

/// A file that the request carries itself, in base64.
#[derive(Debug)]
pub struct Base64File {
    pub source_url: Option<String>,
    pub mime_type: String,
    pub data: String,
    pub detail: Option<String>,
    pub filename: Option<String>,
}

pub struct Base64FileView {
    pub source_url: Option<Seq<char>>,
    pub mime_type: Seq<char>,
    pub data: Seq<char>,
    pub detail: Option<Seq<char>>,
    pub filename: Option<Seq<char>>,
}

impl DeepView for Base64File {
    type V = Base64FileView;

    open spec fn deep_view(&self) -> Base64FileView {
        Base64FileView {
            source_url: self.source_url.deep_view(),
            mime_type: self.mime_type@,
            data: self.data@,
            detail: self.detail.deep_view(),
            filename: self.filename.deep_view(),
        }
    }
}

/// A file that lies at a URL.
#[derive(Debug)]
pub struct UrlFile {
    pub url: String,
    pub mime_type: Option<String>,
    pub detail: Option<String>,
    pub filename: Option<String>,
}

pub struct UrlFileView {
    pub url: Seq<char>,
    pub mime_type: Option<Seq<char>>,
    pub detail: Option<Seq<char>>,
    pub filename: Option<Seq<char>>,
}

impl DeepView for UrlFile {
    type V = UrlFileView;

    open spec fn deep_view(&self) -> UrlFileView {
        UrlFileView {
            url: self.url@,
            mime_type: self.mime_type.deep_view(),
            detail: self.detail.deep_view(),
            filename: self.filename.deep_view(),
        }
    }
}

/// A file.
#[derive(Debug)]
pub enum File {
    Base64(Base64File),
    Url(UrlFile),
}

pub enum FileView {
    Base64(Base64FileView),
    Url(UrlFileView),
}

impl DeepView for File {
    type V = FileView;

    open spec fn deep_view(&self) -> FileView {
        match self {
            File::Base64(f) => FileView::Base64(f.deep_view()),
            File::Url(f) => FileView::Url(f.deep_view()),
        }
    }
}

/// One item of a message.
#[derive(Debug)]
pub enum InputMessageContent {
    Text(Text),
    ToolCall(ToolCall),
    ToolResult(ToolResult),
    File(File),
    Thought(Thought),
    Unknown(Unknown),
}

pub enum InputMessageContentView {
    Text(TextView),
    ToolCall(ToolCallView),
    ToolResult(ToolResultView),
    File(FileView),
    Thought(ThoughtView),
    Unknown(UnknownView),
}

impl DeepView for InputMessageContent {
    type V = InputMessageContentView;

    open spec fn deep_view(&self) -> InputMessageContentView {
        match self {
            InputMessageContent::Text(x) => InputMessageContentView::Text(x.deep_view()),
            InputMessageContent::ToolCall(x) => InputMessageContentView::ToolCall(x.deep_view()),
            InputMessageContent::ToolResult(x) => InputMessageContentView::ToolResult(
                x.deep_view(),
            ),
            InputMessageContent::File(x) => InputMessageContentView::File(x.deep_view()),
            InputMessageContent::Thought(x) => InputMessageContentView::Thought(x.deep_view()),
            InputMessageContent::Unknown(x) => InputMessageContentView::Unknown(x.deep_view()),
        }
    }
}

/// A message.
#[derive(Debug)]
pub struct InputMessage {
    pub role: Role,
    pub content: Vec<InputMessageContent>,
}

pub struct InputMessageView {
    pub role: Role,
    pub content: Seq<InputMessageContentView>,
}

impl DeepView for InputMessage {
    type V = InputMessageView;

    open spec fn deep_view(&self) -> InputMessageView {
        InputMessageView { role: self.role, content: self.content.deep_view() }
    }
}

/// The system prompt.
#[derive(Debug)]
pub enum System {
    Text(String),
}

pub enum SystemView {
    Text(Seq<char>),
}

impl DeepView for System {
    type V = SystemView;

    open spec fn deep_view(&self) -> SystemView {
        match self {
            System::Text(s) => SystemView::Text(s@),
        }
    }
}

/// The conversation.
#[derive(Debug)]
pub struct Input {
    pub system: Option<System>,
    pub messages: Vec<InputMessage>,
}

pub struct InputView {
    pub system: Option<SystemView>,
    pub messages: Seq<InputMessageView>,
}

impl DeepView for Input {
    type V = InputView;

    open spec fn deep_view(&self) -> InputView {
        InputView { system: self.system.deep_view(), messages: self.messages.deep_view() }
    }
}

// ---------------------------------------------------------------------------
// Tools
// ---------------------------------------------------------------------------

/// A function that the model may call.
#[derive(Debug)]
pub struct FunctionTool {
    pub name: String,
    pub description: String,
    pub parameters: Json,
    pub strict: bool,
}

pub struct FunctionToolView {
    pub name: Seq<char>,
    pub description: Seq<char>,
    pub parameters: JsonView,
    pub strict: bool,
}

impl DeepView for FunctionTool {
    type V = FunctionToolView;

    open spec fn deep_view(&self) -> FunctionToolView {
        FunctionToolView {
            name: self.name@,
            description: self.description@,
            parameters: self.parameters.deep_view(),
            strict: self.strict,
        }
    }
}

/// A tool.
#[derive(Debug)]
pub enum Tool {
    Function(FunctionTool),
}

pub enum ToolView {
    Function(FunctionToolView),
}

impl DeepView for Tool {
    type V = ToolView;

    open spec fn deep_view(&self) -> ToolView {
        match self {
            Tool::Function(f) => ToolView::Function(f.deep_view()),
        }
    }
}

/// Whether the model may, must or must not call a tool.
#[derive(Debug)]
pub enum ToolChoice {
    NoTool,
    Auto,
    Required,
    Specific(String),
}

pub enum ToolChoiceView {
    NoTool,
    Auto,
    Required,
    Specific(Seq<char>),
}

impl DeepView for ToolChoice {
    type V = ToolChoiceView;

    open spec fn deep_view(&self) -> ToolChoiceView {
        match self {
            ToolChoice::NoTool => ToolChoiceView::NoTool,
            ToolChoice::Auto => ToolChoiceView::Auto,
            ToolChoice::Required => ToolChoiceView::Required,
            ToolChoice::Specific(name) => ToolChoiceView::Specific(name@),
        }
    }
}

/// The tools of one request.
#[derive(Debug)]
pub struct DynamicToolParams {
    pub allowed_tools: Option<Vec<String>>,
    pub additional_tools: Option<Vec<Tool>>,
    pub tool_choice: Option<ToolChoice>,
    pub parallel_tool_calls: Option<bool>,
    pub provider_tools: Vec<Json>,
}

pub struct DynamicToolParamsView {
    pub allowed_tools: Option<Seq<Seq<char>>>,
    pub additional_tools: Option<Seq<ToolView>>,
    pub tool_choice: Option<ToolChoiceView>,
    pub parallel_tool_calls: Option<bool>,
    pub provider_tools: Seq<JsonView>,
}

impl DeepView for DynamicToolParams {
    type V = DynamicToolParamsView;

    open spec fn deep_view(&self) -> DynamicToolParamsView {
        DynamicToolParamsView {
            allowed_tools: self.allowed_tools.deep_view(),
            additional_tools: self.additional_tools.deep_view(),
            tool_choice: self.tool_choice.deep_view(),
            parallel_tool_calls: self.parallel_tool_calls,
            provider_tools: self.provider_tools.deep_view(),
        }
    }
}

// ---------------------------------------------------------------------------
// Cache markers
// ---------------------------------------------------------------------------

/// The block that a cache marker stands on.
#[derive(Clone, Copy, Debug, PartialEq, Eq, Structural)]
pub enum CacheControlTarget {
    SystemBlock { block_idx: usize },
    MessageContent { message_idx: usize, content_idx: usize },
    Tool { tool_idx: usize },
}

/// A cache marker and the block that it stands on.
#[derive(Clone, Copy, Debug, PartialEq, Eq, Structural)]
pub struct CacheControlSpan {
    pub target: CacheControlTarget,
    pub marker: AnthropicCacheControl,
}

impl DeepView for CacheControlSpan {
    type V = CacheControlSpan;

    open spec fn deep_view(&self) -> CacheControlSpan {
        *self
    }
}

// ---------------------------------------------------------------------------
// Parameters
// ---------------------------------------------------------------------------

/// How the model is to complete a chat. Parameters that this endpoint does not
/// know are carried as they came.
#[derive(Debug)]
pub struct ChatCompletionInferenceParams {
    pub temperature: Option<JsonNumber>,
    pub max_tokens: Option<u32>,
    pub top_p: Option<JsonNumber>,
    pub stop_sequences: Option<Vec<String>>,
    pub other: Vec<JsonEntry>,
}

pub struct ChatCompletionInferenceParamsView {
    pub temperature: Option<JsonNumberView>,
    pub max_tokens: Option<u32>,
    pub top_p: Option<JsonNumberView>,
    pub stop_sequences: Option<Seq<Seq<char>>>,
    pub other: Seq<(Seq<char>, JsonView)>,
}

impl DeepView for ChatCompletionInferenceParams {
    type V = ChatCompletionInferenceParamsView;

    open spec fn deep_view(&self) -> ChatCompletionInferenceParamsView {
        ChatCompletionInferenceParamsView {
            temperature: self.temperature.deep_view(),
            max_tokens: self.max_tokens,
            top_p: self.top_p.deep_view(),
            stop_sequences: self.stop_sequences.deep_view(),
            other: self.other.deep_view(),
        }
    }
}

/// The parameters of an inference.
#[derive(Debug)]
pub struct InferenceParams {
    pub chat_completion: ChatCompletionInferenceParams,
}

pub struct InferenceParamsView {
    pub chat_completion: ChatCompletionInferenceParamsView,
}

impl DeepView for InferenceParams {
    type V = InferenceParamsView;

    open spec fn deep_view(&self) -> InferenceParamsView {
        InferenceParamsView { chat_completion: self.chat_completion.deep_view() }
    }
}

/// A request to the inference engine. `cache_options`, `extra_body` and
/// `extra_headers` are carried as they came; nothing stands for the engine's
/// default.
#[derive(Debug)]
pub struct Params {
    pub function_name: Option<String>,
    pub model_name: Option<String>,
    pub episode_id: Option<u128>,
    pub namespace: Option<String>,
    pub input: Input,
    pub stream: Option<bool>,
    pub params: InferenceParams,
    pub variant_name: Option<String>,
    pub dryrun: Option<bool>,
    pub internal: bool,
    pub tags: StringMap,
    pub dynamic_tool_params: DynamicToolParams,
    pub output_schema: Option<Json>,
    pub cache_options: Option<Json>,
    pub credentials: StringMap,
    pub include_original_response: bool,
    pub include_raw_response: bool,
    pub include_raw_usage: bool,
    pub include_aggregated_response: bool,
    pub extra_body: Option<Json>,
    pub extra_headers: Option<Json>,
    pub internal_dynamic_variant_config: Option<Json>,
    pub cache_control_spans: Vec<CacheControlSpan>,
}

pub struct ParamsView {
    pub function_name: Option<Seq<char>>,
    pub model_name: Option<Seq<char>>,
    pub episode_id: Option<u128>,
    pub namespace: Option<Seq<char>>,
    pub input: InputView,
    pub stream: Option<bool>,
    pub params: InferenceParamsView,
    pub variant_name: Option<Seq<char>>,
    pub dryrun: Option<bool>,
    pub internal: bool,
    pub tags: Map<Seq<char>, Seq<char>>,
    pub dynamic_tool_params: DynamicToolParamsView,
    pub output_schema: Option<JsonView>,
    pub cache_options: Option<JsonView>,
    pub credentials: Map<Seq<char>, Seq<char>>,
    pub include_original_response: bool,
    pub include_raw_response: bool,
    pub include_raw_usage: bool,
    pub include_aggregated_response: bool,
    pub extra_body: Option<JsonView>,
    pub extra_headers: Option<JsonView>,
    pub internal_dynamic_variant_config: Option<JsonView>,
    pub cache_control_spans: Seq<CacheControlSpan>,
}

impl DeepView for Params {
    type V = ParamsView;

    open spec fn deep_view(&self) -> ParamsView {
        ParamsView {
            function_name: self.function_name.deep_view(),
            model_name: self.model_name.deep_view(),
            episode_id: self.episode_id,
            namespace: self.namespace.deep_view(),
            input: self.input.deep_view(),
            stream: self.stream,
            params: self.params.deep_view(),
            variant_name: self.variant_name.deep_view(),
            dryrun: self.dryrun,
            internal: self.internal,
            tags: self.tags@,
            dynamic_tool_params: self.dynamic_tool_params.deep_view(),
            output_schema: self.output_schema.deep_view(),
            cache_options: self.cache_options.deep_view(),
            credentials: self.credentials@,
            include_original_response: self.include_original_response,
            include_raw_response: self.include_raw_response,
            include_raw_usage: self.include_raw_usage,
            include_aggregated_response: self.include_aggregated_response,
            extra_body: self.extra_body.deep_view(),
            extra_headers: self.extra_headers.deep_view(),
            internal_dynamic_variant_config: self.internal_dynamic_variant_config.deep_view(),
            cache_control_spans: self.cache_control_spans@,
        }
    }
}

// ---------------------------------------------------------------------------
// Answers
// ---------------------------------------------------------------------------

/// An amount of money: `mantissa / 10^scale`.
#[derive(Clone, Copy, Debug, PartialEq, Eq, Structural)]
pub struct Cost {
    pub mantissa: i128,
    pub scale: u32,
}

/// The tokens that an inference took.
#[derive(Clone, Copy, Debug, PartialEq, Eq, Structural)]
pub struct Usage {
    pub input_tokens: Option<u32>,
    pub output_tokens: Option<u32>,
    pub provider_cache_read_input_tokens: Option<u32>,
    pub provider_cache_write_input_tokens: Option<u32>,
    pub cost: Option<Cost>,
}

/// The usage that reports nothing.
pub open spec fn no_usage() -> Usage {
    Usage {
        input_tokens: None,
        output_tokens: None,
        provider_cache_read_input_tokens: None,
        provider_cache_write_input_tokens: None,
        cost: None,
    }
}

impl Default for Usage {
    fn default() -> (r: Usage)
        ensures
            r == no_usage(),
    {
        Usage {
            input_tokens: None,
            output_tokens: None,
            provider_cache_read_input_tokens: None,
            provider_cache_write_input_tokens: None,
            cost: None,
        }
    }
}

/// Why the model stopped.
#[derive(Clone, Copy, Debug, PartialEq, Eq, Structural)]
pub enum FinishReason {
    Stop,
    StopSequence,
    Length,
    ToolCall,
    ContentFilter,
    Unknown,
}

/// A tool call that a model answered with, as the model wrote it.
#[derive(Debug)]
pub struct InferenceResponseToolCall {
    pub id: String,
    pub raw_name: String,
    pub raw_arguments: String,
}

/// A block of a chat answer.
#[derive(Debug)]
pub enum ContentBlockChatOutput {
    Text(Text),
    ToolCall(InferenceResponseToolCall),
    Thought(Thought),
    Unknown(Unknown),
}

#[allow(inconsistent_fields)]
pub enum ContentBlockChatOutputView {
    Text { text: Seq<char> },
    ToolCall { id: Seq<char>, raw_name: Seq<char>, raw_arguments: Seq<char> },
    Thought { text: Option<Seq<char>>, signature: Option<Seq<char>> },
    Unknown { data: JsonView },
}

impl DeepView for ContentBlockChatOutput {
    type V = ContentBlockChatOutputView;

    open spec fn deep_view(&self) -> ContentBlockChatOutputView {
        match self {
            ContentBlockChatOutput::Text(t) => ContentBlockChatOutputView::Text { text: t.text@ },
            ContentBlockChatOutput::ToolCall(t) => ContentBlockChatOutputView::ToolCall {
                id: t.id@,
                raw_name: t.raw_name@,
                raw_arguments: t.raw_arguments@,
            },
            ContentBlockChatOutput::Thought(t) => ContentBlockChatOutputView::Thought {
                text: t.text.deep_view(),
                signature: t.signature.deep_view(),
            },
            ContentBlockChatOutput::Unknown(u) => ContentBlockChatOutputView::Unknown {
                data: u.data.deep_view(),
            },
        }
    }
}

/// The answer of a chat function. `inference_id` and `episode_id` are UUIDs.
#[derive(Debug)]
pub struct ChatInferenceResponse {
    pub inference_id: u128,
    pub episode_id: u128,
    pub variant_name: String,
    pub content: Vec<ContentBlockChatOutput>,
    pub usage: Usage,
    pub finish_reason: Option<FinishReason>,
}

/// The output of a JSON function.
#[derive(Debug)]
pub struct JsonInferenceOutput {
    pub raw: Option<String>,
    pub parsed: Option<Json>,
}

/// The answer of a JSON function.
#[derive(Debug)]
pub struct JsonInferenceResponse {
    pub inference_id: u128,
    pub episode_id: u128,
    pub variant_name: String,
    pub output: JsonInferenceOutput,
    pub usage: Usage,
    pub finish_reason: Option<FinishReason>,
}

/// An answer.
#[derive(Debug)]
pub enum InferenceResponse {
    Chat(ChatInferenceResponse),
    Json(JsonInferenceResponse),
}

pub enum InferenceResponseView {
    Chat {
        inference_id: u128,
        variant_name: Seq<char>,
        content: Seq<ContentBlockChatOutputView>,
        usage: Usage,
        finish_reason: Option<FinishReason>,
    },
    Json {
        inference_id: u128,
        variant_name: Seq<char>,
        raw: Option<Seq<char>>,
        parsed: Option<JsonView>,
        usage: Usage,
    },
}

impl DeepView for InferenceResponse {
    type V = InferenceResponseView;

    open spec fn deep_view(&self) -> InferenceResponseView {
        match self {
            InferenceResponse::Chat(c) => InferenceResponseView::Chat {
                inference_id: c.inference_id,
                variant_name: c.variant_name@,
                content: c.content.deep_view(),
                usage: c.usage,
                finish_reason: c.finish_reason,
            },
            InferenceResponse::Json(j) => InferenceResponseView::Json {
                inference_id: j.inference_id,
                variant_name: j.variant_name@,
                raw: j.output.raw.deep_view(),
                parsed: j.output.parsed.deep_view(),
                usage: j.usage,
            },
        }
    }
}

/// What an inference gives: an answer, or a stream of chunks that its caller
/// holds.
#[derive(Debug)]
pub enum InferenceOutput {
    NonStreaming(InferenceResponse),
    Streaming,
}

// ---------------------------------------------------------------------------
// Chunks
// ---------------------------------------------------------------------------

/// A piece of text.
#[derive(Debug)]
pub struct TextChunk {
    pub id: String,
    pub text: String,
}

/// A piece of a tool call.
#[derive(Debug)]
pub struct ToolCallChunk {
    pub id: String,
    pub raw_name: Option<String>,
    pub raw_arguments: String,
}

/// A piece of a thought.
#[derive(Debug)]
pub struct ThoughtChunk {
    pub id: String,
    pub text: Option<String>,
    pub signature: Option<String>,
}

/// A block whose kind only some provider knows.
#[derive(Debug)]
pub struct UnknownChunk {
    pub id: String,
    pub data: Json,
}

/// A piece of a content block.
#[derive(Debug)]
pub enum ContentBlockChunk {
    Text(TextChunk),
    ToolCall(ToolCallChunk),
    Thought(ThoughtChunk),
    Unknown(UnknownChunk),
}

#[allow(inconsistent_fields)]
pub enum ContentBlockChunkView {
    Text { text: Seq<char> },
    ToolCall { id: Seq<char>, raw_name: Option<Seq<char>>, raw_arguments: Seq<char> },
    Thought { text: Option<Seq<char>>, signature: Option<Seq<char>> },
    Unknown { data: JsonView },
}

impl DeepView for ContentBlockChunk {
    type V = ContentBlockChunkView;

    open spec fn deep_view(&self) -> ContentBlockChunkView {
        match self {
            ContentBlockChunk::Text(t) => ContentBlockChunkView::Text { text: t.text@ },
            ContentBlockChunk::ToolCall(t) => ContentBlockChunkView::ToolCall {
                id: t.id@,
                raw_name: t.raw_name.deep_view(),
                raw_arguments: t.raw_arguments@,
            },
            ContentBlockChunk::Thought(t) => ContentBlockChunkView::Thought {
                text: t.text.deep_view(),
                signature: t.signature.deep_view(),
            },
            ContentBlockChunk::Unknown(u) => ContentBlockChunkView::Unknown {
                data: u.data.deep_view(),
            },
        }
    }
}

/// A chunk of a chat answer.
#[derive(Debug)]
pub struct ChatInferenceResponseChunk {
    pub inference_id: u128,
    pub episode_id: u128,
    pub variant_name: String,
    pub content: Vec<ContentBlockChunk>,
    pub usage: Option<Usage>,
    pub finish_reason: Option<FinishReason>,
}

/// A chunk of the answer of a JSON function.
#[derive(Debug)]
pub struct JsonInferenceResponseChunk {
    pub inference_id: u128,
    pub episode_id: u128,
    pub variant_name: String,
    pub raw: String,
    pub usage: Option<Usage>,
    pub finish_reason: Option<FinishReason>,
}

/// A chunk.
#[derive(Debug)]
pub enum InferenceResponseChunk {
    Chat(ChatInferenceResponseChunk),
    Json(JsonInferenceResponseChunk),
}

pub enum ChunkView {
    Chat {
        inference_id: u128,
        content: Seq<ContentBlockChunkView>,
        usage: Option<Usage>,
        finish_reason: Option<FinishReason>,
    },
    Json { raw: Seq<char>, usage: Option<Usage>, finish_reason: Option<FinishReason> },
}

impl DeepView for InferenceResponseChunk {
    type V = ChunkView;

    open spec fn deep_view(&self) -> ChunkView {
        match self {
            InferenceResponseChunk::Chat(c) => ChunkView::Chat {
                inference_id: c.inference_id,
                content: c.content.deep_view(),
                usage: c.usage,
                finish_reason: c.finish_reason,
            },
            InferenceResponseChunk::Json(j) => ChunkView::Json {
                raw: j.raw@,
                usage: j.usage,
                finish_reason: j.finish_reason,
            },
        }
    }
}

} // verus!
