//! The models by which the contracts speak of values hold what the values hold.
use crate::count_tokens::{
    AnthropicCountTokensParams, CountTokensPlan, CountTokensTarget, ModelConfig, ModelEntry,
    ProviderConfig, ProviderEntry,
};
use crate::handler::Prepared;
use crate::inference::{
    Base64File, ChatCompletionInferenceParams, ChunkView, ContentBlockChatOutput,
    ContentBlockChatOutputView, ContentBlockChunk, ContentBlockChunkView, DynamicToolParams, File,
    FunctionTool, InferenceParams, InferenceResponse, InferenceResponseChunk, InferenceResponseView,
    Input, InputMessage, InputMessageContent, Params, System, Text, Thought, Tool, ToolCall,
    ToolChoice, ToolResult, Unknown, UrlFile,
};
use crate::types::into_params::{Base64Source, Route};
use crate::types::messages::{
    AnthropicContentBlockOwned, AnthropicDocumentSourceOwned, AnthropicImageSourceOwned,
    AnthropicMessageContentOwned, AnthropicMessageOwned, AnthropicMessagesParams, AnthropicMetadata,
    AnthropicResponse, AnthropicResponseContentBlock, AnthropicSystem,
    AnthropicSystemContentBlockOwned, AnthropicTensorZeroMetadata, AnthropicToolChoiceOwned,
    AnthropicToolOwned,
};
use crate::types::sse::SseEvent;
use crate::types::translate::Base64Refusal;
use vstd::prelude::*;

verus! {

/// The model of a value holds what the value holds, field by field.
pub proof fn text_is_shown(x: Text)
    ensures
        x.deep_view().text == x.text@,
{
}

/// The model of a value holds what the value holds, field by field.
pub proof fn tool_call_is_shown(x: ToolCall)
    ensures
        x.deep_view().id == x.id@,
        x.deep_view().name == x.name@,
        x.deep_view().arguments == x.arguments@,
{
}

/// The model of a value holds what the value holds, field by field.
pub proof fn tool_result_is_shown(x: ToolResult)
    ensures
        x.deep_view().id == x.id@,
        x.deep_view().name == x.name@,
        x.deep_view().result == x.result@,
{
}

/// The model of a value holds what the value holds, field by field.
pub proof fn thought_is_shown(x: Thought)
    ensures
        x.deep_view().text == x.text.deep_view(),
        x.deep_view().signature == x.signature.deep_view(),
        x.deep_view().summary == x.summary.deep_view(),
        x.deep_view().provider_type == x.provider_type.deep_view(),
        x.deep_view().extra_data == x.extra_data.deep_view(),
{
}

/// The model of a value holds what the value holds, field by field.
pub proof fn unknown_is_shown(x: Unknown)
    ensures
        x.deep_view().data == x.data.deep_view(),
        x.deep_view().model_name == x.model_name.deep_view(),
        x.deep_view().provider_name == x.provider_name.deep_view(),
{
}

/// The model of a value holds what the value holds, field by field.
pub proof fn base64_file_is_shown(x: Base64File)
    ensures
        x.deep_view().source_url == x.source_url.deep_view(),
        x.deep_view().mime_type == x.mime_type@,
        x.deep_view().data == x.data@,
        x.deep_view().detail == x.detail.deep_view(),
        x.deep_view().filename == x.filename.deep_view(),
{
}

/// The model of a value holds what the value holds, field by field.
pub proof fn url_file_is_shown(x: UrlFile)
    ensures
        x.deep_view().url == x.url@,
        x.deep_view().mime_type == x.mime_type.deep_view(),
        x.deep_view().detail == x.detail.deep_view(),
        x.deep_view().filename == x.filename.deep_view(),
{
}

/// The model of a value holds what the value holds, field by field.
pub proof fn input_message_is_shown(x: InputMessage)
    ensures
        x.deep_view().role == x.role,
        x.deep_view().content == x.content.deep_view(),
{
}

/// The model of a value holds what the value holds, field by field.
pub proof fn input_is_shown(x: Input)
    ensures
        x.deep_view().system == x.system.deep_view(),
        x.deep_view().messages == x.messages.deep_view(),
{
}

/// The model of a value holds what the value holds, field by field.
pub proof fn function_tool_is_shown(x: FunctionTool)
    ensures
        x.deep_view().name == x.name@,
        x.deep_view().description == x.description@,
        x.deep_view().parameters == x.parameters.deep_view(),
        x.deep_view().strict == x.strict,
{
}

/// The model of a value holds what the value holds, field by field.
pub proof fn dynamic_tool_params_is_shown(x: DynamicToolParams)
    ensures
        x.deep_view().allowed_tools == x.allowed_tools.deep_view(),
        x.deep_view().additional_tools == x.additional_tools.deep_view(),
        x.deep_view().tool_choice == x.tool_choice.deep_view(),
        x.deep_view().parallel_tool_calls == x.parallel_tool_calls,
        x.deep_view().provider_tools == x.provider_tools.deep_view(),
{
}

/// The model of a value holds what the value holds, field by field.
pub proof fn chat_completion_inference_params_is_shown(x: ChatCompletionInferenceParams)
    ensures
        x.deep_view().temperature == x.temperature.deep_view(),
        x.deep_view().max_tokens == x.max_tokens,
        x.deep_view().top_p == x.top_p.deep_view(),
        x.deep_view().stop_sequences == x.stop_sequences.deep_view(),
        x.deep_view().other == x.other.deep_view(),
{
}

/// The model of a value holds what the value holds, field by field.
pub proof fn inference_params_is_shown(x: InferenceParams)
    ensures
        x.deep_view().chat_completion == x.chat_completion.deep_view(),
{
}

/// The model of a value holds what the value holds, field by field.
pub proof fn params_is_shown(x: Params)
    ensures
        x.deep_view().function_name == x.function_name.deep_view(),
        x.deep_view().model_name == x.model_name.deep_view(),
        x.deep_view().episode_id == x.episode_id,
        x.deep_view().namespace == x.namespace.deep_view(),
        x.deep_view().input == x.input.deep_view(),
        x.deep_view().stream == x.stream,
        x.deep_view().params == x.params.deep_view(),
        x.deep_view().variant_name == x.variant_name.deep_view(),
        x.deep_view().dryrun == x.dryrun,
        x.deep_view().internal == x.internal,
        x.deep_view().tags == x.tags@,
        x.deep_view().dynamic_tool_params == x.dynamic_tool_params.deep_view(),
        x.deep_view().output_schema == x.output_schema.deep_view(),
        x.deep_view().cache_options == x.cache_options.deep_view(),
        x.deep_view().credentials == x.credentials@,
        x.deep_view().include_original_response == x.include_original_response,
        x.deep_view().include_raw_response == x.include_raw_response,
        x.deep_view().include_raw_usage == x.include_raw_usage,
        x.deep_view().include_aggregated_response == x.include_aggregated_response,
        x.deep_view().extra_body == x.extra_body.deep_view(),
        x.deep_view().extra_headers == x.extra_headers.deep_view(),
        x.deep_view().internal_dynamic_variant_config == x.internal_dynamic_variant_config.deep_view(),
        x.deep_view().cache_control_spans == x.cache_control_spans@,
{
}

/// The model of a value holds what the value holds, field by field.
pub proof fn anthropic_message_owned_is_shown(x: AnthropicMessageOwned)
    ensures
        x.deep_view().role == x.role,
        x.deep_view().content == x.content.deep_view(),
{
}

/// The model of a value holds what the value holds, field by field.
pub proof fn anthropic_tool_owned_is_shown(x: AnthropicToolOwned)
    ensures
        x.deep_view().name == x.name@,
        x.deep_view().description == x.description.deep_view(),
        x.deep_view().parameters == x.parameters.deep_view(),
        x.deep_view().strict == x.strict,
        x.deep_view().cache_control == x.cache_control,
{
}

/// The model of a value holds what the value holds, field by field.
pub proof fn anthropic_tensor_zero_metadata_is_shown(x: AnthropicTensorZeroMetadata)
    ensures
        x.deep_view().episode_id == x.episode_id,
        x.deep_view().variant_name == x.variant_name.deep_view(),
        x.deep_view().tags == x.tags@,
        x.deep_view().cache_options == x.cache_options.deep_view(),
        x.deep_view().extra_body == x.extra_body.deep_view(),
        x.deep_view().extra_headers == x.extra_headers.deep_view(),
        x.deep_view().dryrun == x.dryrun,
        x.deep_view().namespace == x.namespace.deep_view(),
        x.deep_view().credentials == x.credentials@,
        x.deep_view().params == x.params.deep_view(),
        x.deep_view().include_raw_usage == x.include_raw_usage,
{
}

/// The model of a value holds what the value holds, field by field.
pub proof fn anthropic_metadata_is_shown(x: AnthropicMetadata)
    ensures
        x.deep_view().user_id == x.user_id.deep_view(),
        x.deep_view().tensorzero == x.tensorzero.deep_view(),
{
}

/// The model of a value holds what the value holds, field by field.
pub proof fn anthropic_messages_params_is_shown(x: AnthropicMessagesParams)
    ensures
        x.deep_view().model == x.model@,
        x.deep_view().messages == x.messages.deep_view(),
        x.deep_view().system == x.system.deep_view(),
        x.deep_view().max_tokens == x.max_tokens,
        x.deep_view().temperature == x.temperature.deep_view(),
        x.deep_view().top_p == x.top_p.deep_view(),
        x.deep_view().top_k == x.top_k,
        x.deep_view().stop_sequences == x.stop_sequences.deep_view(),
        x.deep_view().stream == x.stream,
        x.deep_view().tools == x.tools.deep_view(),
        x.deep_view().tool_choice == x.tool_choice.deep_view(),
        x.deep_view().metadata == x.metadata.deep_view(),
        x.deep_view().service_tier == x.service_tier.deep_view(),
        x.deep_view().container == x.container.deep_view(),
{
}

/// The model of a value holds what the value holds, field by field.
pub proof fn anthropic_response_is_shown(x: AnthropicResponse)
    ensures
        x.deep_view().id == x.id@,
        x.deep_view().response_type == x.response_type@,
        x.deep_view().role == x.role@,
        x.deep_view().content == x.content.deep_view(),
        x.deep_view().model == x.model@,
        x.deep_view().stop_reason == x.stop_reason,
        x.deep_view().stop_sequence == x.stop_sequence,
        x.deep_view().usage == x.usage,
{
}

/// The model of a value holds what the value holds, field by field.
pub proof fn anthropic_count_tokens_params_is_shown(x: AnthropicCountTokensParams)
    ensures
        x.deep_view().model == x.model@,
        x.deep_view().metadata == x.metadata.deep_view(),
{
}

/// The model of a value holds what the value holds, field by field.
pub proof fn model_config_is_shown(x: ModelConfig)
    ensures
        x.deep_view().routing == x.routing.deep_view(),
        x.deep_view().providers == x.providers.deep_view(),
{
}

/// The model of a value holds what the value holds, field by field.
pub proof fn count_tokens_target_is_shown(x: CountTokensTarget)
    ensures
        x.deep_view().model == x.model@,
        x.deep_view().provider == x.provider@,
{
}

/// The model of a value holds what the value holds, field by field.
pub proof fn count_tokens_plan_is_shown(x: CountTokensPlan)
    ensures
        x.deep_view().model == x.model@,
        x.deep_view().provider == x.provider@,
        x.deep_view().base_url == x.base_url@,
        x.deep_view().credentials == x.credentials@,
        x.deep_view().body == x.body.deep_view(),
{
}

/// The model of a value holds what the value holds, field by field.
pub proof fn route_is_shown(x: Route)
    ensures
        x.deep_view().function_name == x.function_name.deep_view(),
        x.deep_view().model_name == x.model_name.deep_view(),
{
}

/// The model of a value holds what the value holds, field by field.
pub proof fn base64_refusal_is_shown(x: Base64Refusal)
    ensures
        x.deep_view().media_type == x.media_type@,
        x.deep_view().data == x.data@,
        x.deep_view().reason == x.reason@,
{
}

/// The model of a value holds what the value holds, field by field.
pub proof fn sse_event_is_shown(x: SseEvent)
    ensures
        x.deep_view().event == x.event@,
        x.deep_view().id == x.id@,
        x.deep_view().data == x.data@,
{
}

/// The model of a value holds what the value holds, field by field.
pub proof fn prepared_is_shown(x: Prepared)
    ensures
        x.deep_view().params == x.params.deep_view(),
        x.deep_view().model_prefix == x.model_prefix@,
        x.deep_view().stream == x.stream,
{
}

/// The model of a value is of the kind of the value, and holds what it holds.
pub proof fn anthropic_image_source_owned_is_shown(x: AnthropicImageSourceOwned)
    ensures
        match x {
            AnthropicImageSourceOwned::Base64 { media_type, data } => {
                &&& x.deep_view() is Base64
                &&& x.deep_view()->Base64_media_type == media_type@
                &&& x.deep_view()->Base64_data == data@
            },
            AnthropicImageSourceOwned::Url { url } => {
                &&& x.deep_view() is Url
                &&& x.deep_view()->Url_url == url@
            },
        },
{
}

/// The model of a value is of the kind of the value, and holds what it holds.
pub proof fn anthropic_document_source_owned_is_shown(x: AnthropicDocumentSourceOwned)
    ensures
        match x {
            AnthropicDocumentSourceOwned::Base64 { media_type, data } => {
                &&& x.deep_view() is Base64
                &&& x.deep_view()->Base64_media_type == media_type@
                &&& x.deep_view()->Base64_data == data@
            },
            AnthropicDocumentSourceOwned::Url { url } => {
                &&& x.deep_view() is Url
                &&& x.deep_view()->Url_url == url@
            },
        },
{
}

/// The model of a value is of the kind of the value, and holds what it holds.
pub proof fn anthropic_content_block_owned_is_shown(x: AnthropicContentBlockOwned)
    ensures
        match x {
            AnthropicContentBlockOwned::Text { text, cache_control } => {
                &&& x.deep_view() is Text
                &&& x.deep_view()->Text_text == text@
                &&& x.deep_view()->Text_cache_control == cache_control
            },
            AnthropicContentBlockOwned::Image { cache_control, source } => {
                &&& x.deep_view() is Image
                &&& x.deep_view()->Image_cache_control == cache_control
                &&& x.deep_view()->Image_source == source.deep_view()
            },
            AnthropicContentBlockOwned::Document { cache_control, source } => {
                &&& x.deep_view() is Document
                &&& x.deep_view()->Document_cache_control == cache_control
                &&& x.deep_view()->Document_source == source.deep_view()
            },
            AnthropicContentBlockOwned::ToolUse { id, name, input, cache_control } => {
                &&& x.deep_view() is ToolUse
                &&& x.deep_view()->ToolUse_id == id@
                &&& x.deep_view()->ToolUse_name == name@
                &&& x.deep_view()->ToolUse_input == input.deep_view()
                &&& x.deep_view()->ToolUse_cache_control == cache_control
            },
            AnthropicContentBlockOwned::ToolResult { tool_use_id, content, is_error, cache_control } => {
                &&& x.deep_view() is ToolResult
                &&& x.deep_view()->ToolResult_tool_use_id == tool_use_id@
                &&& x.deep_view()->ToolResult_content == content.deep_view()
                &&& x.deep_view()->ToolResult_is_error == is_error
                &&& x.deep_view()->ToolResult_cache_control == cache_control
            },
            AnthropicContentBlockOwned::Thinking { thinking, signature } => {
                &&& x.deep_view() is Thinking
                &&& x.deep_view()->Thinking_thinking == thinking@
                &&& x.deep_view()->Thinking_signature == signature@
            },
            AnthropicContentBlockOwned::RedactedThinking { data } => {
                &&& x.deep_view() is RedactedThinking
                &&& x.deep_view()->RedactedThinking_data == data@
            },
        },
{
    if let AnthropicContentBlockOwned::ToolResult { content, .. } = x {
        assert(x.deep_view()->ToolResult_content =~= content.deep_view());
    }
}

/// The model of a value is of the kind of the value, and holds what it holds.
pub proof fn anthropic_tool_choice_owned_is_shown(x: AnthropicToolChoiceOwned)
    ensures
        match x {
            AnthropicToolChoiceOwned::Auto { disable_parallel_tool_use } => {
                &&& x.deep_view() is Auto
                &&& x.deep_view()->Auto_disable_parallel_tool_use == disable_parallel_tool_use
            },
            AnthropicToolChoiceOwned::Any { disable_parallel_tool_use } => {
                &&& x.deep_view() is Any
                &&& x.deep_view()->Any_disable_parallel_tool_use == disable_parallel_tool_use
            },
            AnthropicToolChoiceOwned::Tool { name, disable_parallel_tool_use } => {
                &&& x.deep_view() is Tool
                &&& x.deep_view()->Tool_name == name@
                &&& x.deep_view()->Tool_disable_parallel_tool_use == disable_parallel_tool_use
            },
            AnthropicToolChoiceOwned::NoTool { disable_parallel_tool_use } => {
                &&& x.deep_view() is NoTool
                &&& x.deep_view()->NoTool_disable_parallel_tool_use == disable_parallel_tool_use
            },
        },
{
}

/// The model of a value is of the kind of the value, and holds what it holds.
pub proof fn anthropic_system_is_shown(x: AnthropicSystem)
    ensures
        match x {
            AnthropicSystem::String(y) => x.deep_view() is String && x.deep_view()->String_0 == y@,
            AnthropicSystem::Blocks(y) => x.deep_view() is Blocks && x.deep_view()->Blocks_0 == y.deep_view(),
        },
{
}

/// The model of a value is of the kind of the value, and holds what it holds.
pub proof fn anthropic_message_content_owned_is_shown(x: AnthropicMessageContentOwned)
    ensures
        match x {
            AnthropicMessageContentOwned::String(y) => x.deep_view() is String && x.deep_view()->String_0 == y@,
            AnthropicMessageContentOwned::Blocks(y) => x.deep_view() is Blocks && x.deep_view()->Blocks_0 == y.deep_view(),
        },
{
}

/// The model of a value is of the kind of the value, and holds what it holds.
pub proof fn anthropic_response_content_block_is_shown(x: AnthropicResponseContentBlock)
    ensures
        match x {
            AnthropicResponseContentBlock::Text { text, cache_control } => {
                &&& x.deep_view() is Text
                &&& x.deep_view()->Text_text == text@
                &&& x.deep_view()->Text_cache_control == cache_control
            },
            AnthropicResponseContentBlock::ToolUse { id, name, input, cache_control } => {
                &&& x.deep_view() is ToolUse
                &&& x.deep_view()->ToolUse_id == id@
                &&& x.deep_view()->ToolUse_name == name@
                &&& x.deep_view()->ToolUse_input == input.deep_view()
                &&& x.deep_view()->ToolUse_cache_control == cache_control
            },
            AnthropicResponseContentBlock::Thinking { thinking, signature } => {
                &&& x.deep_view() is Thinking
                &&& x.deep_view()->Thinking_thinking == thinking@
                &&& x.deep_view()->Thinking_signature == signature@
            },
            AnthropicResponseContentBlock::RedactedThinking { data } => {
                &&& x.deep_view() is RedactedThinking
                &&& x.deep_view()->RedactedThinking_data == data@
            },
        },
{
}

/// The model of a value is of the kind of the value, and holds what it holds.
pub proof fn file_is_shown(x: File)
    ensures
        match x {
            File::Base64(y) => x.deep_view() is Base64 && x.deep_view()->Base64_0 == y.deep_view(),
            File::Url(y) => x.deep_view() is Url && x.deep_view()->Url_0 == y.deep_view(),
        },
{
}

/// The model of a value is of the kind of the value, and holds what it holds.
pub proof fn input_message_content_is_shown(x: InputMessageContent)
    ensures
        match x {
            InputMessageContent::Text(y) => x.deep_view() is Text && x.deep_view()->Text_0 == y.deep_view(),
            InputMessageContent::ToolCall(y) => x.deep_view() is ToolCall && x.deep_view()->ToolCall_0 == y.deep_view(),
            InputMessageContent::ToolResult(y) => x.deep_view() is ToolResult && x.deep_view()->ToolResult_0 == y.deep_view(),
            InputMessageContent::File(y) => x.deep_view() is File && x.deep_view()->File_0 == y.deep_view(),
            InputMessageContent::Thought(y) => x.deep_view() is Thought && x.deep_view()->Thought_0 == y.deep_view(),
            InputMessageContent::Unknown(y) => x.deep_view() is Unknown && x.deep_view()->Unknown_0 == y.deep_view(),
        },
{
}

/// The model of a value is of the kind of the value, and holds what it holds.
pub proof fn system_is_shown(x: System)
    ensures
        match x {
            System::Text(y) => x.deep_view() is Text && x.deep_view()->Text_0 == y@,
        },
{
}

/// The model of a value is of the kind of the value, and holds what it holds.
pub proof fn tool_is_shown(x: Tool)
    ensures
        match x {
            Tool::Function(y) => x.deep_view() is Function && x.deep_view()->Function_0 == y.deep_view(),
        },
{
}

/// The model of a value is of the kind of the value, and holds what it holds.
pub proof fn tool_choice_is_shown(x: ToolChoice)
    ensures
        match x {
            ToolChoice::NoTool => x.deep_view() is NoTool,
            ToolChoice::Auto => x.deep_view() is Auto,
            ToolChoice::Required => x.deep_view() is Required,
            ToolChoice::Specific(y) => x.deep_view() is Specific && x.deep_view()->Specific_0 == y@,
        },
{
}

/// The model of a value is of the kind of the value, and holds what it holds.
pub proof fn provider_config_is_shown(x: ProviderConfig)
    ensures
        match x {
            ProviderConfig::Anthropic { model_name, base_url } => {
                &&& x.deep_view() is Anthropic
                &&& x.deep_view()->Anthropic_model_name == model_name@
                &&& x.deep_view()->Anthropic_base_url == base_url@
            },
            ProviderConfig::GcpVertexAnthropic => x.deep_view() is GcpVertexAnthropic,
            ProviderConfig::Other { provider_type } => {
                &&& x.deep_view() is Other
                &&& x.deep_view()->Other_provider_type == provider_type@
            },
        },
{
}

/// The model of a block of an answer is of the kind of the block, and holds what it holds.
pub proof fn content_block_chat_output_is_shown(x: ContentBlockChatOutput)
    ensures
        match x {
            ContentBlockChatOutput::Text(y) => x.deep_view() == (ContentBlockChatOutputView::Text {
                text: y.text@,
            }),
            ContentBlockChatOutput::ToolCall(y) => x.deep_view() == (
            ContentBlockChatOutputView::ToolCall {
                id: y.id@,
                raw_name: y.raw_name@,
                raw_arguments: y.raw_arguments@,
            }),
            ContentBlockChatOutput::Thought(y) => x.deep_view() == (
            ContentBlockChatOutputView::Thought {
                text: y.text.deep_view(),
                signature: y.signature.deep_view(),
            }),
            ContentBlockChatOutput::Unknown(y) => x.deep_view() == (
            ContentBlockChatOutputView::Unknown { data: y.data.deep_view() }),
        },
{
}

/// The model of an answer is of the kind of the answer, and holds what it holds.
pub proof fn inference_response_is_shown(x: InferenceResponse)
    ensures
        match x {
            InferenceResponse::Chat(y) => x.deep_view() == (InferenceResponseView::Chat {
                inference_id: y.inference_id,
                variant_name: y.variant_name@,
                content: y.content.deep_view(),
                usage: y.usage,
                finish_reason: y.finish_reason,
            }),
            InferenceResponse::Json(y) => x.deep_view() == (InferenceResponseView::Json {
                inference_id: y.inference_id,
                variant_name: y.variant_name@,
                raw: y.output.raw.deep_view(),
                parsed: y.output.parsed.deep_view(),
                usage: y.usage,
            }),
        },
{
}

/// The model of a piece of an answer is of the kind of the piece, and holds what it holds.
pub proof fn content_block_chunk_is_shown(x: ContentBlockChunk)
    ensures
        match x {
            ContentBlockChunk::Text(y) => x.deep_view() == (ContentBlockChunkView::Text {
                text: y.text@,
            }),
            ContentBlockChunk::ToolCall(y) => x.deep_view() == (ContentBlockChunkView::ToolCall {
                id: y.id@,
                raw_name: y.raw_name.deep_view(),
                raw_arguments: y.raw_arguments@,
            }),
            ContentBlockChunk::Thought(y) => x.deep_view() == (ContentBlockChunkView::Thought {
                text: y.text.deep_view(),
                signature: y.signature.deep_view(),
            }),
            ContentBlockChunk::Unknown(y) => x.deep_view() == (ContentBlockChunkView::Unknown {
                data: y.data.deep_view(),
            }),
        },
{
}

/// The model of a chunk is of the kind of the chunk, and holds what it holds.
pub proof fn inference_response_chunk_is_shown(x: InferenceResponseChunk)
    ensures
        match x {
            InferenceResponseChunk::Chat(y) => x.deep_view() == (ChunkView::Chat {
                inference_id: y.inference_id,
                content: y.content.deep_view(),
                usage: y.usage,
                finish_reason: y.finish_reason,
            }),
            InferenceResponseChunk::Json(y) => x.deep_view() == (ChunkView::Json {
                raw: y.raw@,
                usage: y.usage,
                finish_reason: y.finish_reason,
            }),
        },
{
}

/// The model of a block of a system prompt holds what the block holds.
pub proof fn system_block_is_shown(x: AnthropicSystemContentBlockOwned)
    ensures
        match x {
            AnthropicSystemContentBlockOwned::Text { text, cache_control } => x.deep_view().text
                == text@ && x.deep_view().cache_control == cache_control,
        },
{
}

/// The models of named entries are their names and the models of what stands under them.
pub proof fn entries_are_shown(provider: ProviderEntry, model: ModelEntry, source: Base64Source)
    ensures
        provider.deep_view() == (provider.name@, provider.config.deep_view()),
        model.deep_view() == (model.name@, model.config.deep_view()),
        source.deep_view() == (source.media_type@, source.data@),
{
}

} // verus!
