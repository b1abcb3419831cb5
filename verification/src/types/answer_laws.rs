//! What a response that is not streamed says of an answer.
use crate::inference::{ContentBlockChatOutputView, InferenceResponseView, Usage};
use crate::json::JsonView;
use crate::outside::{json_text, parsed_json, uuid_text};
use crate::types::delta_laws::{is_reason_for, shows_usage};
use crate::types::messages::ResponseBlockView;
use crate::types::response::response_of;
use vstd::prelude::*;

verus! {

// ---------------------------------------------------------------------------
// Responses
// ---------------------------------------------------------------------------

/// The usage that an answer reports.
pub open spec fn usage_in(answer: InferenceResponseView) -> Usage {
    match answer {
        InferenceResponseView::Chat { usage, .. } => usage,
        InferenceResponseView::Json { usage, .. } => usage,
    }
}

/// Whatever the kind of the answer, the response shows its usage: the tokens that went in
/// and came out, zero only where none are reported, and those of the cache.
pub proof fn responses_show_the_usage(answer: InferenceResponseView, prefix: Seq<char>)
    ensures
        ({
            let shown = response_of(answer, prefix).usage;
            let usage = usage_in(answer);
            &&& shows_usage(
                usage,
                shown.input_tokens,
                shown.output_tokens,
                shown.cache_creation_input_tokens,
                shown.cache_read_input_tokens,
            )
            &&& usage.input_tokens matches Some(n) ==> shown.input_tokens == n
            &&& usage.output_tokens matches Some(n) ==> shown.output_tokens == n
            &&& usage.provider_cache_read_input_tokens matches Some(n)
                ==> shown.cache_read_input_tokens == Some(n)
            &&& usage.provider_cache_write_input_tokens matches Some(n)
                ==> shown.cache_creation_input_tokens == Some(n)
        }),
{
}

/// Whatever the kind of the answer, the response is a message of the assistant with the
/// ID of the inference, and names the variant behind the prefix.
pub proof fn responses_name_their_inference(answer: InferenceResponseView, prefix: Seq<char>)
    ensures
        ({
            let response = response_of(answer, prefix);
            let (inference_id, variant_name) = match answer {
                InferenceResponseView::Chat { inference_id, variant_name, .. } => (
                    inference_id,
                    variant_name,
                ),
                InferenceResponseView::Json { inference_id, variant_name, .. } => (
                    inference_id,
                    variant_name,
                ),
            };
            &&& response.id == uuid_text(inference_id)
            &&& response.response_type == "message"@
            &&& response.role == "assistant"@
            &&& response.model == prefix + variant_name
            &&& response.stop_sequence is None
        }),
{
}

/// A response says why the model stopped where the answer does.
pub proof fn responses_give_the_reason(answer: InferenceResponseView, prefix: Seq<char>)
    ensures
        is_reason_for(
            response_of(answer, prefix).stop_reason,
            match answer {
                InferenceResponseView::Chat { finish_reason, .. } => finish_reason,
                InferenceResponseView::Json { .. } => None,
            },
        ),
{
}

/// Whether a block of a response shows a block of an answer, and nothing else.
pub open spec fn shows(shown: ResponseBlockView, block: ContentBlockChatOutputView) -> bool {
    match block {
        ContentBlockChatOutputView::Text { text } => {
            &&& shown is Text
            &&& shown->Text_text == text
            &&& shown->Text_cache_control is None
        },
        ContentBlockChatOutputView::ToolCall { id, raw_name, raw_arguments } => {
            &&& shown is ToolUse
            &&& shown->ToolUse_id == id
            &&& shown->ToolUse_name == raw_name
            &&& shown->ToolUse_cache_control is None
            &&& match parsed_json(raw_arguments) {
                Ok(input) => shown->ToolUse_input == input,
                Err(_) => shown->ToolUse_input == JsonView::String(raw_arguments),
            }
        },
        ContentBlockChatOutputView::Thought { text, signature } => {
            &&& shown is Thinking
            &&& match text {
                Some(thought) => shown->Thinking_thinking == thought,
                None => shown->Thinking_thinking.len() == 0,
            }
            &&& match signature {
                Some(signed) => shown->Thinking_signature == signed,
                None => shown->Thinking_signature.len() == 0,
            }
        },
        ContentBlockChatOutputView::Unknown { data: JsonView::String(text) } => {
            &&& shown is RedactedThinking
            &&& shown->RedactedThinking_data == text
        },
        ContentBlockChatOutputView::Unknown { data } => {
            &&& shown is Text
            &&& shown->Text_text == json_text(data)
            &&& shown->Text_cache_control is None
        },
    }
}

/// The blocks of the response to a chat answer show the blocks of the answer, one for
/// one and in order.
pub proof fn chat_responses_show_every_block(answer: InferenceResponseView, prefix: Seq<char>)
    requires
        answer is Chat,
    ensures
        response_of(answer, prefix).content.len() == answer->Chat_content.len(),
        forall|k: int|
            0 <= k < answer->Chat_content.len() ==> shows(
                response_of(answer, prefix).content[k],
                #[trigger] answer->Chat_content[k],
            ),
{
}

/// The response to a JSON answer is one text: what the model wrote, or else what was
/// parsed, or else `null`.
pub proof fn json_responses_are_one_text(answer: InferenceResponseView, prefix: Seq<char>)
    requires
        answer is Json,
    ensures
        ({
            let content = response_of(answer, prefix).content;
            &&& content.len() == 1
            &&& content[0] is Text
            &&& content[0]->Text_cache_control is None
            &&& answer->raw matches Some(raw) ==> content[0]->Text_text == raw
            &&& answer->raw is None ==> match answer->parsed {
                Some(value) => content[0]->Text_text == json_text(value),
                None => content[0]->Text_text == "null"@,
            }
        }),
{
}

} // verus!
