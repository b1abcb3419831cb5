//! Turns the answers of the inference engine into responses.
use crate::error::{Error, invalid};
use crate::inference::{
    ContentBlockChatOutput, ContentBlockChatOutputView, InferenceOutput, InferenceResponse,
    InferenceResponseView, JsonInferenceOutput, Usage,
};
use crate::json::{Json, JsonEntry, JsonView, count_json};
use crate::model::{or_value, outcome};
use crate::outside::{json_text, parse_json, parsed_json, print_json, text_of_uuid, uuid_text};
use crate::provider::{AnthropicCacheControl, stop_reason_of};
use crate::text::{joined, owned};
use crate::types::messages::{
    AnthropicResponse, AnthropicResponseContentBlock, AnthropicResponseUsage, ResponseBlockView,
    ResponseView,
};
use crate::types::sse::{
    count_entry, push_count, stop_reason_json, stop_reason_value, stop_sequence_json,
    stop_sequence_value,
};
use crate::types::streaming::finish_reason_to_anthropic_stop_reason;
use vstd::prelude::*;

verus! {

// ---------------------------------------------------------------------------
// Translation
// ---------------------------------------------------------------------------

/// The usage that a response reports for a usage of the engine.
pub open spec fn response_usage(usage: Usage) -> AnthropicResponseUsage {
    AnthropicResponseUsage {
        input_tokens: or_value(usage.input_tokens, 0),
        output_tokens: or_value(usage.output_tokens, 0),
        cache_creation_input_tokens: usage.provider_cache_write_input_tokens,
        cache_read_input_tokens: usage.provider_cache_read_input_tokens,
    }
}

/// A value that was read from a text, or the text where nothing could be read.
pub open spec fn value_or_text(read: Result<JsonView, Seq<char>>, text: Seq<char>) -> JsonView {
    match read {
        Ok(value) => value,
        Err(_) => JsonView::String(text),
    }
}

/// A value that was read from a text, or the text where nothing could be read.
pub fn read_or_text(read: Result<Json, String>, text: &str) -> (r: Json)
    ensures
        r@ == value_or_text(outcome(read), text@),
{
    match read {
        Ok(value) => value,
        Err(_) => Json::text(text),
    }
}

/// The input of a tool call: the value that its arguments spell, or the arguments
/// as a text where they are no JSON.
pub open spec fn call_input(raw_arguments: Seq<char>) -> JsonView {
    value_or_text(parsed_json(raw_arguments), raw_arguments)
}

/// What a block of an answer becomes. A block of a kind that is not known is a
/// thought in the provider's own form if it is a text; any other is shown as text.
pub open spec fn response_block(block: ContentBlockChatOutputView) -> ResponseBlockView {
    match block {
        ContentBlockChatOutputView::Text { text } => ResponseBlockView::Text {
            text,
            cache_control: None,
        },
        ContentBlockChatOutputView::ToolCall { id, raw_name, raw_arguments } =>
            ResponseBlockView::ToolUse {
                id,
                name: raw_name,
                input: call_input(raw_arguments),
                cache_control: None,
            },
        ContentBlockChatOutputView::Thought { text, signature } => ResponseBlockView::Thinking {
            thinking: or_value(text, Seq::empty()),
            signature: or_value(signature, Seq::empty()),
        },
        ContentBlockChatOutputView::Unknown { data } => match data {
            JsonView::String(s) => ResponseBlockView::RedactedThinking { data: s },
            _ => ResponseBlockView::Text { text: json_text(data), cache_control: None },
        },
    }
}

/// The text of a JSON answer: as the model wrote it, or else as it was parsed.
pub open spec fn json_answer_text(raw: Option<Seq<char>>, parsed: Option<JsonView>) -> Seq<char> {
    match raw {
        Some(text) => text,
        None => match parsed {
            Some(value) => json_text(value),
            None => "null"@,
        },
    }
}

/// The model that a response names.
pub open spec fn response_model(prefix: Seq<char>, variant_name: Seq<char>) -> Seq<char> {
    prefix + variant_name
}

/// The response for an answer. Its ID is the ID of the inference. A JSON answer
/// becomes a single text block.
pub open spec fn response_of(answer: InferenceResponseView, prefix: Seq<char>) -> ResponseView {
    match answer {
        InferenceResponseView::Chat {
            inference_id,
            variant_name,
            content,
            usage,
            finish_reason,
        } => ResponseView {
            id: uuid_text(inference_id),
            response_type: "message"@,
            role: "assistant"@,
            content: content.map_values(|b: ContentBlockChatOutputView| response_block(b)),
            model: response_model(prefix, variant_name),
            stop_reason: stop_reason_of(finish_reason),
            stop_sequence: None,
            usage: response_usage(usage),
        },
        InferenceResponseView::Json { inference_id, variant_name, raw, parsed, usage } =>
            ResponseView {
                id: uuid_text(inference_id),
                response_type: "message"@,
                role: "assistant"@,
                content: seq![
                    ResponseBlockView::Text {
                        text: json_answer_text(raw, parsed),
                        cache_control: None,
                    },
                ],
                model: response_model(prefix, variant_name),
                stop_reason: None,
                stop_sequence: None,
                usage: response_usage(usage),
            },
    }
}

/// The usage that a response reports.
pub fn usage_to_anthropic(usage: &Usage) -> (r: AnthropicResponseUsage)
    ensures
        r == response_usage(*usage),
{
    AnthropicResponseUsage {
        input_tokens: usage.input_tokens.unwrap_or(0),
        output_tokens: usage.output_tokens.unwrap_or(0),
        cache_creation_input_tokens: usage.provider_cache_write_input_tokens,
        cache_read_input_tokens: usage.provider_cache_read_input_tokens,
    }
}

fn text_or_empty(s: &Option<String>) -> (r: String)
    ensures
        r@ == or_value(s.deep_view(), Seq::empty()),
{
    match s {
        Some(text) => text.clone(),
        None => String::new(),
    }
}

/// What a block of an answer becomes.
pub fn chat_output_to_anthropic_block(block: &ContentBlockChatOutput) -> (r:
    AnthropicResponseContentBlock)
    ensures
        r.deep_view() == response_block(block.deep_view()),
{
    match block {
        ContentBlockChatOutput::Text(text) => AnthropicResponseContentBlock::Text {
            text: text.text.clone(),
            cache_control: None,
        },
        ContentBlockChatOutput::ToolCall(call) => {
            let arguments: &str = call.raw_arguments.as_str();
            let input: Json = read_or_text(parse_json(arguments), arguments);
            AnthropicResponseContentBlock::ToolUse {
                id: call.id.clone(),
                name: call.raw_name.clone(),
                input,
                cache_control: None,
            }
        },
        ContentBlockChatOutput::Thought(thought) => AnthropicResponseContentBlock::Thinking {
            thinking: text_or_empty(&thought.text),
            signature: text_or_empty(&thought.signature),
        },
        ContentBlockChatOutput::Unknown(unknown) => match &unknown.data {
            Json::String(data) => AnthropicResponseContentBlock::RedactedThinking {
                data: data.clone(),
            },
            _ => AnthropicResponseContentBlock::Text {
                text: print_json(&unknown.data),
                cache_control: None,
            },
        },
    }
}

fn json_output_text(output: &JsonInferenceOutput) -> (r: String)
    ensures
        r@ == json_answer_text(output.raw.deep_view(), output.parsed.deep_view()),
{
    match &output.raw {
        Some(raw) => raw.clone(),
        None => match &output.parsed {
            Some(parsed) => print_json(parsed),
            None => owned("null"),
        },
    }
}

fn chat_outputs_to_blocks(content: &Vec<ContentBlockChatOutput>) -> (r: Vec<
    AnthropicResponseContentBlock,
>)
    ensures
        r.deep_view() == content.deep_view().map_values(
            |b: ContentBlockChatOutputView| response_block(b),
        ),
{
    let mut blocks: Vec<AnthropicResponseContentBlock> = Vec::new();
    let n: usize = content.len();
    for i in 0..n
        invariant
            n == content@.len(),
            blocks@.len() == i,
            forall|k: int|
                0 <= k < i ==> (#[trigger] blocks@[k]).deep_view() == response_block(
                    content@[k].deep_view(),
                ),
    {
        blocks.push(chat_output_to_anthropic_block(&content[i]));
    }
    assert(blocks.deep_view() =~= content.deep_view().map_values(
        |b: ContentBlockChatOutputView| response_block(b),
    ));
    blocks
}

/// The response for what an inference gave. A stream is no answer to a request
/// that does not stream.
pub fn inference_response_to_anthropic(output: InferenceOutput, model_prefix: &str) -> (r: Result<
    AnthropicResponse,
    Error,
>)
    ensures
        match output {
            InferenceOutput::NonStreaming(answer) => r matches Ok(response)
                && response.deep_view() == response_of(answer.deep_view(), model_prefix@),
            InferenceOutput::Streaming => r matches Err(error) && error.deep_view() == invalid(
                "Streaming responses are not expected for non-streaming requests."@,
            ),
        },
{
    match output {
        InferenceOutput::NonStreaming(InferenceResponse::Chat(chat)) => Ok(
            AnthropicResponse {
                id: text_of_uuid(chat.inference_id),
                response_type: owned("message"),
                role: owned("assistant"),
                content: chat_outputs_to_blocks(&chat.content),
                model: joined(model_prefix, chat.variant_name.as_str()),
                stop_reason: finish_reason_to_anthropic_stop_reason(chat.finish_reason),
                stop_sequence: None,
                usage: usage_to_anthropic(&chat.usage),
            },
        ),
        InferenceOutput::NonStreaming(InferenceResponse::Json(json)) => {
            let text: String = json_output_text(&json.output);
            let content: Vec<AnthropicResponseContentBlock> = vec![
                AnthropicResponseContentBlock::Text { text, cache_control: None },
            ];
            assert(content.deep_view() =~= seq![
                ResponseBlockView::Text { text: text@, cache_control: None },
            ]);
            Ok(
                AnthropicResponse {
                    id: text_of_uuid(json.inference_id),
                    response_type: owned("message"),
                    role: owned("assistant"),
                    content,
                    model: joined(model_prefix, json.variant_name.as_str()),
                    stop_reason: None,
                    stop_sequence: None,
                    usage: usage_to_anthropic(&json.usage),
                },
            )
        },
        InferenceOutput::Streaming => Err(
            Error::invalid_request(
                owned("Streaming responses are not expected for non-streaming requests."),
            ),
        ),
    }
}

// ---------------------------------------------------------------------------
// JSON form
// ---------------------------------------------------------------------------

/// The JSON form of a cache marker.
pub open spec fn cache_control_json(marker: AnthropicCacheControl) -> JsonView {
    match marker {
        AnthropicCacheControl::Ephemeral => JsonView::Object(
            seq![("type"@, JsonView::String("ephemeral"@))],
        ),
    }
}

/// An entry with a cache marker, where there is one.
pub open spec fn cache_control_entry(marker: Option<AnthropicCacheControl>) -> Seq<
    (Seq<char>, JsonView),
> {
    match marker {
        Some(m) => seq![("cache_control"@, cache_control_json(m))],
        None => Seq::empty(),
    }
}

/// The JSON form of a block of a response.
pub open spec fn response_block_json(block: ResponseBlockView) -> JsonView {
    match block {
        ResponseBlockView::Text { text, cache_control } => JsonView::Object(
            seq![("type"@, JsonView::String("text"@)), ("text"@, JsonView::String(text))]
                + cache_control_entry(cache_control),
        ),
        ResponseBlockView::ToolUse { id, name, input, cache_control } => JsonView::Object(
            seq![
                ("type"@, JsonView::String("tool_use"@)),
                ("id"@, JsonView::String(id)),
                ("name"@, JsonView::String(name)),
                ("input"@, input),
            ] + cache_control_entry(cache_control),
        ),
        ResponseBlockView::Thinking { thinking, signature } => JsonView::Object(
            seq![
                ("type"@, JsonView::String("thinking"@)),
                ("thinking"@, JsonView::String(thinking)),
                ("signature"@, JsonView::String(signature)),
            ],
        ),
        ResponseBlockView::RedactedThinking { data } => JsonView::Object(
            seq![
                ("type"@, JsonView::String("redacted_thinking"@)),
                ("data"@, JsonView::String(data)),
            ],
        ),
    }
}

/// The JSON form of the usage in a response. A cache count that is not known is
/// left out.
pub open spec fn response_usage_json(usage: AnthropicResponseUsage) -> JsonView {
    JsonView::Object(
        seq![
            ("input_tokens"@, count_json(usage.input_tokens as nat)),
            ("output_tokens"@, count_json(usage.output_tokens as nat)),
        ] + count_entry("cache_creation_input_tokens"@, usage.cache_creation_input_tokens)
            + count_entry("cache_read_input_tokens"@, usage.cache_read_input_tokens),
    )
}

/// The JSON form of a response. A stop sequence that is not there is left out.
pub open spec fn response_json(response: ResponseView) -> JsonView {
    let stop_sequence = match response.stop_sequence {
        Some(_) => seq![("stop_sequence"@, stop_sequence_json(response.stop_sequence))],
        None => Seq::empty(),
    };
    JsonView::Object(
        seq![
            ("id"@, JsonView::String(response.id)),
            ("type"@, JsonView::String(response.response_type)),
            ("role"@, JsonView::String(response.role)),
            (
                "content"@,
                JsonView::Array(
                    response.content.map_values(|b: ResponseBlockView| response_block_json(b)),
                ),
            ),
            ("model"@, JsonView::String(response.model)),
            ("stop_reason"@, stop_reason_json(response.stop_reason)),
        ] + stop_sequence + seq![("usage"@, response_usage_json(response.usage))],
    )
}

impl AnthropicCacheControl {
    /// The JSON form of the cache marker.
    pub fn to_json(self) -> (r: Json)
        ensures
            r@ == cache_control_json(self),
    {
        let entries: Vec<JsonEntry> = match self {
            AnthropicCacheControl::Ephemeral => vec![
                JsonEntry::new("type", Json::text("ephemeral")),
            ],
        };
        assert(entries.deep_view() =~= cache_control_json(self)->Object_0);
        Json::object(entries)
    }
}

impl AnthropicResponseContentBlock {
    /// The JSON form of the block.
    pub fn to_json(&self) -> (r: Json)
        ensures
            r@ == response_block_json(self.deep_view()),
    {
        let mut entries: Vec<JsonEntry> = Vec::new();
        match self {
            AnthropicResponseContentBlock::Text { text, cache_control } => {
                entries.push(JsonEntry::new("type", Json::text("text")));
                entries.push(JsonEntry::new("text", Json::text(text.as_str())));
                if let Some(marker) = cache_control {
                    entries.push(JsonEntry::new("cache_control", marker.to_json()));
                }
            },
            AnthropicResponseContentBlock::ToolUse { id, name, input, cache_control } => {
                entries.push(JsonEntry::new("type", Json::text("tool_use")));
                entries.push(JsonEntry::new("id", Json::text(id.as_str())));
                entries.push(JsonEntry::new("name", Json::text(name.as_str())));
                entries.push(JsonEntry::new("input", input.duplicate()));
                if let Some(marker) = cache_control {
                    entries.push(JsonEntry::new("cache_control", marker.to_json()));
                }
            },
            AnthropicResponseContentBlock::Thinking { thinking, signature } => {
                entries.push(JsonEntry::new("type", Json::text("thinking")));
                entries.push(JsonEntry::new("thinking", Json::text(thinking.as_str())));
                entries.push(JsonEntry::new("signature", Json::text(signature.as_str())));
            },
            AnthropicResponseContentBlock::RedactedThinking { data } => {
                entries.push(JsonEntry::new("type", Json::text("redacted_thinking")));
                entries.push(JsonEntry::new("data", Json::text(data.as_str())));
            },
        }
        assert(entries.deep_view() =~= response_block_json(self.deep_view())->Object_0);
        Json::object(entries)
    }
}

impl AnthropicResponseUsage {
    /// The JSON form of the usage.
    pub fn to_json(&self) -> (r: Json)
        ensures
            r@ == response_usage_json(*self),
    {
        let mut entries: Vec<JsonEntry> = vec![
            JsonEntry::new("input_tokens", Json::count(self.input_tokens as usize)),
            JsonEntry::new("output_tokens", Json::count(self.output_tokens as usize)),
        ];
        assert(entries.deep_view() =~= seq![
            ("input_tokens"@, count_json(self.input_tokens as nat)),
            ("output_tokens"@, count_json(self.output_tokens as nat)),
        ]);
        push_count(&mut entries, "cache_creation_input_tokens", self.cache_creation_input_tokens);
        push_count(&mut entries, "cache_read_input_tokens", self.cache_read_input_tokens);
        Json::object(entries)
    }
}

impl AnthropicResponse {
    /// The JSON form of the response.
    pub fn to_json(&self) -> (r: Json)
        ensures
            r@ == response_json(self.deep_view()),
    {
        let mut content: Vec<Json> = Vec::new();
        let n: usize = self.content.len();
        for i in 0..n
            invariant
                n == self.content@.len(),
                content@.len() == i,
                forall|k: int|
                    0 <= k < i ==> (#[trigger] content@[k])@ == response_block_json(
                        self.content@[k].deep_view(),
                    ),
        {
            content.push(self.content[i].to_json());
        }
        assert(content.deep_view() =~= self.deep_view().content.map_values(
            |b: ResponseBlockView| response_block_json(b),
        ));
        let mut entries: Vec<JsonEntry> = vec![
            JsonEntry::new("id", Json::text(self.id.as_str())),
            JsonEntry::new("type", Json::text(self.response_type.as_str())),
            JsonEntry::new("role", Json::text(self.role.as_str())),
            JsonEntry::new("content", Json::array(content)),
            JsonEntry::new("model", Json::text(self.model.as_str())),
            JsonEntry::new("stop_reason", stop_reason_value(&self.stop_reason)),
        ];
        if self.stop_sequence.is_some() {
            entries.push(
                JsonEntry::new("stop_sequence", stop_sequence_value(&self.stop_sequence)),
            );
        }
        entries.push(JsonEntry::new("usage", self.usage.to_json()));
        assert(entries.deep_view() =~= response_json(self.deep_view())->Object_0);
        Json::object(entries)
    }
}

} // verus!
