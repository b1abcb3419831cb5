//! The decisions of the request handlers. What surrounds them, that is reading
//! requests, running inferences and calling providers, is left to the caller.
use crate::error::{
    AnthropicErrorBody, AnthropicErrorResponse, Error, ErrorResponseView, fault_response,
    invalid_response, response_for,
};
use crate::inference::{InferenceOutput, Params, ParamsView};
use crate::model::outcome;
use crate::text::{joined, owned};
use crate::types::into_params::translation;
use crate::types::messages::{AnthropicMessagesParams, AnthropicResponse, RequestView, ResponseView};
use crate::types::response::{inference_response_to_anthropic, response_of};
use crate::types::stream_adapter::{
    AdapterView, AnthropicStreamAdapter, convert_to_anthropic_stream, initial_adapter,
};
use crate::types::stream_state::state_ok;
use crate::types::translate::{Base64Refusal, RefusalView};
use vstd::prelude::*;

verus! {

// ---------------------------------------------------------------------------
// POST /v1/messages
// ---------------------------------------------------------------------------

/// What stands before the variant in the model name of a response.
pub open spec fn model_prefix(function_name: Option<Seq<char>>, model_name: Option<Seq<char>>) -> Result<
    Seq<char>,
    ErrorResponseView,
> {
    match (function_name, model_name) {
        (Some(name), None) => Ok("tensorzero::function_name::"@ + name + "::variant_name::"@),
        (None, Some(_)) => Ok("tensorzero::model_name::"@),
        (Some(_), Some(_)) => Err(
            invalid_response("Only one of `function_name` or `model_name` can be provided"@),
        ),
        (None, None) => Err(
            invalid_response("Either `function_name` or `model_name` must be provided"@),
        ),
    }
}

/// What stands before the variant in the model name of a response.
pub fn response_model_prefix(
    function_name: &Option<String>,
    model_name: &Option<String>,
) -> (r: Result<String, AnthropicErrorResponse>)
    ensures
        outcome(r) == model_prefix(function_name.deep_view(), model_name.deep_view()),
{
    match (function_name, model_name) {
        (Some(name), None) => {
            let start: String = joined("tensorzero::function_name::", name.as_str());
            Ok(joined(start.as_str(), "::variant_name::"))
        },
        (None, Some(_)) => Ok(owned("tensorzero::model_name::")),
        (Some(_), Some(_)) => Err(
            AnthropicErrorResponse::bad_request_msg(
                "Only one of `function_name` or `model_name` can be provided",
            ),
        ),
        (None, None) => Err(
            AnthropicErrorResponse::bad_request_msg(
                "Either `function_name` or `model_name` must be provided",
            ),
        ),
    }
}

/// An inference that is ready to run.
#[derive(Debug)]
pub struct Prepared {
    pub params: Params,
    pub model_prefix: String,
    pub stream: bool,
}

pub struct PreparedView {
    pub params: ParamsView,
    pub model_prefix: Seq<char>,
    pub stream: bool,
}

impl DeepView for Prepared {
    type V = PreparedView;

    open spec fn deep_view(&self) -> PreparedView {
        PreparedView {
            params: self.params.deep_view(),
            model_prefix: self.model_prefix@,
            stream: self.stream,
        }
    }
}

/// The inference that a request asks for, or the response to a request that is
/// refused.
pub open spec fn preparation(request: RequestView, refusals: Seq<RefusalView>) -> Result<
    PreparedView,
    ErrorResponseView,
> {
    match translation(request, refusals) {
        Err(error) => Err(response_for(error)),
        Ok(params) => match model_prefix(params.function_name, params.model_name) {
            Err(response) => Err(response),
            Ok(prefix) => Ok(
                PreparedView { params, model_prefix: prefix, stream: request.stream },
            ),
        },
    }
}

/// The inference that a request asks for, given which base64 data the engine
/// refuses.
pub fn prepare_messages(request: AnthropicMessagesParams, refusals: &Vec<Base64Refusal>) -> (r:
    Result<Prepared, AnthropicErrorResponse>)
    ensures
        outcome(r) == preparation(request.deep_view(), refusals.deep_view()),
{
    let stream: bool = request.stream;
    let params: Params = match request.try_into_params(refusals) {
        Err(error) => {
            return Err(AnthropicErrorResponse::for_error(&error));
        },
        Ok(params) => params,
    };
    match response_model_prefix(&params.function_name, &params.model_name) {
        Err(response) => Err(response),
        Ok(model_prefix) => Ok(Prepared { params, model_prefix, stream }),
    }
}

/// How a request is answered.
#[derive(Debug)]
pub enum Answer {
    Body(AnthropicResponse),
    Events(AnthropicStreamAdapter),
}

pub enum AnswerView {
    Body(ResponseView),
    Events(AdapterView),
}

impl DeepView for Answer {
    type V = AnswerView;

    open spec fn deep_view(&self) -> AnswerView {
        match self {
            Answer::Body(response) => AnswerView::Body(response.deep_view()),
            Answer::Events(adapter) => AnswerView::Events(adapter@),
        }
    }
}

/// How a request is answered, given what the inference gave.
pub open spec fn answer_of(
    stream: bool,
    prefix: Seq<char>,
    result: Result<InferenceOutput, Error>,
) -> Result<AnswerView, ErrorResponseView> {
    match result {
        Err(error) => Err(response_for(error.deep_view())),
        Ok(InferenceOutput::Streaming) => if stream {
            Ok(AnswerView::Events(initial_adapter(prefix)))
        } else {
            Err(
                fault_response(
                    "Streaming responses are not expected for non-streaming requests."@,
                ),
            )
        },
        Ok(InferenceOutput::NonStreaming(answer)) => if stream {
            Err(
                fault_response(
                    "Streaming was requested but the inference returned non-streaming output"@,
                ),
            )
        } else {
            Ok(AnswerView::Body(response_of(answer.deep_view(), prefix)))
        },
    }
}

/// How a request is answered, given what the inference gave.
pub fn answer_messages(
    stream: bool,
    model_prefix: String,
    result: Result<InferenceOutput, Error>,
) -> (r: Result<Answer, AnthropicErrorResponse>)
    ensures
        outcome(r) == answer_of(stream, model_prefix@, result),
        r matches Ok(Answer::Events(adapter)) ==> state_ok(adapter@.state),
{
    let output: InferenceOutput = match result {
        Err(error) => {
            return Err(AnthropicErrorResponse::for_error(&error));
        },
        Ok(output) => output,
    };
    if stream {
        match output {
            InferenceOutput::Streaming => Ok(
                Answer::Events(convert_to_anthropic_stream(model_prefix)),
            ),
            InferenceOutput::NonStreaming(_) => Err(
                AnthropicErrorResponse::internal_error(
                    AnthropicErrorBody::api_error(
                        "Streaming was requested but the inference returned non-streaming output",
                    ),
                ),
            ),
        }
    } else {
        match inference_response_to_anthropic(output, model_prefix.as_str()) {
            Ok(response) => Ok(Answer::Body(response)),
            Err(error) => Err(
                AnthropicErrorResponse::internal_error(
                    AnthropicErrorBody::api_error(error.to_string().as_str()),
                ),
            ),
        }
    }
}

/// A request that is translated names a function or a model, so its response can
/// name one too.
pub proof fn translated_requests_are_prepared(request: RequestView, refusals: Seq<RefusalView>)
    ensures
        preparation(request, refusals) is Ok <==> translation(request, refusals) is Ok,
{
}

/// A request that is translated is prepared as it was translated, and streams if it asks for
/// it. The response will name the variant behind the function, or behind the prefix that
/// marks models.
pub proof fn requests_are_prepared(request: RequestView, refusals: Seq<RefusalView>)
    ensures
        match translation(request, refusals) {
            Ok(params) => {
                &&& preparation(request, refusals) is Ok
                &&& preparation(request, refusals)->Ok_0.params == params
                &&& preparation(request, refusals)->Ok_0.stream == request.stream
                &&& match params.function_name {
                    Some(name) => preparation(request, refusals)->Ok_0.model_prefix
                        == "tensorzero::function_name::"@ + name + "::variant_name::"@,
                    None => preparation(request, refusals)->Ok_0.model_prefix
                        == "tensorzero::model_name::"@,
                }
            },
            Err(error) => preparation(request, refusals) matches Err(response)
                && response.body.message == error.message && response.status == 400
                && response.body.error_type == Some("invalid_request_error"@),
        },
{
}

/// A request names a function or a model, not both and not neither.
pub proof fn one_target_is_named(function_name: Option<Seq<char>>, model_name: Option<Seq<char>>)
    ensures
        model_prefix(function_name, model_name) is Ok <==> (function_name is Some
            <==> model_name is None),
        model_prefix(function_name, model_name) matches Err(response) ==> response.status == 400
            && response.body.message == if function_name is Some {
            "Only one of `function_name` or `model_name` can be provided"@
        } else {
            "Either `function_name` or `model_name` must be provided"@
        },
{
}

/// A request is answered in the way that it asks for: with events where it streams, and else
/// with a response. An answer of the other kind is the server's fault, and a failure of the
/// inference is answered by its cause.
pub proof fn answers_are_of_the_kind_asked_for(
    stream: bool,
    prefix: Seq<char>,
    result: Result<InferenceOutput, Error>,
)
    ensures
        ({
            let answer = answer_of(stream, prefix, result);
            match result {
                Ok(InferenceOutput::NonStreaming(given)) => if stream {
                    answer matches Err(response) && response.status == 500
                        && response.body.error_type == Some("api_error"@) && response.body.message
                        == "Streaming was requested but the inference returned non-streaming output"@
                } else {
                    answer matches Ok(AnswerView::Body(body)) && body == response_of(
                        given.deep_view(),
                        prefix,
                    )
                },
                Ok(InferenceOutput::Streaming) => if stream {
                    answer matches Ok(AnswerView::Events(adapter)) && adapter == initial_adapter(
                        prefix,
                    )
                } else {
                    answer matches Err(response) && response.status == 500
                        && response.body.error_type == Some("api_error"@) && response.body.message
                        == "Streaming responses are not expected for non-streaming requests."@
                },
                Err(error) => answer matches Err(response) && response == response_for(
                    error.deep_view(),
                ),
            }
        }),
{
}

/// A stream begins with nothing sent, nothing counted and no block open.
pub proof fn streams_begin_empty(prefix: Seq<char>)
    ensures
        ({
            let a = initial_adapter(prefix);
            &&& a.model == prefix
            &&& a.pending.len() == 0
            &&& a.next_id == 0
            &&& a.first
            &&& !a.finished
            &&& !a.json_open
            &&& a.inference_id.len() == 0
            &&& a.state.open_kind is None
            &&& a.state.total_blocks == 0
            &&& a.state.block_ids == 0
            &&& !a.state.started
            &&& a.state.finish_reason is None
            &&& a.state.thinking_signature is None
            &&& a.state.usage.input_tokens is None
            &&& a.state.usage.output_tokens is None
            &&& a.state.usage.provider_cache_read_input_tokens is None
            &&& a.state.usage.provider_cache_write_input_tokens is None
            &&& a.state.usage.cost is None
        }),
{
}

} // verus!
