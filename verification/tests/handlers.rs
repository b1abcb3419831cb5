use anthropic_compatible::error::{Error, ErrorDetails};
use anthropic_compatible::handler::{
    Answer, answer_messages, prepare_messages, response_model_prefix,
};
use anthropic_compatible::inference::{
    ChatInferenceResponse, InferenceOutput, InferenceResponse, Usage,
};
use anthropic_compatible::types::messages::AnthropicMessagesParams;
use anthropic_compatible::types::stream_adapter::StreamAction;
use anthropic_compatible::types::translate::Base64Refusal;

fn request(model: &str, extra: &str) -> AnthropicMessagesParams {
    AnthropicMessagesParams::from_text(&format!(
        r#"{{"model": "{model}", "messages": [{{"role": "user", "content": "Hi"}}], "max_tokens": 1{extra}}}"#
    ))
    .unwrap()
}

fn answer() -> InferenceOutput {
    InferenceOutput::NonStreaming(InferenceResponse::Chat(ChatInferenceResponse {
        inference_id: 1,
        episode_id: 2,
        variant_name: "v".to_string(),
        content: Vec::new(),
        usage: Usage::default(),
        finish_reason: None,
    }))
}

#[test]
fn prefixes_name_the_route() {
    let some = |s: &str| Some(s.to_string());
    assert_eq!(
        response_model_prefix(&some("f"), &None).unwrap(),
        "tensorzero::function_name::f::variant_name::"
    );
    assert_eq!(
        response_model_prefix(&None, &some("m")).unwrap(),
        "tensorzero::model_name::"
    );
    let both = response_model_prefix(&some("f"), &some("m")).unwrap_err();
    assert_eq!(both.1, 400);
    assert_eq!(
        both.0.error.message,
        "Only one of `function_name` or `model_name` can be provided"
    );
    let neither = response_model_prefix(&None, &None).unwrap_err();
    assert_eq!(
        neither.0.error.message,
        "Either `function_name` or `model_name` must be provided"
    );
}

#[test]
fn requests_are_prepared() {
    let none: Vec<Base64Refusal> = Vec::new();
    let prepared = prepare_messages(request("f", r#", "stream": true"#), &none).unwrap();
    assert!(prepared.stream);
    assert_eq!(
        prepared.model_prefix,
        "tensorzero::function_name::f::variant_name::"
    );
    assert_eq!(prepared.params.function_name, Some("f".to_string()));
    let prepared = prepare_messages(request("tensorzero::model_name::m", ""), &none).unwrap();
    assert!(!prepared.stream);
    assert_eq!(prepared.model_prefix, "tensorzero::model_name::");
    let refused = prepare_messages(request("", ""), &none).unwrap_err();
    assert_eq!(refused.1, 400);
    assert_eq!(refused.0.error.message, "model is required");
    assert_eq!(refused.0.error.error_type, Some("invalid_request_error"));
}

#[test]
fn answers_follow_the_request() {
    match answer_messages(false, "p::".to_string(), Ok(answer())) {
        Ok(Answer::Body(response)) => assert_eq!(response.model, "p::v"),
        other => panic!("Expected a body, got {other:?}"),
    }
    match answer_messages(true, "p::".to_string(), Ok(InferenceOutput::Streaming)) {
        Ok(Answer::Events(mut adapter)) => assert!(matches!(adapter.poll(), StreamAction::Pull)),
        other => panic!("Expected events, got {other:?}"),
    }
    let unexpected = answer_messages(true, String::new(), Ok(answer())).unwrap_err();
    assert_eq!(unexpected.1, 500);
    assert_eq!(
        unexpected.0.error.message,
        "Streaming was requested but the inference returned non-streaming output"
    );
    let unexpected =
        answer_messages(false, String::new(), Ok(InferenceOutput::Streaming)).unwrap_err();
    assert_eq!(unexpected.1, 500);
    assert_eq!(unexpected.0.error.error_type, Some("api_error"));
    assert_eq!(
        unexpected.0.error.message,
        "Streaming responses are not expected for non-streaming requests."
    );
    let failed = answer_messages(
        true,
        String::new(),
        Err(Error::new(ErrorDetails::Engine {
            status: 429,
            message: "slow down".to_string(),
        })),
    )
    .unwrap_err();
    assert_eq!(failed.1, 429);
    assert_eq!(failed.0.error.error_type, Some("rate_limit_error"));
}
