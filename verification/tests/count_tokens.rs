use anthropic_compatible::count_tokens::{
    AnthropicCountTokensResponse, ModelConfig, ModelEntry, ProviderConfig, ProviderEntry,
    count_tokens_reply, count_tokens_target, count_tokens_url, length_fits, plan_count_tokens,
    plan_count_tokens_text, resolve_model, try_count_tokens_url, upstream_failure,
};
use anthropic_compatible::outside::{parse_json, print_json};

fn models(provider: ProviderConfig) -> Vec<ModelEntry> {
    vec![ModelEntry {
        name: "test-model".to_string(),
        config: ModelConfig {
            routing: vec!["test-provider".to_string()],
            providers: vec![ProviderEntry {
                name: "test-provider".to_string(),
                config: provider,
            }],
        },
    }]
}

fn anthropic(base_url: &str) -> Vec<ModelEntry> {
    models(ProviderConfig::Anthropic {
        model_name: "upstream-test".to_string(),
        base_url: base_url.to_string(),
    })
}

#[test]
fn test_count_tokens_anthropic_happy_path() {
    let body = r#"{
        "model": "test-model",
        "messages": [{"role": "user", "content": "Hello"}],
        "metadata": {
            "tensorzero": {
                "credentials": {"test_key": "fake-key"}
            }
        }
    }"#;
    let plan = plan_count_tokens_text(&anthropic("http://127.0.0.1:0/v1/"), body).unwrap();
    assert_eq!(
        print_json(&plan.body),
        r#"{"messages":[{"content":"Hello","role":"user"}],"model":"upstream-test"}"#
    );
    assert_eq!(
        plan.credentials.get("test_key"),
        Some(&"fake-key".to_string())
    );
    assert_eq!(
        count_tokens_url(&plan.base_url).unwrap(),
        "http://127.0.0.1:0/v1/messages/count_tokens"
    );
    let reply = count_tokens_reply(
        200,
        r#"{"input_tokens": 42, "cache_creation_input_tokens": 0, "cache_read_input_tokens": 0}"#,
    )
    .unwrap();
    assert_eq!(reply.input_tokens, 42);
    assert_eq!(reply.cache_creation_input_tokens, 0);
    assert_eq!(reply.cache_read_input_tokens, 0);
}

#[test]
fn test_count_tokens_non_anthropic_501() {
    let table = models(ProviderConfig::Other {
        provider_type: "openai".to_string(),
    });
    let body = r#"{"model": "test-model", "messages": [{"role": "user", "content": "Hello"}]}"#;
    let err = plan_count_tokens_text(&table, body).unwrap_err();
    assert_eq!(err.1, 501);
    let msg = err.0.error.message;
    assert!(
        msg.contains("openai"),
        "Expected error to name the provider, got: {msg}"
    );
    assert_eq!(
        msg,
        "count_tokens is not supported for provider 'openai'; only Anthropic-family providers support count_tokens"
    );
}

#[test]
fn test_count_tokens_function_route_501() {
    let body = r#"{
        "model": "tensorzero::function_name::my_func",
        "messages": [{"role": "user", "content": "Hello"}]
    }"#;
    let err = plan_count_tokens_text(&anthropic("http://localhost:9999/v1/"), body).unwrap_err();
    assert_eq!(err.1, 501);
    assert!(err.0.error.message.contains("function routes"));
}

#[test]
fn vertex_cannot_count() {
    let err = plan_count_tokens_text(
        &models(ProviderConfig::GcpVertexAnthropic),
        r#"{"model": "tensorzero::model_name::test-model"}"#,
    )
    .unwrap_err();
    assert_eq!(err.1, 501);
    assert_eq!(
        err.0.error.message,
        "count_tokens is not supported for GCP Vertex Anthropic in Phase 3"
    );
    assert_eq!(err.0.error.error_type, Some("not_implemented_error"));
}

#[test]
fn only_what_the_provider_needs_is_passed_on() {
    let body = r#"{
        "model": "tensorzero::model_name::test-model",
        "messages": [],
        "system": "s",
        "tools": [1],
        "max_tokens": 5,
        "metadata": {"user_id": "u"}
    }"#;
    let plan = plan_count_tokens_text(&anthropic("http://h/"), body).unwrap();
    assert_eq!(
        print_json(&plan.body),
        r#"{"messages":[],"model":"upstream-test","system":"s","tools":[1]}"#
    );
    assert!(plan.credentials.pairs().is_empty());
}

#[test]
fn unknown_models_and_providers() {
    let err = plan_count_tokens_text(&anthropic("http://h/"), r#"{"model": "other"}"#).unwrap_err();
    assert_eq!(err.1, 400);
    assert_eq!(err.0.error.message, "Model 'other' not found");

    let mut table = anthropic("http://h/");
    table[0].config.routing = vec!["gone".to_string()];
    let err = plan_count_tokens_text(&table, r#"{"model": "test-model"}"#).unwrap_err();
    assert_eq!(err.1, 500);
    assert_eq!(
        err.0.error.message,
        "Provider 'gone' not found for model 'test-model'"
    );

    table[0].config.routing = Vec::new();
    let err = plan_count_tokens_text(&table, r#"{"model": "test-model"}"#).unwrap_err();
    assert_eq!(err.1, 500);
    assert_eq!(err.0.error.message, "Model has no providers configured");
    assert_eq!(err.0.error.error_type, Some("api_error"));
}

#[test]
fn invalid_bodies_are_refused() {
    let table = anthropic("http://h/");
    for body in ["{", "[]", "{}", r#"{"model": 1}"#] {
        let err = plan_count_tokens_text(&table, body).unwrap_err();
        assert_eq!(err.1, 400, "{body}");
        assert!(err.0.error.message.starts_with("Invalid request body: "));
    }
    let err = plan_count_tokens_text(&table, "{}").unwrap_err();
    assert_eq!(
        err.0.error.message,
        "Invalid request body: missing field `model`"
    );
    let err = plan_count_tokens_text(&table, r#"{"model": "a", "model": "test-model"}"#).unwrap_err();
    assert_eq!(err.1, 400);
    assert_eq!(
        err.0.error.message,
        "Invalid request body: duplicate field `model`"
    );
    let err = plan_count_tokens(&table, &parse_json("[]").unwrap()).unwrap_err();
    assert_eq!(
        err.0.error.message,
        "Invalid request body: invalid type: sequence, expected struct AnthropicCountTokensParams"
    );
}

// A number that no value can hold is skipped in the first reading of the body, not in
// the second.
#[test]
fn bodies_that_cannot_be_passed_on_are_server_faults() {
    let table = anthropic("http://h/");
    let err = plan_count_tokens_text(&table, r#"{"model": "test-model", "messages": 1e999}"#)
        .unwrap_err();
    assert_eq!(err.1, 500);
    assert_eq!(err.0.error.error_type, Some("api_error"));
    assert!(err.0.error.message.starts_with("number out of range"));
}

#[test]
fn targets_are_named() {
    let mut table = anthropic("http://h/");
    table[0].config.routing.push("second".to_string());
    let target = count_tokens_target(&table, "tensorzero::model_name::test-model").unwrap();
    assert_eq!(target.model, "test-model");
    assert_eq!(target.provider, "test-provider");
    let plan = plan_count_tokens_text(&table, r#"{"model": "test-model"}"#).unwrap();
    assert_eq!(plan.model, target.model);
    assert_eq!(plan.provider, target.provider);
    assert_eq!(
        count_tokens_target(&table, "tensorzero::function_name::f").unwrap_err().1,
        501
    );
    assert_eq!(count_tokens_target(&table, "other").unwrap_err().1, 400);
}

#[test]
fn model_names_are_resolved() {
    assert_eq!(resolve_model("tensorzero::model_name::m").unwrap(), "m");
    assert_eq!(resolve_model("plain").unwrap(), "plain");
    assert_eq!(
        resolve_model("tensorzero::function_name::f").unwrap_err().1,
        501
    );
}

#[test]
fn urls_are_built_below_the_base() {
    assert_eq!(
        count_tokens_url("https://api.anthropic.com/v1").unwrap(),
        "https://api.anthropic.com/v1/messages/count_tokens"
    );
    assert_eq!(
        count_tokens_url("https://api.anthropic.com/v1/").unwrap(),
        "https://api.anthropic.com/v1/messages/count_tokens"
    );
    assert_eq!(
        count_tokens_url("https://h").unwrap(),
        "https://h/messages/count_tokens"
    );
    let err = count_tokens_url("no url").unwrap_err();
    assert_eq!(err.1, 500);
    assert_eq!(err.0.error.message, "relative URL without a base");
    assert_eq!(count_tokens_url("mailto:a@b").unwrap_err().1, 500);
    assert_eq!(
        count_tokens_url("https://h/a%20b?q#f").unwrap(),
        "https://h/a%20b/messages/count_tokens"
    );
    assert_eq!(
        try_count_tokens_url("https://h/v1").unwrap().unwrap(),
        "https://h/v1/messages/count_tokens"
    );
    assert!(try_count_tokens_url("no url").unwrap().is_err());
}

#[test]
fn lengths_fit_into_thirty_two_bits() {
    assert!(length_fits(20, 5));
    assert!(length_fits(4294967291, 0));
    assert!(!length_fits(4294967292, 0));
    assert!(!length_fits(0, 357913941));
    assert!(!length_fits(usize::MAX, usize::MAX));
}

#[test]
fn replies_follow_the_status() {
    assert_eq!(
        count_tokens_reply(200, r#"{"input_tokens": 7}"#).unwrap(),
        AnthropicCountTokensResponse {
            input_tokens: 7,
            cache_creation_input_tokens: 0,
            cache_read_input_tokens: 0,
        }
    );
    let refused = count_tokens_reply(404, "no such model").unwrap_err();
    assert_eq!(refused.1, 400);
    assert_eq!(refused.0.error.message, "no such model");
    assert_eq!(refused.0.error.error_type, Some("invalid_request_error"));
    let failed = count_tokens_reply(503, "later").unwrap_err();
    assert_eq!(failed.1, 500);
    assert_eq!(failed.0.error.message, "later");
    assert_eq!(failed.0.error.error_type, Some("api_error"));
    let moved = count_tokens_reply(302, "elsewhere").unwrap_err();
    assert_eq!(moved.1, 500);
    assert_eq!(count_tokens_reply(200, "nonsense").unwrap_err().1, 500);
    let short = count_tokens_reply(200, "{}").unwrap_err();
    assert_eq!(short.0.error.message, "missing field `input_tokens`");
    assert_eq!(
        count_tokens_reply(200, r#"{"input_tokens": -1}"#).unwrap_err().1,
        500
    );
    let twice = count_tokens_reply(200, r#"{"input_tokens": 1, "input_tokens": 1}"#).unwrap_err();
    assert_eq!(twice.1, 500);
    assert_eq!(twice.0.error.message, "duplicate field `input_tokens`");
    assert_eq!(
        count_tokens_reply(200, r#"{"other": 1e999, "input_tokens": 8}"#)
            .unwrap()
            .input_tokens,
        8
    );
}

#[test]
fn counts_are_written_as_they_were_read() {
    let counts = count_tokens_reply(
        299,
        r#"{"input_tokens": 1, "cache_creation_input_tokens": 2, "cache_read_input_tokens": 4294967295}"#,
    )
    .unwrap();
    let text = print_json(&counts.to_json());
    assert_eq!(count_tokens_reply(200, &text).unwrap(), counts);
    assert_eq!(counts.cache_read_input_tokens, 4294967295);
}

#[test]
fn failures_on_the_way_are_server_faults() {
    let response = upstream_failure("connection refused");
    assert_eq!(response.1, 500);
    assert_eq!(response.0.error.message, "connection refused");
    assert_eq!(response.0.error.error_type, Some("api_error"));
}
