use anthropic_compatible::inference::FinishReason;
use anthropic_compatible::provider::{AnthropicStopReason, AnthropicUsage};
use anthropic_compatible::types::streaming::finish_reason_to_anthropic_stop_reason;

fn usage(
    input: Option<u32>,
    write: Option<u32>,
    read: Option<u32>,
) -> AnthropicUsage {
    AnthropicUsage {
        input_tokens: input,
        output_tokens: Some(7),
        cache_creation_input_tokens: write,
        cache_read_input_tokens: read,
    }
}

#[test]
fn cache_tokens_count_as_input() {
    let total = |i, w, r| usage(i, w, r).into_usage().input_tokens;
    assert_eq!(total(Some(1), Some(10), Some(100)), Some(111));
    assert_eq!(total(Some(1), Some(10), None), Some(11));
    assert_eq!(total(Some(1), None, Some(100)), Some(101));
    assert_eq!(total(Some(1), None, None), Some(1));
    assert_eq!(total(None, Some(10), Some(100)), Some(110));
    assert_eq!(total(None, Some(10), None), Some(10));
    assert_eq!(total(None, None, Some(100)), Some(100));
    assert_eq!(total(None, None, None), None);
    let converted = usage(Some(1), Some(10), Some(100)).into_usage();
    assert_eq!(converted.output_tokens, Some(7));
    assert_eq!(converted.provider_cache_write_input_tokens, Some(10));
    assert_eq!(converted.provider_cache_read_input_tokens, Some(100));
    assert_eq!(converted.cost, None);
}

#[test]
fn stop_reasons_come_back() {
    let known = [
        (AnthropicStopReason::EndTurn, FinishReason::Stop, "end_turn"),
        (AnthropicStopReason::MaxTokens, FinishReason::Length, "max_tokens"),
        (
            AnthropicStopReason::StopSequence,
            FinishReason::StopSequence,
            "stop_sequence",
        ),
        (AnthropicStopReason::ToolUse, FinishReason::ToolCall, "tool_use"),
    ];
    for (stop, finish, name) in known {
        assert_eq!(stop.into_finish_reason(), finish);
        assert_eq!(finish_reason_to_anthropic_stop_reason(Some(finish)), Some(stop));
        assert_eq!(stop.name(), name);
    }
    assert_eq!(
        AnthropicStopReason::Unknown.into_finish_reason(),
        FinishReason::Unknown
    );
    assert_eq!(
        finish_reason_to_anthropic_stop_reason(Some(FinishReason::Unknown)),
        None
    );
}
