//! Wire types that the Anthropic provider and this endpoint share.
use crate::inference::{FinishReason, Usage};
use vstd::prelude::*;

verus! {

/// A cache marker on a block.
#[derive(Clone, Copy, Debug, PartialEq, Eq, Structural)]
pub enum AnthropicCacheControl {
    Ephemeral,
}

impl DeepView for AnthropicCacheControl {
    type V = AnthropicCacheControl;

    open spec fn deep_view(&self) -> AnthropicCacheControl {
        *self
    }
}

/// Usage as Anthropic reports it. Tokens written to and read from the cache are
/// not part of `input_tokens`.
#[derive(Clone, Copy, Debug, PartialEq, Eq, Structural)]
pub struct AnthropicUsage {
    pub input_tokens: Option<u32>,
    pub output_tokens: Option<u32>,
    /// Tokens that went into a new cache entry.
    pub cache_creation_input_tokens: Option<u32>,
    /// Tokens that were read from the cache.
    pub cache_read_input_tokens: Option<u32>,
}

impl Default for AnthropicUsage {
    fn default() -> (r: AnthropicUsage)
        ensures
            r == (AnthropicUsage {
                input_tokens: None,
                output_tokens: None,
                cache_creation_input_tokens: None,
                cache_read_input_tokens: None,
            }),
    {
        AnthropicUsage {
            input_tokens: None,
            output_tokens: None,
            cache_creation_input_tokens: None,
            cache_read_input_tokens: None,
        }
    }
}

/// The tokens that a count reports: none where nothing is reported.
pub open spec fn count_of(n: Option<u32>) -> int {
    match n {
        Some(x) => x as int,
        None => 0,
    }
}

/// All the input tokens of a usage: those that Anthropic counts as input, those
/// written to the cache and those read from it.
pub open spec fn all_input_tokens(u: AnthropicUsage) -> int {
    count_of(u.input_tokens) + count_of(u.cache_creation_input_tokens) + count_of(
        u.cache_read_input_tokens,
    )
}

/// Whether a usage reports input tokens of any sort.
pub open spec fn reports_input(u: AnthropicUsage) -> bool {
    u.input_tokens is Some || u.cache_creation_input_tokens is Some
        || u.cache_read_input_tokens is Some
}

/// The usage of the inference engine that an Anthropic usage stands for.
pub open spec fn engine_usage(u: AnthropicUsage) -> Usage {
    Usage {
        input_tokens: if reports_input(u) {
            Some(all_input_tokens(u) as u32)
        } else {
            None
        },
        output_tokens: u.output_tokens,
        provider_cache_read_input_tokens: u.cache_read_input_tokens,
        provider_cache_write_input_tokens: u.cache_creation_input_tokens,
        cost: None,
    }
}

impl AnthropicUsage {
    /// The usage in the engine's terms: the input tokens with the cache tokens
    /// added back.
    pub fn into_usage(self) -> (r: Usage)
        requires
            all_input_tokens(self) <= u32::MAX,
        ensures
            r == engine_usage(self),
    {
        let total: Option<u32> = match (
            self.input_tokens,
            self.cache_creation_input_tokens,
            self.cache_read_input_tokens,
        ) {
            (Some(input), Some(written), Some(read)) => Some(input + written + read),
            (Some(input), Some(written), None) => Some(input + written),
            (Some(input), None, Some(read)) => Some(input + read),
            (Some(input), None, None) => Some(input),
            (None, Some(written), Some(read)) => Some(written + read),
            (None, Some(written), None) => Some(written),
            (None, None, Some(read)) => Some(read),
            (None, None, None) => None,
        };
        Usage {
            input_tokens: total,
            output_tokens: self.output_tokens,
            provider_cache_read_input_tokens: self.cache_read_input_tokens,
            provider_cache_write_input_tokens: self.cache_creation_input_tokens,
            cost: None,
        }
    }
}

/// Why the model stopped, in Anthropic's terms.
#[derive(Clone, Copy, Debug, PartialEq, Eq, Structural)]
pub enum AnthropicStopReason {
    EndTurn,
    MaxTokens,
    StopSequence,
    ToolUse,
    Unknown,
}

impl AnthropicStopReason {
    /// The reason in the engine's terms.
    pub open spec fn finish_reason(self) -> FinishReason {
        match self {
            AnthropicStopReason::EndTurn => FinishReason::Stop,
            AnthropicStopReason::MaxTokens => FinishReason::Length,
            AnthropicStopReason::StopSequence => FinishReason::StopSequence,
            AnthropicStopReason::ToolUse => FinishReason::ToolCall,
            AnthropicStopReason::Unknown => FinishReason::Unknown,
        }
    }

    /// The reason in the engine's terms.
    pub fn into_finish_reason(self) -> (r: FinishReason)
        ensures
            r == self.finish_reason(),
    {
        match self {
            AnthropicStopReason::EndTurn => FinishReason::Stop,
            AnthropicStopReason::MaxTokens => FinishReason::Length,
            AnthropicStopReason::StopSequence => FinishReason::StopSequence,
            AnthropicStopReason::ToolUse => FinishReason::ToolCall,
            AnthropicStopReason::Unknown => FinishReason::Unknown,
        }
    }

    /// The name that stands for the reason on the wire.
    pub open spec fn wire_name(self) -> Seq<char> {
        match self {
            AnthropicStopReason::EndTurn => "end_turn"@,
            AnthropicStopReason::MaxTokens => "max_tokens"@,
            AnthropicStopReason::StopSequence => "stop_sequence"@,
            AnthropicStopReason::ToolUse => "tool_use"@,
            AnthropicStopReason::Unknown => "unknown"@,
        }
    }

    /// The name that stands for the reason on the wire.
    pub fn name(self) -> (r: &'static str)
        ensures
            r@ == self.wire_name(),
    {
        match self {
            AnthropicStopReason::EndTurn => "end_turn",
            AnthropicStopReason::MaxTokens => "max_tokens",
            AnthropicStopReason::StopSequence => "stop_sequence",
            AnthropicStopReason::ToolUse => "tool_use",
            AnthropicStopReason::Unknown => "unknown",
        }
    }
}

/// The stop reason that stands for why an inference stopped. A filtered or
/// unknown stop has none.
pub open spec fn stop_reason_of(reason: Option<FinishReason>) -> Option<AnthropicStopReason> {
    match reason {
        None => None,
        Some(FinishReason::Stop) => Some(AnthropicStopReason::EndTurn),
        Some(FinishReason::Length) => Some(AnthropicStopReason::MaxTokens),
        Some(FinishReason::StopSequence) => Some(AnthropicStopReason::StopSequence),
        Some(FinishReason::ToolCall) => Some(AnthropicStopReason::ToolUse),
        Some(FinishReason::ContentFilter) => None,
        Some(FinishReason::Unknown) => None,
    }
}

/// A stop reason that the engine was given comes back unchanged, unless it was
/// unknown, which comes back as none.
pub proof fn stop_reason_round_trip(reason: AnthropicStopReason)
    ensures
        reason != AnthropicStopReason::Unknown ==> stop_reason_of(Some(reason.finish_reason()))
            == Some(reason),
        reason == AnthropicStopReason::Unknown ==> stop_reason_of(
            Some(reason.finish_reason()),
        ) is None,
{
}

/// Each stop reason is one finish reason of the engine.
pub proof fn stop_reasons_have_their_finish_reason(reason: AnthropicStopReason)
    ensures
        reason == AnthropicStopReason::EndTurn <==> reason.finish_reason() == FinishReason::Stop,
        reason == AnthropicStopReason::MaxTokens <==> reason.finish_reason()
            == FinishReason::Length,
        reason == AnthropicStopReason::StopSequence <==> reason.finish_reason()
            == FinishReason::StopSequence,
        reason == AnthropicStopReason::ToolUse <==> reason.finish_reason()
            == FinishReason::ToolCall,
        reason == AnthropicStopReason::Unknown <==> reason.finish_reason()
            == FinishReason::Unknown,
{
}

/// The engine counts all input tokens, those of the cache too, and keeps the counts of the
/// cache and of the output. Where nothing is reported, nothing is counted.
pub proof fn usage_is_converted(u: AnthropicUsage)
    requires
        all_input_tokens(u) <= u32::MAX,
    ensures
        ({
            let usage = engine_usage(u);
            let input: int = match u.input_tokens {
                Some(n) => n as int,
                None => 0,
            };
            let written: int = match u.cache_creation_input_tokens {
                Some(n) => n as int,
                None => 0,
            };
            let read: int = match u.cache_read_input_tokens {
                Some(n) => n as int,
                None => 0,
            };
            &&& match usage.input_tokens {
                Some(total) => total == input + written + read && (u.input_tokens is Some
                    || u.cache_creation_input_tokens is Some || u.cache_read_input_tokens is Some),
                None => u.input_tokens is None && u.cache_creation_input_tokens is None
                    && u.cache_read_input_tokens is None,
            }
            &&& usage.output_tokens == u.output_tokens
            &&& usage.provider_cache_read_input_tokens == u.cache_read_input_tokens
            &&& usage.provider_cache_write_input_tokens == u.cache_creation_input_tokens
            &&& usage.cost is None
        }),
{
}

} // verus!
