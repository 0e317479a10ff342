//! Validation rules shared by the request builders.
use crate::chat::request::{ReasoningEffort, Thinking, ThinkingType};
use crate::float_bits::{
    binary32_within_zero_and_pow2, binary32_within_zero_and_two, binary64_within_zero_and_one,
    binary64_within_zero_and_pow2, binary64_within_zero_and_two,
};
use vstd::prelude::*;

verus! {

/// A reason why a request builder refuses its parameters.
#[derive(Clone, Copy, Debug, PartialEq, Eq, Structural)]
pub enum ValidationIssue {
    TemperatureOutOfRange,
    TopPOutOfRange,
    TopLogprobsTooLarge,
    TopLogprobsWithoutLogprobs,
    ThinkingDisabledWithReasoningEffort,
    StreamOptionsWithoutStreaming,
    ReasoningContentWithoutPrefix,
    TooManyStopSequences,
    LogprobsTooLarge,
}

impl ValidationIssue {
    /// The message that a builder reports for the issue.
    pub open spec fn text(self) -> Seq<char> {
        match self {
            ValidationIssue::TemperatureOutOfRange => "temperature must be between 0 and 2"@,
            ValidationIssue::TopPOutOfRange => "top_p must be between 0 and 1"@,
            ValidationIssue::TopLogprobsTooLarge => "top_logprobs must be <= 20"@,
            ValidationIssue::TopLogprobsWithoutLogprobs => "top_logprobs requires logprobs=true"@,
            ValidationIssue::ThinkingDisabledWithReasoningEffort =>
                "thinking options type cannot be disabled when reasoning_effort is set"@,
            ValidationIssue::StreamOptionsWithoutStreaming =>
                "stream_options cannot be set when stream is false"@,
            ValidationIssue::ReasoningContentWithoutPrefix =>
                "reasoning_content cannot be set when assistant message prefix is false"@,
            ValidationIssue::TooManyStopSequences => "a maximum of 16 stop sequences are allowed"@,
            ValidationIssue::LogprobsTooLarge => "logprobs must be <= 20"@,
        }
    }

    /// The message that a builder reports for the issue.
    pub fn message(&self) -> (res: String)
        ensures
            res@ == self.text(),
    {
        match self {
            ValidationIssue::TemperatureOutOfRange => String::from_str(
                "temperature must be between 0 and 2",
            ),
            ValidationIssue::TopPOutOfRange => String::from_str("top_p must be between 0 and 1"),
            ValidationIssue::TopLogprobsTooLarge => String::from_str("top_logprobs must be <= 20"),
            ValidationIssue::TopLogprobsWithoutLogprobs => String::from_str(
                "top_logprobs requires logprobs=true",
            ),
            ValidationIssue::ThinkingDisabledWithReasoningEffort => String::from_str(
                "thinking options type cannot be disabled when reasoning_effort is set",
            ),
            ValidationIssue::StreamOptionsWithoutStreaming => String::from_str(
                "stream_options cannot be set when stream is false",
            ),
            ValidationIssue::ReasoningContentWithoutPrefix => String::from_str(
                "reasoning_content cannot be set when assistant message prefix is false",
            ),
            ValidationIssue::TooManyStopSequences => String::from_str(
                "a maximum of 16 stop sequences are allowed",
            ),
            ValidationIssue::LogprobsTooLarge => String::from_str("logprobs must be <= 20"),
        }
    }
}

/// Temperature, when given, lies between zero and two.
pub open spec fn temperature_ok(temperature: Option<u64>) -> bool {
    temperature matches Some(t) ==> binary64_within_zero_and_pow2(t, 1)
}

/// Nucleus-sampling mass, when given, lies between zero and one.
pub open spec fn top_p_ok(top_p: Option<u64>) -> bool {
    top_p matches Some(p) ==> binary64_within_zero_and_pow2(p, 0)
}

/// Thinking is switched off while a reasoning effort is asked for.
pub open spec fn thinking_conflicts(
    thinking: Option<Thinking>,
    reasoning_effort: Option<ReasoningEffort>,
) -> bool {
    &&& thinking matches Some(t) && t.typ == ThinkingType::Disabled
    &&& reasoning_effort is Some
}

/// Stream options are refused: given while streaming is off, or, where the request
/// allows them only with streaming on (the beta endpoint), given while streaming is not
/// switched on.
pub open spec fn stream_options_refused(
    stream: Option<bool>,
    has_stream_options: bool,
    need_stream_on: bool,
) -> bool {
    has_stream_options && if need_stream_on {
        stream != Some(true)
    } else {
        stream == Some(false)
    }
}

/// The first sampling-parameter issue of a chat request, checked in this order:
/// temperature, top_p, top_logprobs bound, top_logprobs without logprobs, thinking
/// against reasoning effort, stream options without streaming.
pub open spec fn sampling_issue(
    temperature: Option<u64>,
    top_p: Option<u64>,
    top_logprobs: Option<u32>,
    logprobs: Option<bool>,
    thinking: Option<Thinking>,
    reasoning_effort: Option<ReasoningEffort>,
    stream: Option<bool>,
    has_stream_options: bool,
    stream_options_need_stream_on: bool,
) -> Option<ValidationIssue> {
    if !temperature_ok(temperature) {
        Some(ValidationIssue::TemperatureOutOfRange)
    } else if !top_p_ok(top_p) {
        Some(ValidationIssue::TopPOutOfRange)
    } else if top_logprobs matches Some(n) && n > 20 {
        Some(ValidationIssue::TopLogprobsTooLarge)
    } else if top_logprobs is Some && logprobs != Some(true) {
        Some(ValidationIssue::TopLogprobsWithoutLogprobs)
    } else if thinking_conflicts(thinking, reasoning_effort) {
        Some(ValidationIssue::ThinkingDisabledWithReasoningEffort)
    } else if stream_options_refused(stream, has_stream_options, stream_options_need_stream_on) {
        Some(ValidationIssue::StreamOptionsWithoutStreaming)
    } else {
        None
    }
}

/// Every sampling constraint of a chat request holds.
pub open spec fn sampling_constraints_hold(
    temperature: Option<u64>,
    top_p: Option<u64>,
    top_logprobs: Option<u32>,
    logprobs: Option<bool>,
    thinking: Option<Thinking>,
    reasoning_effort: Option<ReasoningEffort>,
    stream: Option<bool>,
    has_stream_options: bool,
    stream_options_need_stream_on: bool,
) -> bool {
    &&& temperature_ok(temperature)
    &&& top_p_ok(top_p)
    &&& top_logprobs matches Some(n) ==> n <= 20 && logprobs == Some(true)
    &&& !thinking_conflicts(thinking, reasoning_effort)
    &&& !stream_options_refused(stream, has_stream_options, stream_options_need_stream_on)
}

/// Sampling parameters are refused exactly when one of the documented constraints fails:
/// temperature in [0, 2], top_p in [0, 1], top_logprobs at most 20 and only with
/// logprobs on, no reasoning effort with thinking off, no stream options while streaming
/// is off (for the beta endpoint: unless streaming is on).
pub proof fn lemma_sampling_refused_iff_constraint_fails(
    temperature: Option<u64>,
    top_p: Option<u64>,
    top_logprobs: Option<u32>,
    logprobs: Option<bool>,
    thinking: Option<Thinking>,
    reasoning_effort: Option<ReasoningEffort>,
    stream: Option<bool>,
    has_stream_options: bool,
    stream_options_need_stream_on: bool,
)
    ensures
        sampling_issue(
            temperature,
            top_p,
            top_logprobs,
            logprobs,
            thinking,
            reasoning_effort,
            stream,
            has_stream_options,
            stream_options_need_stream_on,
        ) is None <==> sampling_constraints_hold(
            temperature,
            top_p,
            top_logprobs,
            logprobs,
            thinking,
            reasoning_effort,
            stream,
            has_stream_options,
            stream_options_need_stream_on,
        ),
{
}

/// Which rule a chat request is refused for: the first broken one in the order
/// temperature (outside [0, 2]), top_p (outside [0, 1]), top_logprobs above 20,
/// top_logprobs without logprobs on, reasoning effort with thinking off, stream options
/// without streaming. Each rule's bound is stated here on its own.
pub proof fn lemma_sampling_reports_first_broken_rule(
    temperature: Option<u64>,
    top_p: Option<u64>,
    top_logprobs: Option<u32>,
    logprobs: Option<bool>,
    thinking: Option<Thinking>,
    reasoning_effort: Option<ReasoningEffort>,
    stream: Option<bool>,
    has_stream_options: bool,
    stream_options_need_stream_on: bool,
)
    ensures
        ({
            let issue = sampling_issue(
                temperature,
                top_p,
                top_logprobs,
                logprobs,
                thinking,
                reasoning_effort,
                stream,
                has_stream_options,
                stream_options_need_stream_on,
            );
            let t_bad = temperature matches Some(t) && !binary64_within_zero_and_pow2(t, 1);
            let p_bad = top_p matches Some(p) && !binary64_within_zero_and_pow2(p, 0);
            let n_bad = top_logprobs matches Some(n) && n > 20;
            let l_bad = top_logprobs is Some && logprobs != Some(true);
            let e_bad = reasoning_effort is Some && (thinking matches Some(th) && th.typ
                == ThinkingType::Disabled);
            let s_bad = has_stream_options && (stream == Some(false) || (
            stream_options_need_stream_on && stream is None));
            &&& (issue == Some(ValidationIssue::TemperatureOutOfRange) <==> t_bad)
            &&& (issue == Some(ValidationIssue::TopPOutOfRange) <==> !t_bad && p_bad)
            &&& (issue == Some(ValidationIssue::TopLogprobsTooLarge) <==> !t_bad && !p_bad
                && n_bad)
            &&& (issue == Some(ValidationIssue::TopLogprobsWithoutLogprobs) <==> !t_bad && !p_bad
                && !n_bad && l_bad)
            &&& (issue == Some(ValidationIssue::ThinkingDisabledWithReasoningEffort) <==> !t_bad
                && !p_bad && !n_bad && !l_bad && e_bad)
            &&& (issue == Some(ValidationIssue::StreamOptionsWithoutStreaming) <==> !t_bad
                && !p_bad && !n_bad && !l_bad && !e_bad && s_bad)
            &&& (issue is None <==> !t_bad && !p_bad && !n_bad && !l_bad && !e_bad && !s_bad)
        }),
{
    match stream {
        Some(on) => {
            if on {
                assert(stream == Some(true));
            } else {
                assert(stream == Some(false));
            }
        },
        None => {},
    }
}

/// Check the sampling parameters of a chat request.
pub fn check_sampling(
    temperature: Option<u64>,
    top_p: Option<u64>,
    top_logprobs: Option<u32>,
    logprobs: Option<bool>,
    thinking: &Option<Thinking>,
    reasoning_effort: &Option<ReasoningEffort>,
    stream: Option<bool>,
    has_stream_options: bool,
    stream_options_need_stream_on: bool,
) -> (res: Option<ValidationIssue>)
    ensures
        res == sampling_issue(
            temperature,
            top_p,
            top_logprobs,
            logprobs,
            *thinking,
            *reasoning_effort,
            stream,
            has_stream_options,
            stream_options_need_stream_on,
        ),
{
    if let Some(t) = temperature {
        if !binary64_within_zero_and_two(t) {
            return Some(ValidationIssue::TemperatureOutOfRange);
        }
    }
    if let Some(p) = top_p {
        if !binary64_within_zero_and_one(p) {
            return Some(ValidationIssue::TopPOutOfRange);
        }
    }
    if let Some(n) = top_logprobs {
        if n > 20 {
            return Some(ValidationIssue::TopLogprobsTooLarge);
        }
        let logprobs_on = match logprobs {
            Some(b) => b,
            None => false,
        };
        if !logprobs_on {
            return Some(ValidationIssue::TopLogprobsWithoutLogprobs);
        }
    }
    if let Some(t) = thinking {
        if reasoning_effort.is_some() {
            if let ThinkingType::Disabled = t.typ {
                return Some(ValidationIssue::ThinkingDisabledWithReasoningEffort);
            }
        }
    }
    if let Some(s) = stream {
        if !s && has_stream_options {
            return Some(ValidationIssue::StreamOptionsWithoutStreaming);
        }
    } else if stream_options_need_stream_on && has_stream_options {
        return Some(ValidationIssue::StreamOptionsWithoutStreaming);
    }
    None
}

/// The first issue of a FIM completion request, checked in this order: temperature
/// (a binary32 value), logprobs bound, top_p, stream options without streaming.
pub open spec fn completion_issue(
    temperature: Option<u32>,
    logprobs: Option<u32>,
    top_p: Option<u64>,
    stream: Option<bool>,
    has_stream_options: bool,
) -> Option<ValidationIssue> {
    if temperature matches Some(t) && !binary32_within_zero_and_pow2(t, 1) {
        Some(ValidationIssue::TemperatureOutOfRange)
    } else if logprobs matches Some(n) && n > 20 {
        Some(ValidationIssue::LogprobsTooLarge)
    } else if !top_p_ok(top_p) {
        Some(ValidationIssue::TopPOutOfRange)
    } else if stream == Some(false) && has_stream_options {
        Some(ValidationIssue::StreamOptionsWithoutStreaming)
    } else {
        None
    }
}

/// Every constraint of a FIM completion request holds.
pub open spec fn completion_constraints_hold(
    temperature: Option<u32>,
    logprobs: Option<u32>,
    top_p: Option<u64>,
    stream: Option<bool>,
    has_stream_options: bool,
) -> bool {
    &&& temperature matches Some(t) ==> binary32_within_zero_and_pow2(t, 1)
    &&& logprobs matches Some(n) ==> n <= 20
    &&& top_p_ok(top_p)
    &&& stream == Some(false) ==> !has_stream_options
}

/// FIM parameters are refused exactly when one of the documented constraints fails:
/// temperature in [0, 2], logprobs at most 20, top_p in [0, 1], no stream options
/// unless streaming.
pub proof fn lemma_completion_refused_iff_constraint_fails(
    temperature: Option<u32>,
    logprobs: Option<u32>,
    top_p: Option<u64>,
    stream: Option<bool>,
    has_stream_options: bool,
)
    ensures
        completion_issue(temperature, logprobs, top_p, stream, has_stream_options) is None
            <==> completion_constraints_hold(
            temperature,
            logprobs,
            top_p,
            stream,
            has_stream_options,
        ),
{
}

/// Which rule a FIM request is refused for: the first broken one in the order temperature
/// (a binary32 value outside [0, 2]), logprobs above 20, top_p (outside [0, 1]), stream
/// options while streaming is off.
pub proof fn lemma_completion_reports_first_broken_rule(
    temperature: Option<u32>,
    logprobs: Option<u32>,
    top_p: Option<u64>,
    stream: Option<bool>,
    has_stream_options: bool,
)
    ensures
        ({
            let issue = completion_issue(temperature, logprobs, top_p, stream, has_stream_options);
            let t_bad = temperature matches Some(t) && !binary32_within_zero_and_pow2(t, 1);
            let n_bad = logprobs matches Some(n) && n > 20;
            let p_bad = top_p matches Some(p) && !binary64_within_zero_and_pow2(p, 0);
            let s_bad = has_stream_options && stream == Some(false);
            &&& (issue == Some(ValidationIssue::TemperatureOutOfRange) <==> t_bad)
            &&& (issue == Some(ValidationIssue::LogprobsTooLarge) <==> !t_bad && n_bad)
            &&& (issue == Some(ValidationIssue::TopPOutOfRange) <==> !t_bad && !n_bad && p_bad)
            &&& (issue == Some(ValidationIssue::StreamOptionsWithoutStreaming) <==> !t_bad
                && !n_bad && !p_bad && s_bad)
            &&& (issue is None <==> !t_bad && !n_bad && !p_bad && !s_bad)
        }),
{
}

/// Check the parameters of a FIM completion request.
pub fn check_completion(
    temperature: Option<u32>,
    logprobs: Option<u32>,
    top_p: Option<u64>,
    stream: Option<bool>,
    has_stream_options: bool,
) -> (res: Option<ValidationIssue>)
    ensures
        res == completion_issue(temperature, logprobs, top_p, stream, has_stream_options),
{
    if let Some(t) = temperature {
        if !binary32_within_zero_and_two(t) {
            return Some(ValidationIssue::TemperatureOutOfRange);
        }
    }
    if let Some(n) = logprobs {
        if n > 20 {
            return Some(ValidationIssue::LogprobsTooLarge);
        }
    }
    if let Some(p) = top_p {
        if !binary64_within_zero_and_one(p) {
            return Some(ValidationIssue::TopPOutOfRange);
        }
    }
    if let Some(s) = stream {
        if !s && has_stream_options {
            return Some(ValidationIssue::StreamOptionsWithoutStreaming);
        }
    }
    None
}

} // verus!
