//! Beta chat request payload and its builder (beta base URL required).
use crate::chat::request::{
    listed, ChatRequestBuilder, ReasoningEffort, ResponseFormat, Stop, StreamOptions, Thinking, ToolChoice, ToolType,
};
use crate::chat::response::ToolCall;
use crate::validation::{check_sampling, sampling_issue, ValidationIssue};
use crate::DeepSeekClient;
use vstd::prelude::*;

verus! {

/// Whether a flag is off; an off `prefix` flag is left out of a message body.
pub fn is_false(value: &bool) -> (res: bool)
    ensures
        res == !*value,
{
    !*value
}

/// Beta chat request payload.
#[derive(Clone, Debug)]
pub struct BetaChatRequest {
    /// The client that sends the request; not part of the body.
    pub client: DeepSeekClient,
    /// A list of messages comprising the conversation so far.
    pub messages: Vec<BetaChatMessage>,
    /// ID of the model to use (`deepseek-v4-flash`, `deepseek-v4-pro`).
    pub model: String,
    /// Controls the switch between thinking and non-thinking mode.
    pub thinking: Option<Thinking>,
    /// Controls the reasoning effort of the model (`high`, `max`).
    pub reasoning_effort: Option<ReasoningEffort>,
    /// The maximum number of tokens that can be generated in the chat completion.
    pub max_tokens: Option<u32>,
    /// An object specifying the format that the model must output.
    pub response_format: Option<ResponseFormat>,
    /// Up to 16 sequences where the API will stop generating further tokens.
    pub stop: Option<Stop>,
    /// If set, partial message deltas will be sent as server-sent events.
    pub stream: Option<bool>,
    /// Options for streaming response. Only set this when you set `stream: true`; the
    /// builder refuses them otherwise.
    pub stream_options: Option<StreamOptions>,
    /// Sampling temperature, at most 2, as the IEEE-754 binary64 bit pattern.
    pub temperature: Option<u64>,
    /// Nucleus sampling mass, at most 1, as the IEEE-754 binary64 bit pattern.
    pub top_p: Option<u64>,
    /// A list of tools the model may call (at most 128 functions).
    pub tools: Vec<Tool>,
    /// Controls which (if any) tool is called by the model.
    pub tool_choice: Option<ToolChoice>,
    /// Whether to return log probabilities of the output tokens or not.
    pub logprobs: Option<bool>,
    /// Number of most likely tokens to return at each position, at most 20; needs `logprobs`.
    pub top_logprobs: Option<u32>,
    /// A custom user id, characters `[a-zA-Z0-9\-_]`, at most 512 long.
    pub user_id: Option<String>,
}

impl BetaChatRequest {
    /// The same request with streaming switched on, as it is sent to the streaming endpoint.
    pub fn into_streaming(self) -> (res: BetaChatRequest)
        ensures
            res == (BetaChatRequest { stream: Some(true), ..self }),
    {
        BetaChatRequest { stream: Some(true), ..self }
    }
}

/// Beta chat message variants.
#[derive(Clone, Debug, PartialEq, Eq)]
pub enum BetaChatMessage {
    System {
        /// The contents of the system message.
        content: String,
        /// An optional name for the participant.
        name: Option<String>,
    },
    User {
        /// The contents of the user message.
        content: String,
        /// An optional name for the participant.
        name: Option<String>,
    },
    Assistant {
        /// The contents of the assistant message.
        content: Option<String>,
        /// An optional name for the participant.
        name: Option<String>,
        /// (Beta) Force the model to start its answer with the content of this message.
        prefix: bool,
        /// (Beta) Input for the chain of thought in the last assistant message; needs `prefix`.
        reasoning_content: Option<String>,
        tool_calls: Option<Vec<ToolCall>>,
    },
    Tool {
        /// The contents of the tool message.
        content: String,
        /// Tool call that this message is responding to.
        tool_call_id: String,
    },
}

/// Tool definition for beta chat requests.
#[derive(Clone, Debug)]
pub struct Tool {
    /// The `type` member.
    pub typ: ToolType,
    pub function: BetaToolFunctionDefinition,
}

impl Tool {
    /// A function tool with a name, a description, an optional JSON schema of its
    /// parameters and an optional strict-mode flag.
    pub fn new(
        name: &str,
        description: &str,
        parameters: Option<serde_json::Value>,
        strict: Option<bool>,
    ) -> (res: Tool)
        ensures
            res.typ == ToolType::Function,
            res.function.name@ == name@,
            res.function.description@ == description@,
            res.function.parameters == parameters,
            res.function.strict == strict,
    {
        Tool {
            typ: ToolType::Function,
            function: BetaToolFunctionDefinition {
                name: String::from_str(name),
                description: String::from_str(description),
                parameters,
                strict,
            },
        }
    }
}

/// Tool function definition for beta chat requests.
#[derive(Clone, Debug)]
pub struct BetaToolFunctionDefinition {
    pub description: String,
    pub name: String,
    pub parameters: Option<serde_json::Value>,
    /// (Beta) Default `false`: strict-mode tool calls that follow the JSON schema.
    pub strict: Option<bool>,
}

/// An assistant message that carries reasoning content without being a prefix.
pub open spec fn reasoning_without_prefix(message: BetaChatMessage) -> bool {
    message matches BetaChatMessage::Assistant { prefix, reasoning_content, .. } && !prefix
        && reasoning_content is Some
}

/// Whether some message of the list is an assistant message with reasoning content but
/// without the prefix flag.
pub fn has_reasoning_without_prefix(messages: &Option<Vec<BetaChatMessage>>) -> (res: bool)
    ensures
        res == exists|i: int|
            0 <= i < listed(*messages).len() && #[trigger] reasoning_without_prefix(
                listed(*messages)[i],
            ),
        res == exists|i: int|
            0 <= i < listed(*messages).len() && (#[trigger] listed(*messages)[i] matches
                BetaChatMessage::Assistant { prefix, reasoning_content, .. } && !prefix
                && reasoning_content is Some),
{
    match messages {
        None => false,
        Some(list) => {
            let mut i: usize = 0;
            while i < list.len()
                invariant
                    i <= list@.len(),
                    listed(*messages) == list@,
                    forall|j: int|
                        0 <= j < i ==> !(#[trigger] list@[j] matches BetaChatMessage::Assistant {
                            prefix,
                            reasoning_content,
                            ..
                        } && !prefix && reasoning_content is Some),
                decreases list@.len() - i,
            {
                let offending = match &list[i] {
                    BetaChatMessage::Assistant { prefix, reasoning_content, .. } => !*prefix
                        && reasoning_content.is_some(),
                    _ => false,
                };
                if offending {
                    assert(reasoning_without_prefix(list@[i as int]));
                    return true;
                }
                i = i + 1;
            }
            assert forall|j: int| 0 <= j < list@.len() implies !#[trigger] reasoning_without_prefix(
                list@[j],
            ) by {
                let _ = list@[j];
            }
            false
        },
    }
}

/// The beta builder refuses an assistant message that carries reasoning content without
/// the prefix flag, whatever its content, name and tool calls, once the sampling rules
/// pass; and a builder that passes validation holds no such message.
pub proof fn lemma_beta_refuses_reasoning_without_prefix(b: BetaChatRequestBuilder, i: int)
    ensures
        b.sampling_issue() is None && 0 <= i < listed(b.messages).len() && (listed(
            b.messages,
        )[i] matches BetaChatMessage::Assistant { prefix, reasoning_content, .. } && !prefix
            && reasoning_content is Some) ==> b.issue() == Some(
            ValidationIssue::ReasoningContentWithoutPrefix,
        ),
        b.issue() is None && 0 <= i < listed(b.messages).len() && (listed(
            b.messages,
        )[i] matches BetaChatMessage::Assistant { prefix, reasoning_content, .. }) ==> (listed(
            b.messages,
        )[i] matches BetaChatMessage::Assistant { prefix, reasoning_content, .. } && (prefix
            || reasoning_content is None)),
{
    if 0 <= i < listed(b.messages).len() {
        assert(reasoning_without_prefix(listed(b.messages)[i]) <==> (listed(b.messages)[i] matches
            BetaChatMessage::Assistant { prefix, reasoning_content, .. } && !prefix
            && reasoning_content is Some));
    }
}

/// The beta builder refuses more than sixteen stop sequences once the other rules pass,
/// and a builder that passes validation holds at most sixteen; it also passes only with
/// streaming switched on wherever stream options are given.
pub proof fn lemma_beta_stop_and_stream_option_rules(b: BetaChatRequestBuilder)
    ensures
        b.sampling_issue() is None && !(exists|i: int|
            0 <= i < listed(b.messages).len() && #[trigger] reasoning_without_prefix(
                listed(b.messages)[i],
            )) && (b.stop matches Some(Stop::Many(v)) && v@.len() > 16) ==> b.issue() == Some(
            ValidationIssue::TooManyStopSequences,
        ),
        b.issue() is None ==> !(b.stop matches Some(Stop::Many(v)) && v@.len() > 16),
        b.issue() is None && b.stream_options is Some ==> b.stream == Some(true),
{
}

/// More than sixteen stop sequences.
pub open spec fn too_many_stop_sequences(stop: Option<Stop>) -> bool {
    stop matches Some(Stop::Many(values)) && values@.len() > 16
}

/// The beta rules are the chat rules and two more: with the same sampling parameters, a
/// beta builder that passes validation holds parameters that a chat builder accepts, and
/// a sampling issue that a chat builder reports is the one that a beta builder reports.
pub proof fn lemma_beta_rules_extend_chat_rules(
    beta: BetaChatRequestBuilder,
    chat: ChatRequestBuilder,
)
    requires
        beta.temperature == chat.temperature,
        beta.top_p == chat.top_p,
        beta.top_logprobs == chat.top_logprobs,
        beta.logprobs == chat.logprobs,
        beta.thinking == chat.thinking,
        beta.reasoning_effort == chat.reasoning_effort,
        beta.stream == chat.stream,
        beta.stream_options is Some <==> chat.stream_options is Some,
    ensures
        beta.issue() is None ==> chat.issue() is None,
        chat.issue() is Some ==> beta.issue() == chat.issue(),
{
}

/// Why a request builder could not build.
#[derive(Clone, Debug)]
pub enum BetaChatRequestBuilderError {
    /// A required field was never set; the field's name.
    UninitializedField(&'static str),
    /// The parameters break a validation rule; the rule's message.
    ValidationError(String),
}

/// Builder of `BetaChatRequest`. Every field starts unset; `build` validates and assembles.
#[derive(Clone, Debug)]
pub struct BetaChatRequestBuilder {
    pub client: Option<DeepSeekClient>,
    pub messages: Option<Vec<BetaChatMessage>>,
    pub model: Option<String>,
    pub thinking: Option<Thinking>,
    pub reasoning_effort: Option<ReasoningEffort>,
    pub max_tokens: Option<u32>,
    pub response_format: Option<ResponseFormat>,
    pub stop: Option<Stop>,
    pub stream: Option<bool>,
    pub stream_options: Option<StreamOptions>,
    pub temperature: Option<u64>,
    pub top_p: Option<u64>,
    pub tools: Option<Vec<Tool>>,
    pub tool_choice: Option<ToolChoice>,
    pub logprobs: Option<bool>,
    pub top_logprobs: Option<u32>,
    pub user_id: Option<String>,
}

impl Default for BetaChatRequestBuilder {
    fn default() -> (res: BetaChatRequestBuilder)
        ensures
            res == BetaChatRequestBuilder::empty(),
    {
        BetaChatRequestBuilder {
            client: None,
            messages: None,
            model: None,
            thinking: None,
            reasoning_effort: None,
            max_tokens: None,
            response_format: None,
            stop: None,
            stream: None,
            stream_options: None,
            temperature: None,
            top_p: None,
            tools: None,
            tool_choice: None,
            logprobs: None,
            top_logprobs: None,
            user_id: None,
        }
    }
}

impl BetaChatRequestBuilder {
    /// A builder with no field set.
    pub open spec fn empty() -> BetaChatRequestBuilder {
        BetaChatRequestBuilder {
            client: None,
            messages: None,
            model: None,
            thinking: None,
            reasoning_effort: None,
            max_tokens: None,
            response_format: None,
            stop: None,
            stream: None,
            stream_options: None,
            temperature: None,
            top_p: None,
            tools: None,
            tool_choice: None,
            logprobs: None,
            top_logprobs: None,
            user_id: None,
        }
    }

    /// The sampling-parameter issue, checked as for a chat request, except that stream
    /// options are allowed only with streaming switched on.
    pub open spec fn sampling_issue(self) -> Option<ValidationIssue> {
        sampling_issue(
            self.temperature,
            self.top_p,
            self.top_logprobs,
            self.logprobs,
            self.thinking,
            self.reasoning_effort,
            self.stream,
            self.stream_options is Some,
            true,
        )
    }

    /// The first validation rule that the builder's parameters break: the sampling
    /// rules of a chat request, then reasoning content without prefix, then more than
    /// sixteen stop sequences.
    pub open spec fn issue(self) -> Option<ValidationIssue> {
        if self.sampling_issue() is Some {
            self.sampling_issue()
        } else if exists|i: int|
            0 <= i < listed(self.messages).len() && #[trigger] reasoning_without_prefix(
                listed(self.messages)[i],
            ) {
            Some(ValidationIssue::ReasoningContentWithoutPrefix)
        } else if too_many_stop_sequences(self.stop) {
            Some(ValidationIssue::TooManyStopSequences)
        } else {
            None
        }
    }

    /// The request that a builder with its required fields set assembles around the
    /// given tool list; optional fields left unset stay absent.
    pub open spec fn assembled(self, tools: Vec<Tool>) -> BetaChatRequest {
        BetaChatRequest {
            client: self.client.unwrap(),
            messages: self.messages.unwrap(),
            model: self.model.unwrap(),
            thinking: self.thinking,
            reasoning_effort: self.reasoning_effort,
            max_tokens: self.max_tokens,
            response_format: self.response_format,
            stop: self.stop,
            stream: self.stream,
            stream_options: self.stream_options,
            temperature: self.temperature,
            top_p: self.top_p,
            tools,
            tool_choice: self.tool_choice,
            logprobs: self.logprobs,
            top_logprobs: self.top_logprobs,
            user_id: self.user_id,
        }
    }

    /// Check the validation rules; the message of the first broken rule.
    pub fn validate(&self) -> (res: Result<(), String>)
        ensures
            match self.issue() {
                None => res is Ok,
                Some(issue) => res matches Err(m) && m@ == issue.text(),
            },
    {
        match check_sampling(
            self.temperature,
            self.top_p,
            self.top_logprobs,
            self.logprobs,
            &self.thinking,
            &self.reasoning_effort,
            self.stream,
            self.stream_options.is_some(),
            true,
        ) {
            Some(issue) => {
                return Err(issue.message());
            },
            None => {},
        }
        if has_reasoning_without_prefix(&self.messages) {
            return Err(ValidationIssue::ReasoningContentWithoutPrefix.message());
        }
        match &self.stop {
            Some(Stop::Many(values)) => {
                if values.len() > 16 {
                    return Err(ValidationIssue::TooManyStopSequences.message());
                }
            },
            _ => {},
        }
        Ok(())
    }

    /// Validate, then assemble the request; the required fields are the client, the
    /// messages and the model, checked in that order.
    pub fn build(self) -> (res: Result<BetaChatRequest, BetaChatRequestBuilderError>)
        ensures
            match self.issue() {
                Some(issue) => res matches Err(BetaChatRequestBuilderError::ValidationError(m))
                    && m@ == issue.text(),
                None => if self.client is None {
                    res matches Err(BetaChatRequestBuilderError::UninitializedField(f)) && f@
                        == "client"@
                } else if self.messages is None {
                    res matches Err(BetaChatRequestBuilderError::UninitializedField(f)) && f@
                        == "messages"@
                } else if self.model is None {
                    res matches Err(BetaChatRequestBuilderError::UninitializedField(f)) && f@
                        == "model"@
                } else {
                    res matches Ok(r) && r == self.assembled(r.tools) && r.tools@ == listed(
                        self.tools,
                    )
                },
            },
            res matches Ok(r) ==> {
                &&& Some(r.client) == self.client
                &&& Some(r.messages) == self.messages
                &&& Some(r.model) == self.model
                &&& r.thinking == self.thinking
                &&& r.reasoning_effort == self.reasoning_effort
                &&& r.max_tokens == self.max_tokens
                &&& r.response_format == self.response_format
                &&& r.stop == self.stop
                &&& r.stream == self.stream
                &&& r.stream_options == self.stream_options
                &&& r.temperature == self.temperature
                &&& r.top_p == self.top_p
                &&& r.tool_choice == self.tool_choice
                &&& r.logprobs == self.logprobs
                &&& r.top_logprobs == self.top_logprobs
                &&& r.user_id == self.user_id
                &&& r.tools@ == listed(self.tools)
            },
            res is Ok <==> (self.issue() is None && self.client is Some && self.messages is Some
                && self.model is Some),
    {
        match self.validate() {
            Err(message) => {
                return Err(BetaChatRequestBuilderError::ValidationError(message));
            },
            Ok(()) => {},
        }
        let client = match self.client {
            Some(c) => c,
            None => {
                return Err(BetaChatRequestBuilderError::UninitializedField("client"));
            },
        };
        let messages = match self.messages {
            Some(m) => m,
            None => {
                return Err(BetaChatRequestBuilderError::UninitializedField("messages"));
            },
        };
        let model = match self.model {
            Some(m) => m,
            None => {
                return Err(BetaChatRequestBuilderError::UninitializedField("model"));
            },
        };
        let tools = match self.tools {
            Some(t) => t,
            None => Vec::new(),
        };
        Ok(
            BetaChatRequest {
                client,
                messages,
                model,
                thinking: self.thinking,
                reasoning_effort: self.reasoning_effort,
                max_tokens: self.max_tokens,
                response_format: self.response_format,
                stop: self.stop,
                stream: self.stream,
                stream_options: self.stream_options,
                temperature: self.temperature,
                top_p: self.top_p,
                tools,
                tool_choice: self.tool_choice,
                logprobs: self.logprobs,
                top_logprobs: self.top_logprobs,
                user_id: self.user_id,
            },
        )
    }
}

impl BetaChatRequestBuilder {
    /// Set the client that sends the request.
    pub fn client(self, client: DeepSeekClient) -> (res: BetaChatRequestBuilder)
        ensures
            res == (BetaChatRequestBuilder { client: Some(client), ..self }),
    {
        BetaChatRequestBuilder { client: Some(client), ..self }
    }

    /// Set the whole conversation.
    pub fn messages(self, messages: Vec<BetaChatMessage>) -> (res: BetaChatRequestBuilder)
        ensures
            res == (BetaChatRequestBuilder { messages: Some(messages), ..self }),
    {
        BetaChatRequestBuilder { messages: Some(messages), ..self }
    }

    /// Append one message to the conversation.
    pub fn message(self, item: BetaChatMessage) -> (res: BetaChatRequestBuilder)
        ensures
            res == (BetaChatRequestBuilder { messages: res.messages, ..self }),
            res.messages matches Some(v) && v@ == listed(self.messages).push(item),
    {
        let mut items = match self.messages {
            Some(v) => v,
            None => Vec::new(),
        };
        items.push(item);
        BetaChatRequestBuilder { messages: Some(items), ..self }
    }

    /// Set the model id.
    pub fn model(self, model: &str) -> (res: BetaChatRequestBuilder)
        ensures
            res == (BetaChatRequestBuilder { model: res.model, ..self }),
            res.model matches Some(v) && v@ == model@,
    {
        BetaChatRequestBuilder { model: Some(String::from_str(model)), ..self }
    }

    /// Set the thinking switch.
    pub fn thinking(self, thinking: Thinking) -> (res: BetaChatRequestBuilder)
        ensures
            res == (BetaChatRequestBuilder { thinking: Some(thinking), ..self }),
    {
        BetaChatRequestBuilder { thinking: Some(thinking), ..self }
    }

    /// Set the reasoning effort.
    pub fn reasoning_effort(self, reasoning_effort: ReasoningEffort) -> (res: BetaChatRequestBuilder)
        ensures
            res == (BetaChatRequestBuilder { reasoning_effort: Some(reasoning_effort), ..self }),
    {
        BetaChatRequestBuilder { reasoning_effort: Some(reasoning_effort), ..self }
    }

    /// Set the limit on generated tokens.
    pub fn max_tokens(self, max_tokens: u32) -> (res: BetaChatRequestBuilder)
        ensures
            res == (BetaChatRequestBuilder { max_tokens: Some(max_tokens), ..self }),
    {
        BetaChatRequestBuilder { max_tokens: Some(max_tokens), ..self }
    }

    /// Set the output format.
    pub fn response_format(self, response_format: ResponseFormat) -> (res: BetaChatRequestBuilder)
        ensures
            res == (BetaChatRequestBuilder { response_format: Some(response_format), ..self }),
    {
        BetaChatRequestBuilder { response_format: Some(response_format), ..self }
    }

    /// Set the stop sequences.
    pub fn stop(self, stop: Stop) -> (res: BetaChatRequestBuilder)
        ensures
            res == (BetaChatRequestBuilder { stop: Some(stop), ..self }),
    {
        BetaChatRequestBuilder { stop: Some(stop), ..self }
    }

    /// Set whether the response is streamed.
    pub fn stream(self, stream: bool) -> (res: BetaChatRequestBuilder)
        ensures
            res == (BetaChatRequestBuilder { stream: Some(stream), ..self }),
    {
        BetaChatRequestBuilder { stream: Some(stream), ..self }
    }

    /// Set the streaming options.
    pub fn stream_options(self, stream_options: StreamOptions) -> (res: BetaChatRequestBuilder)
        ensures
            res == (BetaChatRequestBuilder { stream_options: Some(stream_options), ..self }),
    {
        BetaChatRequestBuilder { stream_options: Some(stream_options), ..self }
    }

    /// Set the sampling temperature, as the IEEE-754 binary64 bit pattern (what `to_bits` gives).
    pub fn temperature(self, temperature: u64) -> (res: BetaChatRequestBuilder)
        ensures
            res == (BetaChatRequestBuilder { temperature: Some(temperature), ..self }),
    {
        BetaChatRequestBuilder { temperature: Some(temperature), ..self }
    }

    /// Set the nucleus sampling mass, as the IEEE-754 binary64 bit pattern.
    pub fn top_p(self, top_p: u64) -> (res: BetaChatRequestBuilder)
        ensures
            res == (BetaChatRequestBuilder { top_p: Some(top_p), ..self }),
    {
        BetaChatRequestBuilder { top_p: Some(top_p), ..self }
    }

    /// Set the whole tool list.
    pub fn tools(self, tools: Vec<Tool>) -> (res: BetaChatRequestBuilder)
        ensures
            res == (BetaChatRequestBuilder { tools: Some(tools), ..self }),
    {
        BetaChatRequestBuilder { tools: Some(tools), ..self }
    }

    /// Append one tool.
    pub fn tool(self, item: Tool) -> (res: BetaChatRequestBuilder)
        ensures
            res == (BetaChatRequestBuilder { tools: res.tools, ..self }),
            res.tools matches Some(v) && v@ == listed(self.tools).push(item),
    {
        let mut items = match self.tools {
            Some(v) => v,
            None => Vec::new(),
        };
        items.push(item);
        BetaChatRequestBuilder { tools: Some(items), ..self }
    }

    /// Set the tool choice.
    pub fn tool_choice(self, tool_choice: ToolChoice) -> (res: BetaChatRequestBuilder)
        ensures
            res == (BetaChatRequestBuilder { tool_choice: Some(tool_choice), ..self }),
    {
        BetaChatRequestBuilder { tool_choice: Some(tool_choice), ..self }
    }

    /// Set whether log-probabilities are returned.
    pub fn logprobs(self, logprobs: bool) -> (res: BetaChatRequestBuilder)
        ensures
            res == (BetaChatRequestBuilder { logprobs: Some(logprobs), ..self }),
    {
        BetaChatRequestBuilder { logprobs: Some(logprobs), ..self }
    }

    /// Set how many most likely tokens are returned per position.
    pub fn top_logprobs(self, top_logprobs: u32) -> (res: BetaChatRequestBuilder)
        ensures
            res == (BetaChatRequestBuilder { top_logprobs: Some(top_logprobs), ..self }),
    {
        BetaChatRequestBuilder { top_logprobs: Some(top_logprobs), ..self }
    }

    /// Set the caller-chosen user id.
    pub fn user_id(self, user_id: &str) -> (res: BetaChatRequestBuilder)
        ensures
            res == (BetaChatRequestBuilder { user_id: res.user_id, ..self }),
            res.user_id matches Some(v) && v@ == user_id@,
    {
        BetaChatRequestBuilder { user_id: Some(String::from_str(user_id)), ..self }
    }

}


/// A built request carries every field of its builder unchanged: the required ones as
/// they were set, every optional one (unset ones stay unset) exactly as the builder held it.
pub proof fn lemma_beta_build_keeps_fields(b: BetaChatRequestBuilder, tools: Vec<Tool>)
    ensures
        b.client is Some ==> Some(b.assembled(tools).client) == b.client,
        b.messages is Some ==> Some(b.assembled(tools).messages) == b.messages,
        b.model is Some ==> Some(b.assembled(tools).model) == b.model,
        b.assembled(tools).thinking == b.thinking,
        b.assembled(tools).reasoning_effort == b.reasoning_effort,
        b.assembled(tools).max_tokens == b.max_tokens,
        b.assembled(tools).response_format == b.response_format,
        b.assembled(tools).stop == b.stop,
        b.assembled(tools).stream == b.stream,
        b.assembled(tools).stream_options == b.stream_options,
        b.assembled(tools).temperature == b.temperature,
        b.assembled(tools).top_p == b.top_p,
        b.assembled(tools).tool_choice == b.tool_choice,
        b.assembled(tools).logprobs == b.logprobs,
        b.assembled(tools).top_logprobs == b.top_logprobs,
        b.assembled(tools).user_id == b.user_id,
        b.assembled(tools).tools == tools,
{
}

} // verus!
