//! Request payloads for `/chat/completions` and their builder.
use crate::chat::response::ToolCall;
use crate::validation::{check_sampling, sampling_issue, ValidationIssue};
use crate::DeepSeekClient;
use vstd::prelude::*;

verus! {

/// The items of an optional list, none when it is absent.
pub open spec fn listed<T>(v: Option<Vec<T>>) -> Seq<T> {
    match v {
        Some(items) => items@,
        None => Seq::empty(),
    }
}

/// Whether an optional stop setting is absent or empty; such a setting is left out of
/// a request body.
pub fn is_none_or_empty_stop(opt: &Option<Stop>) -> (res: bool)
    ensures
        res == match opt {
            None => true,
            Some(stop) => stop.spec_is_empty(),
        },
        res == match opt {
            None => true,
            Some(Stop::One(s)) => s@.len() == 0,
            Some(Stop::Many(v)) => v@.len() == 0,
        },
{
    match opt {
        None => true,
        Some(stop) => stop.is_empty(),
    }
}

/// Chat completion request body.
#[derive(Clone, Debug)]
pub struct ChatRequest {
    /// The client that sends the request; not part of the body.
    pub client: DeepSeekClient,
    pub messages: Vec<ChatMessage>,
    pub model: String,
    /// Thinking switch: `{"type": "enabled" | "disabled"}`.
    pub thinking: Option<Thinking>,
    /// Reasoning effort (high / max).
    pub reasoning_effort: Option<ReasoningEffort>,
    pub max_tokens: Option<u32>,
    /// Must be one of text or json_object.
    pub response_format: Option<ResponseFormat>,
    /// string | string[] | null
    pub stop: Option<Stop>,
    pub stream: Option<bool>,
    pub stream_options: Option<StreamOptions>,
    /// Sampling temperature between 0 and 2, as the IEEE-754 binary64 bit pattern.
    pub temperature: Option<u64>,
    /// Nucleus sampling mass between 0 and 1, as the IEEE-754 binary64 bit pattern.
    pub top_p: Option<u64>,
    pub tools: Vec<Tool>,
    pub tool_choice: Option<ToolChoice>,
    pub logprobs: Option<bool>,
    pub top_logprobs: Option<u32>,
    /// Caller-chosen user id, characters `[a-zA-Z0-9\-_]`, at most 512 long.
    pub user_id: Option<String>,
}

impl ChatRequest {
    /// The same request with streaming switched on, as it is sent to the streaming endpoint.
    pub fn into_streaming(self) -> (res: ChatRequest)
        ensures
            res == (ChatRequest { stream: Some(true), ..self }),
    {
        ChatRequest { stream: Some(true), ..self }
    }
}

/// Chat message variants.
#[derive(Clone, Debug, PartialEq, Eq)]
pub enum ChatMessage {
    System { content: String, name: Option<String> },
    User { content: String, name: Option<String> },
    Assistant { content: Option<String>, name: Option<String>, tool_calls: Option<Vec<ToolCall>> },
    Tool { content: String, tool_call_id: String },
}

/// Reasoning effort hints for the model.
#[derive(Clone, Copy, Debug, PartialEq, Eq, Structural)]
pub enum ReasoningEffort {
    High,
    Max,
}

/// Response format configuration.
#[derive(Clone, Copy, Debug, PartialEq, Eq, Structural)]
pub struct ResponseFormat {
    /// text or json_object.
    pub typ: ResponseFormatType,
}

/// Supported response format types.
#[derive(Clone, Copy, Debug, PartialEq, Eq, Structural)]
pub enum ResponseFormatType {
    Text,
    JsonObject,
}

impl ResponseFormat {
    /// Plain text output.
    pub fn text() -> (res: ResponseFormat)
        ensures
            res.typ == ResponseFormatType::Text,
    {
        ResponseFormat { typ: ResponseFormatType::Text }
    }

    /// JSON object output.
    pub fn json_object() -> (res: ResponseFormat)
        ensures
            res.typ == ResponseFormatType::JsonObject,
    {
        ResponseFormat { typ: ResponseFormatType::JsonObject }
    }
}

/// Stop sequences for generation.
#[derive(Clone, Debug, PartialEq, Eq)]
pub enum Stop {
    One(String),
    Many(Vec<String>),
}

impl Stop {
    /// The setting holds no text: an empty string or an empty list.
    pub open spec fn spec_is_empty(self) -> bool {
        match self {
            Stop::One(value) => value@.len() == 0,
            Stop::Many(values) => values@.len() == 0,
        }
    }

    /// Whether the setting holds no text: an empty string or an empty list.
    pub fn is_empty(&self) -> (res: bool)
        ensures
            res == self.spec_is_empty(),
    {
        match self {
            Stop::One(value) => value.as_str().is_empty(),
            Stop::Many(values) => values.len() == 0,
        }
    }
}

impl From<String> for Stop {
    fn from(value: String) -> (res: Stop) {
        Stop::One(value)
    }
}

impl vstd::std_specs::convert::FromSpecImpl<String> for Stop {
    open spec fn obeys_from_spec() -> bool {
        true
    }

    open spec fn from_spec(v: String) -> Stop {
        Stop::One(v)
    }
}

impl From<Vec<String>> for Stop {
    fn from(values: Vec<String>) -> (res: Stop) {
        Stop::Many(values)
    }
}

impl vstd::std_specs::convert::FromSpecImpl<Vec<String>> for Stop {
    open spec fn obeys_from_spec() -> bool {
        true
    }

    open spec fn from_spec(v: Vec<String>) -> Stop {
        Stop::Many(v)
    }
}

impl<'a> From<&'a str> for Stop {
    fn from(value: &'a str) -> (res: Stop)
        ensures
            res matches Stop::One(s) && s@ == value@,
    {
        Stop::One(String::from_str(value))
    }
}

impl<'a> vstd::std_specs::convert::FromSpecImpl<&'a str> for Stop {
    /// A `String` is not determined by its characters in the model, so the conversion
    /// is described by the `ensures` of `from` instead.
    open spec fn obeys_from_spec() -> bool {
        false
    }

    open spec fn from_spec(v: &'a str) -> Stop {
        Stop::One(choose|s: String| s@ == v@)
    }
}

impl<'a> From<Vec<&'a str>> for Stop {
    fn from(values: Vec<&'a str>) -> (res: Stop)
        ensures
            res matches Stop::Many(v) && v@.len() == values@.len() && forall|i: int|
                0 <= i < values@.len() ==> #[trigger] v@[i]@ == values@[i]@,
    {
        let mut out: Vec<String> = Vec::new();
        let mut i: usize = 0;
        while i < values.len()
            invariant
                i <= values@.len(),
                out@.len() == i,
                forall|j: int| 0 <= j < i ==> #[trigger] out@[j]@ == values@[j]@,
            decreases values@.len() - i,
        {
            out.push(String::from_str(values[i]));
            i = i + 1;
        }
        Stop::Many(out)
    }
}

impl<'a> vstd::std_specs::convert::FromSpecImpl<Vec<&'a str>> for Stop {
    /// As for a single slice, the conversion is described by the `ensures` of `from`.
    open spec fn obeys_from_spec() -> bool {
        false
    }

    open spec fn from_spec(v: Vec<&'a str>) -> Stop {
        Stop::Many(choose|w: Vec<String>| w@.len() == v@.len() && forall|i: int|
            0 <= i < v@.len() ==> #[trigger] w@[i]@ == v@[i]@)
    }
}

/// Streaming options for SSE responses.
#[derive(Clone, Copy, Debug, PartialEq, Eq, Structural)]
pub struct StreamOptions {
    pub include_usage: bool,
}

/// Tool definition used by the model.
#[derive(Clone, Debug)]
pub struct Tool {
    /// The `type` member.
    pub typ: ToolType,
    pub function: ToolFunctionDefinition,
}

impl Tool {
    /// A function tool with a name, a description and an optional JSON schema of its parameters.
    pub fn new(name: &str, description: &str, parameters: Option<serde_json::Value>) -> (res: Tool)
        ensures
            res.typ == ToolType::Function,
            res.function.name@ == name@,
            res.function.description@ == description@,
            res.function.parameters == parameters,
    {
        Tool {
            typ: ToolType::Function,
            function: ToolFunctionDefinition {
                name: String::from_str(name),
                description: String::from_str(description),
                parameters,
            },
        }
    }
}

/// Tool type.
#[derive(Clone, Copy, Debug, PartialEq, Eq, Structural)]
pub enum ToolType {
    Function,
}

/// Tool function definition.
#[derive(Clone, Debug)]
pub struct ToolFunctionDefinition {
    pub description: String,
    pub name: String,
    pub parameters: Option<serde_json::Value>,
}

/// Tool choice configuration.
#[derive(Clone, Debug)]
pub enum ToolChoice {
    /// "none" | "auto" | "required"
    Simple(ChatToolChoice),
    /// {"type":"function","function":{...}}
    Named(ChatNamedToolChoice),
}

impl ToolChoice {
    /// Force the model to call the function that `function` names.
    pub fn named(function: serde_json::Value) -> (res: ToolChoice)
        ensures
            res matches ToolChoice::Named(n) && n.typ == ToolType::Function && n.function
                == function,
    {
        ToolChoice::Named(ChatNamedToolChoice { typ: ToolType::Function, function })
    }

    /// The model calls no tool.
    pub fn none() -> (res: ToolChoice)
        ensures
            res == ToolChoice::Simple(ChatToolChoice::NoTools),
    {
        ToolChoice::Simple(ChatToolChoice::NoTools)
    }

    /// The model decides whether to call tools.
    pub fn auto() -> (res: ToolChoice)
        ensures
            res == ToolChoice::Simple(ChatToolChoice::Auto),
    {
        ToolChoice::Simple(ChatToolChoice::Auto)
    }

    /// The model must call at least one tool.
    pub fn required() -> (res: ToolChoice)
        ensures
            res == ToolChoice::Simple(ChatToolChoice::Required),
    {
        ToolChoice::Simple(ChatToolChoice::Required)
    }
}

/// Tool choice values.
#[derive(Clone, Copy, Debug, PartialEq, Eq, Structural)]
pub enum ChatToolChoice {
    /// Serialized as `"none"`.
    NoTools,
    Auto,
    Required,
}

/// Named tool choice configuration.
#[derive(Clone, Debug)]
pub struct ChatNamedToolChoice {
    /// The `type` member.
    pub typ: ToolType,
    pub function: serde_json::Value,
}

/// Thinking switch of a request.
#[derive(Clone, Copy, Debug, PartialEq, Eq, Structural)]
pub struct Thinking {
    /// enabled / disabled
    pub typ: ThinkingType,
}

impl Thinking {
    /// Thinking mode on.
    pub fn enabled() -> (res: Thinking)
        ensures
            res.typ == ThinkingType::Enabled,
    {
        Thinking { typ: ThinkingType::Enabled }
    }

    /// Thinking mode off.
    pub fn disabled() -> (res: Thinking)
        ensures
            res.typ == ThinkingType::Disabled,
    {
        Thinking { typ: ThinkingType::Disabled }
    }
}

/// The two thinking modes.
#[derive(Clone, Copy, Debug, PartialEq, Eq, Structural)]
pub enum ThinkingType {
    Enabled,
    Disabled,
}

/// Why a request builder could not build.
#[derive(Clone, Debug)]
pub enum ChatRequestBuilderError {
    /// A required field was never set; the field's name.
    UninitializedField(&'static str),
    /// The parameters break a validation rule; the rule's message.
    ValidationError(String),
}

/// Builder of `ChatRequest`. Every field starts unset; `build` validates and assembles.
#[derive(Clone, Debug)]
pub struct ChatRequestBuilder {
    pub client: Option<DeepSeekClient>,
    pub messages: Option<Vec<ChatMessage>>,
    pub model: Option<String>,
    pub thinking: Option<Thinking>,
    pub reasoning_effort: Option<ReasoningEffort>,
    pub max_tokens: Option<u32>,
    pub response_format: Option<ResponseFormat>,
    pub stop: Option<Stop>,
    pub stream: Option<bool>,
    pub stream_options: Option<StreamOptions>,
    pub temperature: Option<u64>,
    pub top_p: Option<u64>,
    pub tools: Option<Vec<Tool>>,
    pub tool_choice: Option<ToolChoice>,
    pub logprobs: Option<bool>,
    pub top_logprobs: Option<u32>,
    pub user_id: Option<String>,
}

impl Default for ChatRequestBuilder {
    fn default() -> (res: ChatRequestBuilder)
        ensures
            res == ChatRequestBuilder::empty(),
    {
        ChatRequestBuilder {
            client: None,
            messages: None,
            model: None,
            thinking: None,
            reasoning_effort: None,
            max_tokens: None,
            response_format: None,
            stop: None,
            stream: None,
            stream_options: None,
            temperature: None,
            top_p: None,
            tools: None,
            tool_choice: None,
            logprobs: None,
            top_logprobs: None,
            user_id: None,
        }
    }
}

impl ChatRequestBuilder {
    /// A builder with no field set.
    pub open spec fn empty() -> ChatRequestBuilder {
        ChatRequestBuilder {
            client: None,
            messages: None,
            model: None,
            thinking: None,
            reasoning_effort: None,
            max_tokens: None,
            response_format: None,
            stop: None,
            stream: None,
            stream_options: None,
            temperature: None,
            top_p: None,
            tools: None,
            tool_choice: None,
            logprobs: None,
            top_logprobs: None,
            user_id: None,
        }
    }

    /// The first validation rule that the builder's parameters break.
    pub open spec fn issue(self) -> Option<ValidationIssue> {
        sampling_issue(
            self.temperature,
            self.top_p,
            self.top_logprobs,
            self.logprobs,
            self.thinking,
            self.reasoning_effort,
            self.stream,
            self.stream_options is Some,
            false,
        )
    }

    /// The request that a builder with its required fields set assembles around the
    /// given tool list; optional fields left unset stay absent.
    pub open spec fn assembled(self, tools: Vec<Tool>) -> ChatRequest {
        ChatRequest {
            client: self.client.unwrap(),
            messages: self.messages.unwrap(),
            model: self.model.unwrap(),
            thinking: self.thinking,
            reasoning_effort: self.reasoning_effort,
            max_tokens: self.max_tokens,
            response_format: self.response_format,
            stop: self.stop,
            stream: self.stream,
            stream_options: self.stream_options,
            temperature: self.temperature,
            top_p: self.top_p,
            tools,
            tool_choice: self.tool_choice,
            logprobs: self.logprobs,
            top_logprobs: self.top_logprobs,
            user_id: self.user_id,
        }
    }

    /// Check the validation rules; the message of the first broken rule.
    pub fn validate(&self) -> (res: Result<(), String>)
        ensures
            match self.issue() {
                None => res is Ok,
                Some(issue) => res matches Err(m) && m@ == issue.text(),
            },
    {
        match check_sampling(
            self.temperature,
            self.top_p,
            self.top_logprobs,
            self.logprobs,
            &self.thinking,
            &self.reasoning_effort,
            self.stream,
            self.stream_options.is_some(),
            false,
        ) {
            None => Ok(()),
            Some(issue) => Err(issue.message()),
        }
    }

    /// Validate, then assemble the request; the required fields are the client, the
    /// messages and the model, checked in that order.
    pub fn build(self) -> (res: Result<ChatRequest, ChatRequestBuilderError>)
        ensures
            match self.issue() {
                Some(issue) => res matches Err(ChatRequestBuilderError::ValidationError(m))
                    && m@ == issue.text(),
                None => if self.client is None {
                    res matches Err(ChatRequestBuilderError::UninitializedField(f)) && f@
                        == "client"@
                } else if self.messages is None {
                    res matches Err(ChatRequestBuilderError::UninitializedField(f)) && f@
                        == "messages"@
                } else if self.model is None {
                    res matches Err(ChatRequestBuilderError::UninitializedField(f)) && f@
                        == "model"@
                } else {
                    res matches Ok(r) && r == self.assembled(r.tools) && r.tools@ == listed(self.tools)
                },
            },
            res matches Ok(r) ==> {
                &&& Some(r.client) == self.client
                &&& Some(r.messages) == self.messages
                &&& Some(r.model) == self.model
                &&& r.thinking == self.thinking
                &&& r.reasoning_effort == self.reasoning_effort
                &&& r.max_tokens == self.max_tokens
                &&& r.response_format == self.response_format
                &&& r.stop == self.stop
                &&& r.stream == self.stream
                &&& r.stream_options == self.stream_options
                &&& r.temperature == self.temperature
                &&& r.top_p == self.top_p
                &&& r.tool_choice == self.tool_choice
                &&& r.logprobs == self.logprobs
                &&& r.top_logprobs == self.top_logprobs
                &&& r.user_id == self.user_id
                &&& r.tools@ == listed(self.tools)
            },
            res is Ok <==> (self.issue() is None && self.client is Some && self.messages is Some
                && self.model is Some),
    {
        match self.validate() {
            Err(message) => {
                return Err(ChatRequestBuilderError::ValidationError(message));
            },
            Ok(()) => {},
        }
        let client = match self.client {
            Some(c) => c,
            None => {
                return Err(ChatRequestBuilderError::UninitializedField("client"));
            },
        };
        let messages = match self.messages {
            Some(m) => m,
            None => {
                return Err(ChatRequestBuilderError::UninitializedField("messages"));
            },
        };
        let model = match self.model {
            Some(m) => m,
            None => {
                return Err(ChatRequestBuilderError::UninitializedField("model"));
            },
        };
        let tools = match self.tools {
            Some(t) => t,
            None => Vec::new(),
        };
        Ok(
            ChatRequest {
                client,
                messages,
                model,
                thinking: self.thinking,
                reasoning_effort: self.reasoning_effort,
                max_tokens: self.max_tokens,
                response_format: self.response_format,
                stop: self.stop,
                stream: self.stream,
                stream_options: self.stream_options,
                temperature: self.temperature,
                top_p: self.top_p,
                tools,
                tool_choice: self.tool_choice,
                logprobs: self.logprobs,
                top_logprobs: self.top_logprobs,
                user_id: self.user_id,
            },
        )
    }
}

impl ChatRequestBuilder {
    /// Set the client that sends the request.
    pub fn client(self, client: DeepSeekClient) -> (res: ChatRequestBuilder)
        ensures
            res == (ChatRequestBuilder { client: Some(client), ..self }),
    {
        ChatRequestBuilder { client: Some(client), ..self }
    }

    /// Set the whole conversation.
    pub fn messages(self, messages: Vec<ChatMessage>) -> (res: ChatRequestBuilder)
        ensures
            res == (ChatRequestBuilder { messages: Some(messages), ..self }),
    {
        ChatRequestBuilder { messages: Some(messages), ..self }
    }

    /// Append one message to the conversation.
    pub fn message(self, item: ChatMessage) -> (res: ChatRequestBuilder)
        ensures
            res == (ChatRequestBuilder { messages: res.messages, ..self }),
            res.messages matches Some(v) && v@ == listed(self.messages).push(item),
    {
        let mut items = match self.messages {
            Some(v) => v,
            None => Vec::new(),
        };
        items.push(item);
        ChatRequestBuilder { messages: Some(items), ..self }
    }

    /// Set the model id.
    pub fn model(self, model: &str) -> (res: ChatRequestBuilder)
        ensures
            res == (ChatRequestBuilder { model: res.model, ..self }),
            res.model matches Some(v) && v@ == model@,
    {
        ChatRequestBuilder { model: Some(String::from_str(model)), ..self }
    }

    /// Set the thinking switch.
    pub fn thinking(self, thinking: Thinking) -> (res: ChatRequestBuilder)
        ensures
            res == (ChatRequestBuilder { thinking: Some(thinking), ..self }),
    {
        ChatRequestBuilder { thinking: Some(thinking), ..self }
    }

    /// Set the reasoning effort.
    pub fn reasoning_effort(self, reasoning_effort: ReasoningEffort) -> (res: ChatRequestBuilder)
        ensures
            res == (ChatRequestBuilder { reasoning_effort: Some(reasoning_effort), ..self }),
    {
        ChatRequestBuilder { reasoning_effort: Some(reasoning_effort), ..self }
    }

    /// Set the limit on generated tokens.
    pub fn max_tokens(self, max_tokens: u32) -> (res: ChatRequestBuilder)
        ensures
            res == (ChatRequestBuilder { max_tokens: Some(max_tokens), ..self }),
    {
        ChatRequestBuilder { max_tokens: Some(max_tokens), ..self }
    }

    /// Set the output format.
    pub fn response_format(self, response_format: ResponseFormat) -> (res: ChatRequestBuilder)
        ensures
            res == (ChatRequestBuilder { response_format: Some(response_format), ..self }),
    {
        ChatRequestBuilder { response_format: Some(response_format), ..self }
    }

    /// Set the stop sequences.
    pub fn stop(self, stop: Stop) -> (res: ChatRequestBuilder)
        ensures
            res == (ChatRequestBuilder { stop: Some(stop), ..self }),
    {
        ChatRequestBuilder { stop: Some(stop), ..self }
    }

    /// Set whether the response is streamed.
    pub fn stream(self, stream: bool) -> (res: ChatRequestBuilder)
        ensures
            res == (ChatRequestBuilder { stream: Some(stream), ..self }),
    {
        ChatRequestBuilder { stream: Some(stream), ..self }
    }

    /// Set the streaming options.
    pub fn stream_options(self, stream_options: StreamOptions) -> (res: ChatRequestBuilder)
        ensures
            res == (ChatRequestBuilder { stream_options: Some(stream_options), ..self }),
    {
        ChatRequestBuilder { stream_options: Some(stream_options), ..self }
    }

    /// Set the sampling temperature, as the IEEE-754 binary64 bit pattern (what `to_bits` gives).
    pub fn temperature(self, temperature: u64) -> (res: ChatRequestBuilder)
        ensures
            res == (ChatRequestBuilder { temperature: Some(temperature), ..self }),
    {
        ChatRequestBuilder { temperature: Some(temperature), ..self }
    }

    /// Set the nucleus sampling mass, as the IEEE-754 binary64 bit pattern.
    pub fn top_p(self, top_p: u64) -> (res: ChatRequestBuilder)
        ensures
            res == (ChatRequestBuilder { top_p: Some(top_p), ..self }),
    {
        ChatRequestBuilder { top_p: Some(top_p), ..self }
    }

    /// Set the whole tool list.
    pub fn tools(self, tools: Vec<Tool>) -> (res: ChatRequestBuilder)
        ensures
            res == (ChatRequestBuilder { tools: Some(tools), ..self }),
    {
        ChatRequestBuilder { tools: Some(tools), ..self }
    }

    /// Append one tool.
    pub fn tool(self, item: Tool) -> (res: ChatRequestBuilder)
        ensures
            res == (ChatRequestBuilder { tools: res.tools, ..self }),
            res.tools matches Some(v) && v@ == listed(self.tools).push(item),
    {
        let mut items = match self.tools {
            Some(v) => v,
            None => Vec::new(),
        };
        items.push(item);
        ChatRequestBuilder { tools: Some(items), ..self }
    }

    /// Set the tool choice.
    pub fn tool_choice(self, tool_choice: ToolChoice) -> (res: ChatRequestBuilder)
        ensures
            res == (ChatRequestBuilder { tool_choice: Some(tool_choice), ..self }),
    {
        ChatRequestBuilder { tool_choice: Some(tool_choice), ..self }
    }

    /// Set whether log-probabilities are returned.
    pub fn logprobs(self, logprobs: bool) -> (res: ChatRequestBuilder)
        ensures
            res == (ChatRequestBuilder { logprobs: Some(logprobs), ..self }),
    {
        ChatRequestBuilder { logprobs: Some(logprobs), ..self }
    }

    /// Set how many most likely tokens are returned per position.
    pub fn top_logprobs(self, top_logprobs: u32) -> (res: ChatRequestBuilder)
        ensures
            res == (ChatRequestBuilder { top_logprobs: Some(top_logprobs), ..self }),
    {
        ChatRequestBuilder { top_logprobs: Some(top_logprobs), ..self }
    }

    /// Set the caller-chosen user id.
    pub fn user_id(self, user_id: &str) -> (res: ChatRequestBuilder)
        ensures
            res == (ChatRequestBuilder { user_id: res.user_id, ..self }),
            res.user_id matches Some(v) && v@ == user_id@,
    {
        ChatRequestBuilder { user_id: Some(String::from_str(user_id)), ..self }
    }

}


/// A built request carries every field of its builder unchanged: the required ones as
/// they were set, every optional one (unset ones stay unset) exactly as the builder held it.
pub proof fn lemma_chat_build_keeps_fields(b: ChatRequestBuilder, tools: Vec<Tool>)
    ensures
        b.client is Some ==> Some(b.assembled(tools).client) == b.client,
        b.messages is Some ==> Some(b.assembled(tools).messages) == b.messages,
        b.model is Some ==> Some(b.assembled(tools).model) == b.model,
        b.assembled(tools).thinking == b.thinking,
        b.assembled(tools).reasoning_effort == b.reasoning_effort,
        b.assembled(tools).max_tokens == b.max_tokens,
        b.assembled(tools).response_format == b.response_format,
        b.assembled(tools).stop == b.stop,
        b.assembled(tools).stream == b.stream,
        b.assembled(tools).stream_options == b.stream_options,
        b.assembled(tools).temperature == b.temperature,
        b.assembled(tools).top_p == b.top_p,
        b.assembled(tools).tool_choice == b.tool_choice,
        b.assembled(tools).logprobs == b.logprobs,
        b.assembled(tools).top_logprobs == b.top_logprobs,
        b.assembled(tools).user_id == b.user_id,
        b.assembled(tools).tools == tools,
{
}

} // verus!
