//! Response payloads of `/chat/completions`.
//!
//! The choice types, whose log-probabilities are decimal fractions, live with the JSON
//! decoding in the application layer; this module holds the rest.
use vstd::prelude::*;

verus! {

/// Token usage statistics for a request.
#[derive(Clone, Debug, PartialEq, Eq)]
pub struct Usage {
    pub completion_tokens: u64,
    pub prompt_tokens: u64,
    pub prompt_cache_hit_tokens: u64,
    pub prompt_cache_miss_tokens: u64,
    pub total_tokens: u64,
    pub completion_tokens_details: Option<CompletionTokensDetails>,
}

/// Breakdown of the completion tokens.
#[derive(Clone, Debug, PartialEq, Eq)]
pub struct CompletionTokensDetails {
    pub reasoning_tokens: u64,
}

/// Generic chat response container.
#[derive(Clone, Debug, PartialEq)]
pub struct ChatGeneric<C> {
    pub id: String,
    pub choices: Vec<C>,
    pub created: u64,
    pub model: String,
    pub system_fingerprint: String,
    pub object: String,
    pub usage: Option<Usage>,
}

/// Assistant message content in non-streaming responses.
#[derive(Clone, Debug, PartialEq, Eq)]
pub struct ChoiceMessage {
    pub content: Option<String>,
    pub reasoning_content: Option<String>,
    pub tool_calls: Option<Vec<ToolCall>>,
    pub role: Role,
}

/// Assistant message delta in streaming responses.
#[derive(Clone, Debug, PartialEq, Eq)]
pub struct ChoiceMessageDelta {
    pub content: Option<String>,
    pub reasoning_content: Option<String>,
    pub tool_calls: Option<Vec<ToolCall>>,
    pub role: Option<Role>,
}

/// Role of a chat message.
#[derive(Clone, Copy, Debug, PartialEq, Eq, Structural)]
pub enum Role {
    System,
    User,
    Assistant,
    Tool,
}

/// Tool call emitted by the model.
#[derive(Clone, Debug, PartialEq, Eq)]
pub struct ToolCall {
    pub id: String,
    /// The `type` member.
    pub typ: ToolCallType,
    pub function: ToolCallFunction,
}

impl ToolCall {
    /// Build a function tool call with an id, name, and arguments JSON string.
    pub fn new(id: &str, name: &str, arguments: &str) -> (res: ToolCall)
        ensures
            res.id@ == id@,
            res.typ == ToolCallType::Function,
            res.function.name@ == name@,
            res.function.arguments@ == arguments@,
    {
        ToolCall {
            id: String::from_str(id),
            typ: ToolCallType::Function,
            function: ToolCallFunction {
                name: String::from_str(name),
                arguments: String::from_str(arguments),
            },
        }
    }
}

/// Tool call type.
#[derive(Clone, Copy, Debug, PartialEq, Eq, Structural)]
pub enum ToolCallType {
    Function,
}

/// Tool call function payload.
#[derive(Clone, Debug, PartialEq, Eq)]
pub struct ToolCallFunction {
    pub name: String,
    pub arguments: String,
}

/// Reason for completion termination.
#[derive(Clone, Copy, Debug, PartialEq, Eq, Structural)]
pub enum FinishReason {
    Stop,
    Length,
    ContentFilter,
    ToolCalls,
    InsufficientSystemResources,
}

} // verus!
