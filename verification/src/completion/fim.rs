//! FIM (Fill-In-the-Middle) completion request types.
//!
//! This endpoint is beta and requires the beta base URL `https://api.deepseek.com/beta`.
//! The choice types, whose log-probabilities are decimal fractions, live with the JSON
//! decoding in the application layer.
use crate::chat::request::{Stop, StreamOptions};
use crate::validation::{check_completion, completion_issue, ValidationIssue};
use crate::error::DeepSeekError;
use crate::{Credentials, DeepSeekClient, DEFAULT_BETA_BASE_URL};
use vstd::prelude::*;

verus! {

/// Route of the FIM completion endpoint.
pub const COMPLETIONS_ROUTE: &'static str = "/completions";

/// FIM completion request payload.
#[derive(Clone, Debug)]
pub struct FIMCompletionRequest {
    /// Credentials of the endpoint; not part of the body.
    pub credentials: Option<Credentials>,
    pub model: String,
    pub prompt: String,
    pub echo: Option<bool>,
    pub logprobs: Option<u32>,
    pub max_tokens: Option<u32>,
    /// string | string[] | null
    pub stop: Option<Stop>,
    pub stream: Option<bool>,
    pub stream_options: Option<StreamOptions>,
    pub suffix: Option<String>,
    /// Sampling temperature between 0 and 2, as the IEEE-754 binary32 bit pattern.
    pub temperature: Option<u32>,
    /// Nucleus sampling mass between 0 and 1, as the IEEE-754 binary64 bit pattern.
    pub top_p: Option<u64>,
}

impl FIMCompletionRequest {
    /// The client that sends the request: one with the request's credentials, or, for a
    /// request built without credentials, one with an empty API key on the beta base URL
    /// (the server then answers with its authentication error); the error of reqwest when
    /// the HTTP client cannot be set up.
    pub fn client(&self) -> (res: Result<DeepSeekClient, DeepSeekError>)
        ensures
            res matches Ok(c) ==> match self.credentials {
                Some(given) => c.credentials.api_key@ == given.api_key@ && c.credentials.base_url@
                    == given.base_url@,
                None => c.credentials.api_key@ == Seq::<char>::empty() && c.credentials.base_url@
                    == DEFAULT_BETA_BASE_URL@,
            },
            res matches Err(e) ==> e is Transport,
    {
        match &self.credentials {
            Some(given) => DeepSeekClient::new(given.api_key.as_str(), given.base_url.as_str()),
            None => {
                proof {
                    reveal_strlit("");
                }
                DeepSeekClient::new("", DEFAULT_BETA_BASE_URL)
            },
        }
    }

    /// The same request with streaming switched on, as it is sent to the streaming endpoint.
    pub fn into_streaming(self) -> (res: FIMCompletionRequest)
        ensures
            res == (FIMCompletionRequest { stream: Some(true), ..self }),
    {
        FIMCompletionRequest { stream: Some(true), ..self }
    }
}

/// Completion finish reason.
#[derive(Clone, Copy, Debug, PartialEq, Eq, Structural)]
pub enum FinishReason {
    Stop,
    Length,
    ContentFilter,
    InsufficientSystemResources,
}

/// Why a request builder could not build.
#[derive(Clone, Debug)]
pub enum FIMCompletionRequestBuilderError {
    /// A required field was never set; the field's name.
    UninitializedField(&'static str),
    /// The parameters break a validation rule; the rule's message.
    ValidationError(String),
}

/// Builder of `FIMCompletionRequest`. Every field starts unset; `build` validates and assembles.
#[derive(Clone, Debug)]
pub struct FIMCompletionRequestBuilder {
    pub credentials: Option<Credentials>,
    pub model: Option<String>,
    pub prompt: Option<String>,
    pub echo: Option<bool>,
    pub logprobs: Option<u32>,
    pub max_tokens: Option<u32>,
    pub stop: Option<Stop>,
    pub stream: Option<bool>,
    pub stream_options: Option<StreamOptions>,
    pub suffix: Option<String>,
    pub temperature: Option<u32>,
    pub top_p: Option<u64>,
}

impl Default for FIMCompletionRequestBuilder {
    fn default() -> (res: FIMCompletionRequestBuilder)
        ensures
            res == FIMCompletionRequestBuilder::empty(),
    {
        FIMCompletionRequestBuilder {
            credentials: None,
            model: None,
            prompt: None,
            echo: None,
            logprobs: None,
            max_tokens: None,
            stop: None,
            stream: None,
            stream_options: None,
            suffix: None,
            temperature: None,
            top_p: None,
        }
    }
}

impl FIMCompletionRequestBuilder {
    /// A builder with no field set.
    pub open spec fn empty() -> FIMCompletionRequestBuilder {
        FIMCompletionRequestBuilder {
            credentials: None,
            model: None,
            prompt: None,
            echo: None,
            logprobs: None,
            max_tokens: None,
            stop: None,
            stream: None,
            stream_options: None,
            suffix: None,
            temperature: None,
            top_p: None,
        }
    }

    /// The first validation rule that the builder's parameters break.
    pub open spec fn issue(self) -> Option<ValidationIssue> {
        completion_issue(
            self.temperature,
            self.logprobs,
            self.top_p,
            self.stream,
            self.stream_options is Some,
        )
    }

    /// The request that a builder with its required fields set assembles; optional
    /// fields left unset stay absent.
    pub open spec fn assembled(self) -> FIMCompletionRequest {
        FIMCompletionRequest {
            credentials: self.credentials,
            model: self.model.unwrap(),
            prompt: self.prompt.unwrap(),
            echo: self.echo,
            logprobs: self.logprobs,
            max_tokens: self.max_tokens,
            stop: self.stop,
            stream: self.stream,
            stream_options: self.stream_options,
            suffix: self.suffix,
            temperature: self.temperature,
            top_p: self.top_p,
        }
    }

    /// Check the validation rules; the message of the first broken rule.
    pub fn validate(&self) -> (res: Result<(), String>)
        ensures
            match self.issue() {
                None => res is Ok,
                Some(issue) => res matches Err(m) && m@ == issue.text(),
            },
    {
        match check_completion(
            self.temperature,
            self.logprobs,
            self.top_p,
            self.stream,
            self.stream_options.is_some(),
        ) {
            None => Ok(()),
            Some(issue) => Err(issue.message()),
        }
    }

    /// Validate, then assemble the request; the required fields are the model and the
    /// prompt, checked in that order.
    pub fn build(self) -> (res: Result<FIMCompletionRequest, FIMCompletionRequestBuilderError>)
        ensures
            match self.issue() {
                Some(issue) => res matches Err(
                    FIMCompletionRequestBuilderError::ValidationError(m),
                ) && m@ == issue.text(),
                None => if self.model is None {
                    res matches Err(FIMCompletionRequestBuilderError::UninitializedField(f)) && f@
                        == "model"@
                } else if self.prompt is None {
                    res matches Err(FIMCompletionRequestBuilderError::UninitializedField(f)) && f@
                        == "prompt"@
                } else {
                    res == Ok::<FIMCompletionRequest, FIMCompletionRequestBuilderError>(
                        self.assembled(),
                    )
                },
            },
            res matches Ok(r) ==> {
                &&& Some(r.model) == self.model
                &&& Some(r.prompt) == self.prompt
                &&& r.credentials == self.credentials
                &&& r.echo == self.echo
                &&& r.logprobs == self.logprobs
                &&& r.max_tokens == self.max_tokens
                &&& r.stop == self.stop
                &&& r.stream == self.stream
                &&& r.stream_options == self.stream_options
                &&& r.suffix == self.suffix
                &&& r.temperature == self.temperature
                &&& r.top_p == self.top_p
            },
            res is Ok <==> (self.issue() is None && self.model is Some && self.prompt is Some),
    {
        match self.validate() {
            Err(message) => {
                return Err(FIMCompletionRequestBuilderError::ValidationError(message));
            },
            Ok(()) => {},
        }
        let model = match self.model {
            Some(m) => m,
            None => {
                return Err(FIMCompletionRequestBuilderError::UninitializedField("model"));
            },
        };
        let prompt = match self.prompt {
            Some(p) => p,
            None => {
                return Err(FIMCompletionRequestBuilderError::UninitializedField("prompt"));
            },
        };
        Ok(
            FIMCompletionRequest {
                credentials: self.credentials,
                model,
                prompt,
                echo: self.echo,
                logprobs: self.logprobs,
                max_tokens: self.max_tokens,
                stop: self.stop,
                stream: self.stream,
                stream_options: self.stream_options,
                suffix: self.suffix,
                temperature: self.temperature,
                top_p: self.top_p,
            },
        )
    }
}

impl FIMCompletionRequestBuilder {
    /// Set the credentials of the endpoint.
    pub fn credentials(self, credentials: Credentials) -> (res: FIMCompletionRequestBuilder)
        ensures
            res == (FIMCompletionRequestBuilder { credentials: Some(credentials), ..self }),
    {
        FIMCompletionRequestBuilder { credentials: Some(credentials), ..self }
    }

    /// Set the model id.
    pub fn model(self, model: &str) -> (res: FIMCompletionRequestBuilder)
        ensures
            res == (FIMCompletionRequestBuilder { model: res.model, ..self }),
            res.model matches Some(v) && v@ == model@,
    {
        FIMCompletionRequestBuilder { model: Some(String::from_str(model)), ..self }
    }

    /// Set the text before the gap.
    pub fn prompt(self, prompt: &str) -> (res: FIMCompletionRequestBuilder)
        ensures
            res == (FIMCompletionRequestBuilder { prompt: res.prompt, ..self }),
            res.prompt matches Some(v) && v@ == prompt@,
    {
        FIMCompletionRequestBuilder { prompt: Some(String::from_str(prompt)), ..self }
    }

    /// Set whether the prompt is echoed back.
    pub fn echo(self, echo: bool) -> (res: FIMCompletionRequestBuilder)
        ensures
            res == (FIMCompletionRequestBuilder { echo: Some(echo), ..self }),
    {
        FIMCompletionRequestBuilder { echo: Some(echo), ..self }
    }

    /// Set how many log-probabilities are returned per token.
    pub fn logprobs(self, logprobs: u32) -> (res: FIMCompletionRequestBuilder)
        ensures
            res == (FIMCompletionRequestBuilder { logprobs: Some(logprobs), ..self }),
    {
        FIMCompletionRequestBuilder { logprobs: Some(logprobs), ..self }
    }

    /// Set the limit on generated tokens.
    pub fn max_tokens(self, max_tokens: u32) -> (res: FIMCompletionRequestBuilder)
        ensures
            res == (FIMCompletionRequestBuilder { max_tokens: Some(max_tokens), ..self }),
    {
        FIMCompletionRequestBuilder { max_tokens: Some(max_tokens), ..self }
    }

    /// Set the stop sequences.
    pub fn stop(self, stop: Stop) -> (res: FIMCompletionRequestBuilder)
        ensures
            res == (FIMCompletionRequestBuilder { stop: Some(stop), ..self }),
    {
        FIMCompletionRequestBuilder { stop: Some(stop), ..self }
    }

    /// Set whether the response is streamed.
    pub fn stream(self, stream: bool) -> (res: FIMCompletionRequestBuilder)
        ensures
            res == (FIMCompletionRequestBuilder { stream: Some(stream), ..self }),
    {
        FIMCompletionRequestBuilder { stream: Some(stream), ..self }
    }

    /// Set the streaming options.
    pub fn stream_options(self, stream_options: StreamOptions) -> (res: FIMCompletionRequestBuilder)
        ensures
            res == (FIMCompletionRequestBuilder { stream_options: Some(stream_options), ..self }),
    {
        FIMCompletionRequestBuilder { stream_options: Some(stream_options), ..self }
    }

    /// Set the text after the gap.
    pub fn suffix(self, suffix: &str) -> (res: FIMCompletionRequestBuilder)
        ensures
            res == (FIMCompletionRequestBuilder { suffix: res.suffix, ..self }),
            res.suffix matches Some(v) && v@ == suffix@,
    {
        FIMCompletionRequestBuilder { suffix: Some(String::from_str(suffix)), ..self }
    }

    /// Set the sampling temperature, as the IEEE-754 binary32 bit pattern (what `to_bits` gives).
    pub fn temperature(self, temperature: u32) -> (res: FIMCompletionRequestBuilder)
        ensures
            res == (FIMCompletionRequestBuilder { temperature: Some(temperature), ..self }),
    {
        FIMCompletionRequestBuilder { temperature: Some(temperature), ..self }
    }

    /// Set the nucleus sampling mass, as the IEEE-754 binary64 bit pattern.
    pub fn top_p(self, top_p: u64) -> (res: FIMCompletionRequestBuilder)
        ensures
            res == (FIMCompletionRequestBuilder { top_p: Some(top_p), ..self }),
    {
        FIMCompletionRequestBuilder { top_p: Some(top_p), ..self }
    }

}


/// A built request carries every field of its builder unchanged: the required ones as
/// they were set, every optional one (unset ones stay unset) exactly as the builder held it.
pub proof fn lemma_completion_build_keeps_fields(b: FIMCompletionRequestBuilder)
    ensures
        b.model is Some ==> Some(b.assembled().model) == b.model,
        b.prompt is Some ==> Some(b.assembled().prompt) == b.prompt,
        b.assembled().credentials == b.credentials,
        b.assembled().echo == b.echo,
        b.assembled().logprobs == b.logprobs,
        b.assembled().max_tokens == b.max_tokens,
        b.assembled().stop == b.stop,
        b.assembled().stream == b.stream,
        b.assembled().stream_options == b.stream_options,
        b.assembled().suffix == b.suffix,
        b.assembled().temperature == b.temperature,
        b.assembled().top_p == b.top_p,
{
}

} // verus!
