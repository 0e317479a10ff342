use deepseek_sdk::chat::request::{ReasoningEffort, Stop, StreamOptions, Thinking};
use deepseek_sdk::completion::chat::request::{
    is_false, BetaChatMessage, BetaChatRequestBuilder, BetaChatRequestBuilderError, Tool,
};
use deepseek_sdk::completion::fim::{
    FIMCompletionRequestBuilder, FIMCompletionRequestBuilderError,
};
use deepseek_sdk::{Credentials, DeepSeekClient, DEFAULT_BETA_BASE_URL};

fn beta_builder() -> BetaChatRequestBuilder {
    BetaChatRequestBuilder::default()
        .client(DeepSeekClient::new("sk-test", DEFAULT_BETA_BASE_URL).unwrap())
        .model("deepseek-v4-flash")
        .max_tokens(32_u32)
        .thinking(Thinking::disabled())
        .message(BetaChatMessage::User {
            content: "Please write quick sort code".to_string(),
            name: None,
        })
}

fn beta_error(b: BetaChatRequestBuilder) -> String {
    match b.build() {
        Err(BetaChatRequestBuilderError::ValidationError(m)) => m,
        Err(BetaChatRequestBuilderError::UninitializedField(f)) => panic!("missing {}", f),
        Ok(_) => panic!("expected a validation error"),
    }
}

#[test]
fn beta_prefix_request_builds() {
    let req = beta_builder()
        .message(BetaChatMessage::Assistant {
            content: Some("```python\n".to_string()),
            name: None,
            prefix: true,
            reasoning_content: Some("think".to_string()),
            tool_calls: None,
        })
        .stop(Stop::from("```"))
        .build()
        .unwrap();
    assert_eq!(req.messages.len(), 2);
    assert_eq!(req.stop, Some(Stop::One("```".to_string())));
    assert_eq!(req.max_tokens, Some(32));
    assert!(req.tools.is_empty());
    assert_eq!(req.into_streaming().stream, Some(true));
}

#[test]
fn beta_rejects_reasoning_content_without_prefix() {
    let b = beta_builder().message(BetaChatMessage::Assistant {
        content: None,
        name: None,
        prefix: false,
        reasoning_content: Some("thoughts".to_string()),
        tool_calls: None,
    });
    assert_eq!(
        beta_error(b),
        "reasoning_content cannot be set when assistant message prefix is false"
    );
    let fine = beta_builder().message(BetaChatMessage::Assistant {
        content: None,
        name: None,
        prefix: false,
        reasoning_content: None,
        tool_calls: None,
    });
    assert!(fine.build().is_ok());
}

#[test]
fn beta_limits_stop_sequences_to_sixteen() {
    let sixteen: Vec<String> = (0..16).map(|i| format!("s{}", i)).collect();
    let seventeen: Vec<String> = (0..17).map(|i| format!("s{}", i)).collect();
    assert!(beta_builder().stop(Stop::from(sixteen)).build().is_ok());
    assert_eq!(
        beta_error(beta_builder().stop(Stop::from(seventeen))),
        "a maximum of 16 stop sequences are allowed"
    );
}

#[test]
fn beta_checks_sampling_rules_first() {
    let b = beta_builder()
        .reasoning_effort(ReasoningEffort::High)
        .message(BetaChatMessage::Assistant {
            content: None,
            name: None,
            prefix: false,
            reasoning_content: Some("x".to_string()),
            tool_calls: None,
        });
    assert_eq!(
        beta_error(b),
        "thinking options type cannot be disabled when reasoning_effort is set"
    );
    assert_eq!(
        beta_error(beta_builder().temperature(2.01_f64.to_bits())),
        "temperature must be between 0 and 2"
    );
    assert_eq!(
        beta_error(
            beta_builder()
                .stream(false)
                .stream_options(StreamOptions { include_usage: false })
        ),
        "stream_options cannot be set when stream is false"
    );
}

#[test]
fn beta_stream_options_need_stream_on() {
    let opts = StreamOptions { include_usage: true };
    assert_eq!(
        beta_error(beta_builder().stream_options(opts)),
        "stream_options cannot be set when stream is false"
    );
    let unset = BetaChatRequestBuilder::default()
        .model("deepseek-v4-flash")
        .message(BetaChatMessage::User {
            content: "Hi".into(),
            name: None,
        })
        .stream_options(opts);
    assert!(unset.validate().is_err());
    assert!(beta_builder().stream(true).stream_options(opts).build().is_ok());
    assert!(beta_builder().stream(false).build().is_ok());
}

#[test]
fn fim_client_uses_the_request_credentials() {
    let with = fim_builder().prompt("p").build().unwrap();
    let client = with.client().unwrap();
    assert_eq!(client.credentials.api_key, "sk-test");
    assert_eq!(client.credentials.base_url, DEFAULT_BETA_BASE_URL);
    let without = FIMCompletionRequestBuilder::default()
        .model("m")
        .prompt("p")
        .build()
        .unwrap();
    let anonymous = without.client().unwrap();
    assert_eq!(anonymous.credentials.api_key, "");
    assert_eq!(anonymous.credentials.base_url, "https://api.deepseek.com/beta");
}

#[test]
fn beta_tool_and_missing_fields() {
    let t = Tool::new("f", "does f", None, Some(true));
    assert_eq!(t.function.name, "f");
    assert_eq!(t.function.description, "does f");
    assert_eq!(t.function.strict, Some(true));
    assert!(t.function.parameters.is_none());
    match BetaChatRequestBuilder::default().model("m").build() {
        Err(BetaChatRequestBuilderError::UninitializedField(f)) => assert_eq!(f, "client"),
        _ => panic!("expected a missing client"),
    }
    assert!(is_false(&false));
    assert!(!is_false(&true));
}

fn fim_builder() -> FIMCompletionRequestBuilder {
    FIMCompletionRequestBuilder::default()
        .credentials(Credentials::new("sk-test", DEFAULT_BETA_BASE_URL))
        .model("deepseek-v4-flash")
        .max_tokens(64 as u32)
}

fn fim_error(b: FIMCompletionRequestBuilder) -> String {
    match b.build() {
        Err(FIMCompletionRequestBuilderError::ValidationError(m)) => m,
        Err(FIMCompletionRequestBuilderError::UninitializedField(f)) => panic!("missing {}", f),
        Ok(_) => panic!("expected a validation error"),
    }
}

#[test]
fn fim_request_builds() {
    let req = fim_builder()
        .prompt("def fib(a):")
        .suffix("    return fib(a-1) + fib(a-2)")
        .build()
        .unwrap();
    assert_eq!(req.model, "deepseek-v4-flash");
    assert_eq!(req.prompt, "def fib(a):");
    assert_eq!(req.suffix.as_deref(), Some("    return fib(a-1) + fib(a-2)"));
    assert_eq!(req.max_tokens, Some(64));
    assert_eq!(req.credentials.as_ref().map(|c| c.base_url.clone()), Some(DEFAULT_BETA_BASE_URL.to_string()));
    assert!(req.echo.is_none());
    assert_eq!(req.into_streaming().stream, Some(true));
}

#[test]
fn fim_validation() {
    assert_eq!(
        fim_error(fim_builder().prompt("p").temperature(2.5_f32.to_bits())),
        "temperature must be between 0 and 2"
    );
    assert!(fim_builder().prompt("p").temperature(2.0_f32.to_bits()).build().is_ok());
    assert!(fim_builder().prompt("p").temperature((-0.0_f32).to_bits()).build().is_ok());
    assert_eq!(fim_error(fim_builder().prompt("p").logprobs(21)), "logprobs must be <= 20");
    assert!(fim_builder().prompt("p").logprobs(20).build().is_ok());
    assert_eq!(
        fim_error(fim_builder().prompt("p").top_p(1.5_f64.to_bits())),
        "top_p must be between 0 and 1"
    );
    assert_eq!(
        fim_error(
            fim_builder()
                .prompt("p")
                .stream(false)
                .stream_options(StreamOptions { include_usage: true })
        ),
        "stream_options cannot be set when stream is false"
    );
    // Validation precedes the required-field check.
    assert_eq!(
        fim_error(FIMCompletionRequestBuilder::default().logprobs(99)),
        "logprobs must be <= 20"
    );
    match FIMCompletionRequestBuilder::default().build() {
        Err(FIMCompletionRequestBuilderError::UninitializedField(f)) => assert_eq!(f, "model"),
        _ => panic!("expected a missing model"),
    }
    match FIMCompletionRequestBuilder::default().model("m").build() {
        Err(FIMCompletionRequestBuilderError::UninitializedField(f)) => assert_eq!(f, "prompt"),
        _ => panic!("expected a missing prompt"),
    }
    // Credentials are optional.
    assert!(FIMCompletionRequestBuilder::default()
        .model("m")
        .prompt("p")
        .build()
        .unwrap()
        .credentials
        .is_none());
}
