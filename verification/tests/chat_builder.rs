use deepseek_sdk::chat::request::{
    ChatMessage, ChatRequestBuilder, ChatRequestBuilderError, ReasoningEffort, Stop,
    StreamOptions, Thinking, Tool, ToolChoice,
};
use deepseek_sdk::{DeepSeekClient, DEFAULT_BASE_URL};

fn base_builder() -> ChatRequestBuilder {
    ChatRequestBuilder::default()
        .model("deepseek-v4-pro")
        .message(ChatMessage::User {
            content: "Hi".to_string(),
            name: None,
        })
}

fn complete_builder() -> ChatRequestBuilder {
    base_builder().client(DeepSeekClient::new("sk-test", DEFAULT_BASE_URL).unwrap())
}

fn validation_message(res: Result<deepseek_sdk::chat::request::ChatRequest, ChatRequestBuilderError>) -> String {
    match res {
        Err(ChatRequestBuilderError::ValidationError(m)) => m,
        Err(ChatRequestBuilderError::UninitializedField(f)) => panic!("unexpected missing field {}", f),
        Ok(_) => panic!("expected a validation error"),
    }
}

#[test]
fn builder_validation_rejects_out_of_range_values() {
    let too_hot = base_builder().temperature(2.5_f64.to_bits()).build();
    assert!(too_hot.is_err());

    let bad_top_p = base_builder().top_p(1.1_f64.to_bits()).build();
    assert!(bad_top_p.is_err());

    let bad_top_logprobs = base_builder().top_logprobs(21 as u32).logprobs(true).build();
    assert!(bad_top_logprobs.is_err());

    let missing_logprobs = base_builder().top_logprobs(2 as u32).build();
    assert!(missing_logprobs.is_err());
}

#[test]
fn chat_validation_messages_are_exact() {
    assert_eq!(
        validation_message(complete_builder().temperature(2.5_f64.to_bits()).build()),
        "temperature must be between 0 and 2"
    );
    assert_eq!(
        validation_message(complete_builder().top_p(1.1_f64.to_bits()).build()),
        "top_p must be between 0 and 1"
    );
    assert_eq!(
        validation_message(complete_builder().top_logprobs(21).logprobs(true).build()),
        "top_logprobs must be <= 20"
    );
    assert_eq!(
        validation_message(complete_builder().top_logprobs(2).build()),
        "top_logprobs requires logprobs=true"
    );
    assert_eq!(
        validation_message(complete_builder().top_logprobs(2).logprobs(false).build()),
        "top_logprobs requires logprobs=true"
    );
    assert_eq!(
        validation_message(
            complete_builder()
                .thinking(Thinking::disabled())
                .reasoning_effort(ReasoningEffort::Max)
                .build()
        ),
        "thinking options type cannot be disabled when reasoning_effort is set"
    );
    assert_eq!(
        validation_message(
            complete_builder()
                .stream(false)
                .stream_options(StreamOptions { include_usage: true })
                .build()
        ),
        "stream_options cannot be set when stream is false"
    );
}

#[test]
fn chat_validation_reports_the_first_broken_rule() {
    let res = complete_builder()
        .temperature(3.0_f64.to_bits())
        .top_p(2.0_f64.to_bits())
        .top_logprobs(30)
        .build();
    assert_eq!(validation_message(res), "temperature must be between 0 and 2");
}

#[test]
fn thinking_disabled_with_reasoning_effort_is_refused() {
    let req = ChatRequestBuilder::default()
        .model("deepseek-v4-flash")
        .message(ChatMessage::User {
            content: "Hi".to_string(),
            name: None,
        })
        .thinking(Thinking::disabled())
        .reasoning_effort(ReasoningEffort::Max)
        .build();
    assert!(req.is_err());
    let ok = complete_builder()
        .thinking(Thinking::enabled())
        .reasoning_effort(ReasoningEffort::High)
        .build();
    assert!(ok.is_ok());
}

#[test]
fn temperature_bounds_follow_ieee_comparison() {
    for t in [0.0_f64, -0.0, 0.2, 1.0, 2.0] {
        assert!(complete_builder().temperature(t.to_bits()).build().is_ok(), "{}", t);
    }
    for t in [-0.1_f64, 2.0000001, 2.5, f64::NAN, f64::INFINITY, f64::NEG_INFINITY, -2.0] {
        assert!(complete_builder().temperature(t.to_bits()).build().is_err(), "{}", t);
    }
    for p in [0.0_f64, 0.1, 0.5, 1.0] {
        assert!(complete_builder().top_p(p.to_bits()).build().is_ok(), "{}", p);
    }
    for p in [1.0000001_f64, -0.5, f64::NAN, 1.1] {
        assert!(complete_builder().top_p(p.to_bits()).build().is_err(), "{}", p);
    }
}

#[test]
fn stream_options_need_streaming_unless_unset() {
    let opts = StreamOptions { include_usage: true };
    assert!(complete_builder().stream(true).stream_options(opts).build().is_ok());
    assert!(complete_builder().stream_options(opts).build().is_ok());
    assert!(complete_builder().stream(false).build().is_ok());
    assert!(complete_builder().stream(false).stream_options(opts).build().is_err());
}

#[test]
fn missing_fields_are_reported_in_declaration_order() {
    match ChatRequestBuilder::default().build() {
        Err(ChatRequestBuilderError::UninitializedField(f)) => assert_eq!(f, "client"),
        _ => panic!("expected a missing client"),
    }
    let no_messages = ChatRequestBuilder::default()
        .client(DeepSeekClient::new("k", DEFAULT_BASE_URL).unwrap())
        .build();
    match no_messages {
        Err(ChatRequestBuilderError::UninitializedField(f)) => assert_eq!(f, "messages"),
        _ => panic!("expected missing messages"),
    }
    let no_model = ChatRequestBuilder::default()
        .client(DeepSeekClient::new("k", DEFAULT_BASE_URL).unwrap())
        .messages(vec![])
        .build();
    match no_model {
        Err(ChatRequestBuilderError::UninitializedField(f)) => assert_eq!(f, "model"),
        _ => panic!("expected a missing model"),
    }
    // Validation comes before the check of required fields.
    match ChatRequestBuilder::default().top_logprobs(5).build() {
        Err(ChatRequestBuilderError::ValidationError(m)) => {
            assert_eq!(m, "top_logprobs requires logprobs=true")
        }
        _ => panic!("expected a validation error"),
    }
}

#[test]
fn build_keeps_every_field() {
    let tool = Tool::new("get_weather", "Get weather", None);
    let req = complete_builder()
        .message(ChatMessage::Assistant {
            content: Some("Hello".to_string()),
            name: None,
            tool_calls: None,
        })
        .max_tokens(5)
        .logprobs(true)
        .top_logprobs(2)
        .temperature(0.7_f64.to_bits())
        .stop(Stop::from("END"))
        .tool(tool.clone())
        .tool(tool)
        .tool_choice(ToolChoice::auto())
        .user_id("user-1")
        .build()
        .unwrap();
    assert_eq!(req.model, "deepseek-v4-pro");
    assert_eq!(req.messages.len(), 2);
    assert_eq!(
        req.messages[0],
        ChatMessage::User {
            content: "Hi".to_string(),
            name: None
        }
    );
    assert_eq!(req.max_tokens, Some(5));
    assert_eq!(req.logprobs, Some(true));
    assert_eq!(req.top_logprobs, Some(2));
    assert_eq!(req.temperature.map(f64::from_bits), Some(0.7));
    assert_eq!(req.stop, Some(Stop::One("END".to_string())));
    assert_eq!(req.tools.len(), 2);
    assert_eq!(req.tools[1].function.name, "get_weather");
    assert_eq!(req.user_id.as_deref(), Some("user-1"));
    assert!(req.thinking.is_none());
    assert!(req.stream.is_none());
    assert_eq!(req.client.credentials.api_key, "sk-test");

    let plain = complete_builder().build().unwrap();
    assert!(plain.tools.is_empty());
    let streaming = plain.into_streaming();
    assert_eq!(streaming.stream, Some(true));
}

#[test]
fn messages_setter_replaces_and_message_appends() {
    let b = ChatRequestBuilder::default()
        .message(ChatMessage::System {
            content: "s".to_string(),
            name: None,
        })
        .messages(vec![ChatMessage::User {
            content: "u".to_string(),
            name: None,
        }])
        .message(ChatMessage::Tool {
            content: "24°C".to_string(),
            tool_call_id: "call_1".to_string(),
        });
    let msgs = b.messages.clone().unwrap();
    assert_eq!(msgs.len(), 2);
    assert!(matches!(msgs[0], ChatMessage::User { .. }));
    assert!(matches!(msgs[1], ChatMessage::Tool { .. }));
}
