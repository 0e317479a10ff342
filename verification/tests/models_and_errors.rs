use deepseek_sdk::chat::request::{
    is_none_or_empty_stop, ChatToolChoice, ResponseFormat, ResponseFormatType, Stop, Thinking,
    ThinkingType, Tool, ToolChoice, ToolType,
};
use deepseek_sdk::chat::response::{ToolCall, ToolCallType};
use deepseek_sdk::chat::is_none_or_empty_vec;
use deepseek_sdk::error::{classify_reqwest_error, transport_message, ApiError, ApiErrorEnvelope, ReqwestErrorKind};
use deepseek_sdk::http::{finish_response, status_is_success, ParsedBody};
use deepseek_sdk::DeepSeekError;

#[test]
fn response_tool_call_is_a_function_call() {
    let call = ToolCall::new("call_i", "get_weather", "{}");
    assert_eq!(call.id, "call_i");
    assert_eq!(call.typ, ToolCallType::Function);
    assert_eq!(call.function.name, "get_weather");
    assert_eq!(call.function.arguments, "{}");
}

#[test]
fn constructors_pick_their_variants() {
    assert_eq!(ResponseFormat::json_object().typ, ResponseFormatType::JsonObject);
    assert_eq!(ResponseFormat::text().typ, ResponseFormatType::Text);
    assert_eq!(Thinking::disabled().typ, ThinkingType::Disabled);
    assert_eq!(Thinking::enabled().typ, ThinkingType::Enabled);
    assert!(matches!(ToolChoice::auto(), ToolChoice::Simple(ChatToolChoice::Auto)));
    assert!(matches!(ToolChoice::none(), ToolChoice::Simple(ChatToolChoice::NoTools)));
    assert!(matches!(ToolChoice::required(), ToolChoice::Simple(ChatToolChoice::Required)));
    let named = ToolChoice::named(serde_json::from_str::<serde_json::Value>("{\"name\": \"get_weather\"}").unwrap());
    match named {
        ToolChoice::Named(n) => {
            assert_eq!(n.typ, ToolType::Function);
            assert_eq!(n.function["name"], "get_weather");
        }
        _ => panic!("expected a named choice"),
    }
    let schema = serde_json::from_str::<serde_json::Value>("{\"type\": \"object\"}").unwrap();
    let tool = Tool::new("get_weather", "Get weather", Some(schema.clone()));
    let copy = tool.clone();
    assert_eq!(copy.function.parameters, Some(schema));
    assert_eq!(copy.typ, ToolType::Function);
}

#[test]
fn stop_supports_string_and_array_values() {
    let single = Stop::from("END");
    let many = Stop::from(vec!["END", "STOP"]);
    assert_eq!(single, Stop::One("END".to_string()));
    assert_eq!(many, Stop::Many(vec!["END".to_string(), "STOP".to_string()]));
    assert_eq!(Stop::from("x".to_string()), Stop::One("x".to_string()));
    assert_eq!(Stop::from(vec!["a".to_string()]), Stop::Many(vec!["a".to_string()]));
    assert!(Stop::from("").is_empty());
    assert!(Stop::Many(vec![]).is_empty());
    assert!(!single.is_empty());
    assert!(is_none_or_empty_stop(&None));
    assert!(is_none_or_empty_stop(&Some(Stop::from(""))));
    assert!(!is_none_or_empty_stop(&Some(many)));
    assert!(is_none_or_empty_vec::<u8>(&None));
    assert!(is_none_or_empty_vec::<u8>(&Some(vec![])));
    assert!(!is_none_or_empty_vec(&Some(vec![1u8])));
}

fn api_error() -> ApiError {
    ApiError {
        message: "thinking options type cannot be disabled when reasoning_effort is set".to_string(),
        error_type: "invalid_request_error".to_string(),
        param: None,
        code: Some("invalid_request_error".to_string()),
    }
}

#[test]
fn error_messages_render_like_display() {
    let api = DeepSeekError::api(api_error(), Some(400), Some("{}".to_string()));
    assert_eq!(
        api.to_display_string(),
        "DeepSeek API error: thinking options type cannot be disabled when reasoning_effort is set (type=invalid_request_error, param=None, code=Some(\"invalid_request_error\"), status=Some(400))"
    );
    let http = DeepSeekError::http(502, "bad \"gateway\"".to_string());
    assert_eq!(
        http.to_display_string(),
        "HTTP error: status=502, body=Some(\"bad \\\"gateway\\\"\")"
    );
    let decode = DeepSeekError::decode("expected value".to_string(), String::new());
    assert_eq!(
        decode.to_display_string(),
        "Decode error: expected value (body=Some(\"\"))"
    );
    let none_status = DeepSeekError::Api {
        error: api_error(),
        status: None,
        body: None,
    };
    assert!(none_status.to_display_string().ends_with("status=None)"));
    match DeepSeekError::decode_empty_body("runtime".to_string()) {
        DeepSeekError::Decode { message, body } => {
            assert_eq!(message, "runtime");
            assert_eq!(body.as_deref(), Some(""));
        }
        _ => panic!("expected a decode error"),
    }
    let zero = DeepSeekError::Http { status: 0, body: None };
    assert_eq!(zero.to_display_string(), "HTTP error: status=0, body=None");
    assert!(zero.transport_source().is_none());
}

#[test]
fn transport_errors_are_classified() {
    assert_eq!(ReqwestErrorKind::Decode.as_str(), "decode");
    assert_eq!(ReqwestErrorKind::Timeout.as_str(), "timeout");
    assert_eq!(ReqwestErrorKind::Connect.as_str(), "connect");
    assert_eq!(ReqwestErrorKind::Request.as_str(), "request");
    assert_eq!(ReqwestErrorKind::Body.as_str(), "body");
    assert_eq!(ReqwestErrorKind::Status.as_str(), "status");
    assert_eq!(classify_reqwest_error(false, false, false, false, false, false), None);
    assert_eq!(
        classify_reqwest_error(false, true, true, true, false, false),
        Some(ReqwestErrorKind::Timeout)
    );
    assert_eq!(
        classify_reqwest_error(true, true, true, true, true, true),
        Some(ReqwestErrorKind::Decode)
    );
    assert_eq!(
        classify_reqwest_error(false, false, false, false, false, true),
        Some(ReqwestErrorKind::Status)
    );
    assert_eq!(
        transport_message(Some(ReqwestErrorKind::Connect), "refused"),
        "reqwest connect error: refused"
    );
    assert_eq!(transport_message(None, "boom"), "reqwest error: boom");

    let err = reqwest::Client::new().get("not a url").build().unwrap_err();
    let text = err.to_string();
    let wrapped = DeepSeekError::from_reqwest(err);
    assert!(wrapped.transport_source().is_some());
    match &wrapped {
        DeepSeekError::Transport(t) => assert_eq!(t.kind, None),
        _ => panic!("expected a transport error"),
    }
    assert_eq!(wrapped.to_display_string(), format!("reqwest error: {}", text));
}

#[test]
fn responses_become_results() {
    assert!(status_is_success(200));
    assert!(status_is_success(299));
    assert!(!status_is_success(199));
    assert!(!status_is_success(300));
    assert!(!status_is_success(400));

    let ok: Result<u32, DeepSeekError> =
        finish_response(200, "7".to_string(), ParsedBody::Decoded(Ok(7)));
    assert_eq!(ok.unwrap(), 7);

    let bad: Result<u32, DeepSeekError> = finish_response(
        201,
        "x".to_string(),
        ParsedBody::Decoded(Err("expected value".to_string())),
    );
    match bad {
        Err(DeepSeekError::Decode { message, body }) => {
            assert_eq!(message, "expected value");
            assert_eq!(body.as_deref(), Some("x"));
        }
        _ => panic!("expected a decode error"),
    }

    let api: Result<u32, DeepSeekError> = finish_response(
        400,
        "{\"error\":{}}".to_string(),
        ParsedBody::ErrorPayload(Some(ApiErrorEnvelope { error: api_error() })),
    );
    match api {
        Err(DeepSeekError::Api { error, status, body }) => {
            assert_eq!(status, Some(400));
            assert!(body.is_some());
            assert_eq!(
                error.message,
                "thinking options type cannot be disabled when reasoning_effort is set"
            );
            assert_eq!(error.error_type, "invalid_request_error");
            assert_eq!(error.param.as_deref(), None);
            assert_eq!(error.code.as_deref(), Some("invalid_request_error"));
        }
        _ => panic!("expected DeepSeekError::Api"),
    }

    let http: Result<u32, DeepSeekError> =
        finish_response(503, "busy".to_string(), ParsedBody::ErrorPayload(None));
    match http {
        Err(DeepSeekError::Http { status, body }) => {
            assert_eq!(status, 503);
            assert_eq!(body.as_deref(), Some("busy"));
        }
        _ => panic!("expected DeepSeekError::Http"),
    }
}
