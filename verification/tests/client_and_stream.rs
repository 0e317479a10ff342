use deepseek_sdk::balance::{Balance, BalanceInfo};
use deepseek_sdk::models::{ModelInfo, Models};
use deepseek_sdk::stream::{SseAction, SseDriver, SseEvent};
use deepseek_sdk::{Credentials, DeepSeekClient, DeepSeekError, DEFAULT_BASE_URL};

#[test]
fn client_builds_urls_and_headers() {
    let client = DeepSeekClient::new("sk-123", DEFAULT_BASE_URL).unwrap();
    assert_eq!(client.endpoint("/models"), "https://api.deepseek.com/models");
    assert_eq!(client.authorization(), "Bearer sk-123");
    assert_eq!(client.credentials, Credentials::new("sk-123", "https://api.deepseek.com"));
}

#[test]
fn client_equality_follows_credentials() {
    let a = DeepSeekClient::new("k", DEFAULT_BASE_URL).unwrap();
    let b = DeepSeekClient::new("k", DEFAULT_BASE_URL).unwrap();
    assert!(a == b);
    let c = a.clone().with_client(reqwest::Client::new());
    assert!(c == a);
    let d = a.clone().with_credentials("other", DEFAULT_BASE_URL);
    assert!(d != a);
    assert_eq!(d.credentials.api_key, "other");
}

#[test]
fn stream_driver_follows_events() {
    let mut driver = SseDriver::new();
    assert!(matches!(driver.on_event(SseEvent::Open), SseAction::Continue));
    let data = match driver.on_event(SseEvent::Message("{\"n\":1}".to_string())) {
        SseAction::Decode(d) => d,
        _ => panic!("expected a chunk to decode"),
    };
    assert_eq!(data, "{\"n\":1}");
    let item: Result<u32, DeepSeekError> = driver.on_decoded(Ok(1), data);
    assert_eq!(item.unwrap(), 1);
    driver.on_delivered(true);
    assert!(!driver.is_finished());
    assert!(matches!(
        driver.on_event(SseEvent::Message("[DONE]".to_string())),
        SseAction::Stop
    ));
    assert!(driver.is_finished());
    assert!(matches!(driver.on_event(SseEvent::Open), SseAction::Stop));
}

#[test]
fn stream_driver_ends_on_errors() {
    let mut driver = SseDriver::new();
    match driver.on_event(SseEvent::Failure("connection reset".to_string())) {
        SseAction::Fail(DeepSeekError::Decode { message, body }) => {
            assert_eq!(message, "connection reset");
            assert_eq!(body.as_deref(), Some(""));
        }
        _ => panic!("expected a failure"),
    }
    assert!(driver.is_finished());
    assert!(matches!(
        driver.on_event(SseEvent::Message("{}".to_string())),
        SseAction::Stop
    ));

    let mut driver = SseDriver::new();
    let item: Result<u32, DeepSeekError> =
        driver.on_decoded(Err("bad chunk".to_string()), "{oops".to_string());
    match item {
        Err(DeepSeekError::Decode { message, body }) => {
            assert_eq!(message, "bad chunk");
            assert_eq!(body.as_deref(), Some("{oops"));
        }
        _ => panic!("expected a decode error"),
    }
    assert!(driver.is_finished());

    let mut driver = SseDriver::new();
    driver.on_delivered(false);
    assert!(driver.is_finished());
    // A message that merely contains the marker is still a chunk.
    let mut driver = SseDriver::new();
    assert!(matches!(
        driver.on_event(SseEvent::Message(" [DONE]".to_string())),
        SseAction::Decode(_)
    ));
}

#[test]
fn account_models_hold_their_fields() {
    let balance = Balance {
        is_available: true,
        balance_infos: vec![BalanceInfo {
            currency: "CNY".to_string(),
            total_balance: "110.00".to_string(),
            granted_balance: "10.00".to_string(),
            topped_up_balance: "100.00".to_string(),
        }],
    };
    assert!(balance.is_available);
    assert!(!balance.balance_infos.is_empty());
    let models = Models {
        object: "list".to_string(),
        data: vec![ModelInfo {
            id: "deepseek-v4-flash".to_string(),
            object: "model".to_string(),
            owned_by: "deepseek".to_string(),
        }],
    };
    assert_eq!(models.object, "list");
    assert_eq!(models.data.len(), 1);
}
