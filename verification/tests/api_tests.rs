use realtime_client::api::{ApiError, RealtimeAPI, RealtimeAPISettings, SocketMessage, REALTIME_URL};
use realtime_client::event::Event;
use realtime_client::types::ApiEvent;

fn api(key: Option<&str>) -> RealtimeAPI {
    RealtimeAPI::new(RealtimeAPISettings { api_key: key.map(|k| k.to_string()), debug: true })
}

#[test]
fn connect_request_names_model_and_key() {
    let api = api(Some("sk-test"));
    assert!(!api.is_connected());
    let req = api.connect(None).ok().unwrap();
    assert_eq!(req.url, "wss://api.openai.com/v1/realtime?model=gpt-4o-realtime-preview-2024-10-01");
    assert_eq!(req.authorization, "Bearer sk-test");
    assert_eq!(req.beta, "realtime=v1");
    let req = api.connect(Some("other-model")).ok().unwrap();
    assert_eq!(req.url, format!("{}?model=other-model", REALTIME_URL));
}

#[test]
fn connecting_twice_is_refused() {
    let mut api = api(Some("k"));
    api.mark_connected();
    assert!(api.is_connected());
    assert!(matches!(api.connect(None), Err(ApiError::AlreadyConnected)));
    api.disconnect();
    assert!(!api.is_connected());
    assert!(api.connect(None).is_ok());
}

#[test]
fn missing_key_is_noticed() {
    assert!(api(None).lacks_api_key());
    assert!(!api(Some("k")).lacks_api_key());
    // without a key the connection is still attempted, with an empty token
    let req = api(None).connect(None).ok().unwrap();
    assert_eq!(req.authorization, "Bearer ");
    let default = RealtimeAPISettings::default();
    assert!(default.api_key.is_none());
    assert!(!default.debug);
}

#[test]
fn sending_needs_a_connection() {
    let mut api = api(Some("k"));
    assert_eq!(api.check_connected(), Err(ApiError::NotConnected));
    assert!(matches!(api.envelope::<u8>("response.create", None), Err(ApiError::NotConnected)));
    api.mark_connected();
    assert_eq!(api.check_connected(), Ok(()));
    let e = api.envelope("response.create", Some(7u8)).ok().unwrap();
    assert_eq!(e.event_type, "response.create");
    assert_eq!(e.data, Some(7));
    assert!(e.event_id.starts_with("evt_"));
    assert_eq!(e.event_id.len(), 16);
}

#[test]
fn socket_messages_become_events() {
    let raw = ApiEvent { event_id: "e1".to_string(), event_type: "session.created".to_string(), data: None };
    let step = RealtimeAPI::socket_step(SocketMessage::Text(raw));
    assert!(!step.stop);
    match step.event {
        Some(Event::ServerEvent(e)) => assert_eq!(e.event_id, "e1"),
        _ => panic!("expected a server event"),
    }
    let step = RealtimeAPI::socket_step(SocketMessage::Close);
    assert!(step.stop);
    assert!(matches!(step.event, Some(Event::Close { error: false })));
    let step = RealtimeAPI::socket_step(SocketMessage::Failed);
    assert!(step.stop);
    assert!(matches!(step.event, Some(Event::Close { error: true })));
    let step = RealtimeAPI::socket_step(SocketMessage::Ping(vec![1]));
    assert!(!step.stop);
    assert!(matches!(step.event, Some(Event::Ping { .. })));
    let step = RealtimeAPI::socket_step(SocketMessage::Unsupported);
    assert!(!step.stop && step.event.is_none());
}
