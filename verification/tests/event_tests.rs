use realtime_client::event::Event;
use realtime_client::types::{ApiEvent, ResponseAudioDeltaEvent};

#[test]
fn event_types_use_wire_names() {
    assert_eq!(Event::InputAudioBufferCommitted.get_type(), "input_audio_buffer.committed");
    assert_eq!(Event::ResponseCreateRequest.get_type(), "response.create");
    assert_eq!(Event::Close { error: true }.get_type(), "Close");
    assert_eq!(Event::Ping { data: vec![] }.get_type(), "Ping");
    assert_eq!(
        Event::ConversationItemTruncated { item_id: "i".to_string(), audio_end_ms: 1 }.get_type(),
        "conversation.item.truncated"
    );
    assert_eq!(
        Event::ResponseAudioDelta(ResponseAudioDeltaEvent {
            output_index: 0,
            content_index: 0,
            response_id: "r".to_string(),
            item_id: "i".to_string(),
            delta: String::new(),
            event_type: None,
        })
        .get_type(),
        "response.audio.delta"
    );
}

#[test]
fn raw_events_carry_their_own_type() {
    let raw = ApiEvent { event_id: "e".to_string(), event_type: "server.error".to_string(), data: None };
    let event = Event::ServerEvent(raw);
    assert_eq!(event.get_type(), "server.error");
    assert!(event.is_server_event_named("server.error"));
    assert!(!event.is_server_event_named("session.created"));
    let client = Event::ClientEvent {
        event_type: "session.update".to_string(),
        event_data: ApiEvent { event_id: "e".to_string(), event_type: "session.update".to_string(), data: None },
    };
    assert_eq!(client.get_type(), "session.update");
    assert!(!client.is_server_event_named("session.update"));
}
