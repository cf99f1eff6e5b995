use realtime_client::conversation::{ConversationError, RealtimeConversation};
use realtime_client::event::Event;
use realtime_client::item::{
    AssistantItem, BaseItem, BaseItemKind, BaseItemType, ContentType, FormattedItem,
    FunctionCallItem, FunctionCallOutputItem, Item, ItemStatus, Role, SystemItem, UserItem,
};
use realtime_client::types::{
    AudioContent, ContentPart, FormattedProperty, ResponseAudioDeltaEvent, ResponseOutputItemDoneEvent,
    ResponseResourceType, TextContent,
};
use realtime_client::utils::RealtimeUtils;

fn formatted(id: &str) -> FormattedItem {
    FormattedItem {
        id: id.to_string(),
        object: "realtime.item".to_string(),
        previous_item_id: None,
        formatted: FormattedProperty::default(),
    }
}

fn assistant_item(id: &str) -> Item {
    Item {
        base: BaseItem::Assistant(AssistantItem {
            item_type: BaseItemType::Message,
            status: ItemStatus::Completed,
            role: Role::Assistant,
            content: vec![ContentPart::Text(TextContent { content_type: ContentType::Text, text: String::new() })],
        }),
        formatted: formatted(id),
    }
}

fn user_item(id: &str) -> Item {
    Item {
        base: BaseItem::User(UserItem {
            item_type: BaseItemType::Message,
            status: ItemStatus::InProgress,
            role: Role::User,
            content: vec![ContentPart::Text(TextContent { content_type: ContentType::InputText, text: "How are you?".to_string() })],
        }),
        formatted: formatted(id),
    }
}

fn system_item(id: &str) -> Item {
    Item {
        base: BaseItem::System(SystemItem {
            item_type: BaseItemType::Message,
            status: ItemStatus::InProgress,
            role: Role::System,
            content: vec![],
        }),
        formatted: formatted(id),
    }
}

fn call_item(id: &str) -> Item {
    Item {
        base: BaseItem::FunctionCall(FunctionCallItem {
            item_type: BaseItemType::FunctionCall,
            status: ItemStatus::Completed,
            call_id: "call_1".to_string(),
            name: "set_note".to_string(),
            arguments: "{\"no".to_string(),
        }),
        formatted: formatted(id),
    }
}

fn output_item(id: &str) -> Item {
    Item {
        base: BaseItem::FunctionCallOutput(FunctionCallOutputItem {
            item_type: BaseItemType::FunctionCallOutput,
            call_id: "call_1".to_string(),
            output: "{\"ok\":true}".to_string(),
        }),
        formatted: formatted(id),
    }
}

fn response(id: &str) -> ResponseResourceType {
    ResponseResourceType {
        id: id.to_string(),
        object: "realtime.response".to_string(),
        status: "in_progress".to_string(),
        status_details: None,
        output: vec![],
        usage: None,
    }
}

fn created(conv: &mut RealtimeConversation, item: Item) -> Item {
    let (item, delta) = conv.process_event(Event::ConversationItemCreated { item }).ok().unwrap();
    assert!(delta.is_none());
    item.unwrap()
}

fn not_found_id(e: ConversationError) -> String {
    match e {
        ConversationError::ItemNotFound(id) => id,
        _ => panic!("expected ItemNotFound"),
    }
}

#[test]
fn new_conversation_is_empty() {
    let conv = RealtimeConversation::new();
    assert_eq!(conv.default_frequency, 24000);
    assert!(conv.get_items().is_empty());
    assert!(conv.get_item("x").is_none());
    assert!(conv.get_item_at(0).is_none());
}

#[test]
fn created_user_item_is_completed_and_stored() {
    let mut conv = RealtimeConversation::new();
    let item = created(&mut conv, user_item("item_u"));
    assert_eq!(item.base.status(), ItemStatus::Completed);
    assert_eq!(conv.get_items().len(), 1);
    let stored = conv.get_item("item_u").unwrap();
    assert_eq!(stored.formatted.id, "item_u");
    assert_eq!(conv.get_item_at(0).unwrap().formatted.id, "item_u");
    assert_eq!(conv.map_item_at(0, |i| i.formatted.id.clone()), Some("item_u".to_string()));
    assert_eq!(conv.map_item_at(1, |i| i.formatted.id.clone()), None);
}

#[test]
fn created_assistant_item_is_in_progress() {
    let mut conv = RealtimeConversation::new();
    let item = created(&mut conv, assistant_item("item_a"));
    assert_eq!(item.base.status(), ItemStatus::InProgress);
    let sys = created(&mut conv, system_item("item_s"));
    assert_eq!(sys.base.status(), ItemStatus::InProgress);
}

#[test]
fn created_function_call_gets_tool() {
    let mut conv = RealtimeConversation::new();
    let item = created(&mut conv, call_item("item_c"));
    assert_eq!(item.base.status(), ItemStatus::InProgress);
    let tool = item.formatted.formatted.tool.unwrap();
    assert_eq!(tool.tool_type, "function");
    assert_eq!(tool.name, "set_note");
    assert_eq!(tool.call_id, "call_1");
    // the arguments arrive later, as deltas
    assert_eq!(tool.arguments.as_deref(), Some(""));
}

#[test]
fn created_function_output_gets_output() {
    let mut conv = RealtimeConversation::new();
    let item = created(&mut conv, output_item("item_o"));
    assert_eq!(item.base.status(), ItemStatus::Completed);
    assert_eq!(item.formatted.formatted.output.as_deref(), Some("{\"ok\":true}"));
}

#[test]
fn created_twice_is_stored_once() {
    let mut conv = RealtimeConversation::new();
    created(&mut conv, assistant_item("dup"));
    created(&mut conv, assistant_item("dup"));
    assert_eq!(conv.get_items().len(), 1);
}

#[test]
fn user_item_takes_queued_input_audio() {
    let mut conv = RealtimeConversation::new();
    let back = conv.queue_input_audio(vec![5, 6, 7]);
    assert_eq!(back, vec![5i16, 6, 7]);
    let item = created(&mut conv, user_item("item_u"));
    assert_eq!(item.formatted.formatted.audio, vec![5i16, 6, 7]);
    // the queued audio is used up
    let next = created(&mut conv, user_item("item_u2"));
    assert!(next.formatted.formatted.audio.is_empty());
}

#[test]
fn early_transcript_reaches_item() {
    let mut conv = RealtimeConversation::new();
    let r = conv
        .process_event(Event::ConversationItemInputAudioTranscriptionCompleted {
            item_id: "item_t".to_string(),
            content_index: 0,
            transcript: "hello there".to_string(),
        })
        .ok()
        .unwrap();
    assert!(r.0.is_none() && r.1.is_none());
    let item = created(&mut conv, assistant_item("item_t"));
    assert_eq!(item.formatted.formatted.transcript, "hello there");
}

#[test]
fn empty_early_transcript_shows_as_space() {
    let mut conv = RealtimeConversation::new();
    conv.process_event(Event::ConversationItemInputAudioTranscriptionCompleted {
        item_id: "item_t".to_string(),
        content_index: 0,
        transcript: String::new(),
    })
    .ok()
    .unwrap();
    let item = created(&mut conv, assistant_item("item_t"));
    assert_eq!(item.formatted.formatted.transcript, " ");
}

#[test]
fn transcript_of_existing_item_sets_text_and_transcript() {
    let mut conv = RealtimeConversation::new();
    created(&mut conv, assistant_item("item_a"));
    let (item, delta) = conv
        .process_event(Event::ConversationItemInputAudioTranscriptionCompleted {
            item_id: "item_a".to_string(),
            content_index: 0,
            transcript: "words".to_string(),
        })
        .ok()
        .unwrap();
    let item = item.unwrap();
    assert_eq!(item.formatted.formatted.transcript, "words");
    assert_eq!(delta.unwrap().transcript.as_deref(), Some("words"));
    match &item.base {
        BaseItem::Assistant(a) => match &a.content[0] {
            ContentPart::Text(t) => assert_eq!(t.text, "words"),
            _ => panic!("text part expected"),
        },
        _ => panic!("assistant expected"),
    }
}

#[test]
fn detected_speech_reaches_item() {
    let mut conv = RealtimeConversation::new();
    // 1 ms is 24 samples at 24 kHz
    let audio: Vec<i16> = (0..100).map(|x| x as i16).collect();
    conv.queue_input_audio(audio.clone());
    conv.process_event(Event::InputAudioBufferSpeechStarted { item_id: "item_s".to_string(), audio_start_ms: 1 })
        .ok()
        .unwrap();
    let stop = Event::InputAudioBufferSpeechStopped { item_id: "item_s".to_string(), audio_end_ms: 3 };
    assert!(conv.can_process(&stop));
    conv.process_event(stop).ok().unwrap();
    let item = created(&mut conv, assistant_item("item_s"));
    assert_eq!(item.formatted.formatted.audio, audio[24..72].to_vec());
}

#[test]
fn speech_stop_out_of_range_is_cut_to_the_audio() {
    let mut conv = RealtimeConversation::new();
    let audio: Vec<i16> = (0..10).collect();
    conv.queue_input_audio(audio.clone());
    conv.process_event(Event::InputAudioBufferSpeechStarted { item_id: "s".to_string(), audio_start_ms: 0 })
        .ok()
        .unwrap();
    let stop = Event::InputAudioBufferSpeechStopped { item_id: "s".to_string(), audio_end_ms: 1000 };
    assert!(conv.can_process(&stop));
    assert!(conv.try_process_event(stop).unwrap().is_ok());
    let item = created(&mut conv, assistant_item("s"));
    assert_eq!(item.formatted.formatted.audio, audio);
}

#[test]
fn speech_stop_before_its_start_takes_no_audio() {
    let mut conv = RealtimeConversation::new();
    conv.queue_input_audio((0..100).collect());
    conv.process_event(Event::InputAudioBufferSpeechStarted { item_id: "s".to_string(), audio_start_ms: 3 })
        .ok()
        .unwrap();
    conv.process_event(Event::InputAudioBufferSpeechStopped { item_id: "s".to_string(), audio_end_ms: 1 })
        .ok()
        .unwrap();
    let item = created(&mut conv, assistant_item("s"));
    assert!(item.formatted.formatted.audio.is_empty());
}

#[test]
fn speech_stop_without_start_changes_nothing() {
    let mut conv = RealtimeConversation::new();
    let r = conv
        .process_event(Event::InputAudioBufferSpeechStopped { item_id: "none".to_string(), audio_end_ms: 5 })
        .ok()
        .unwrap();
    assert!(r.0.is_none());
}

#[test]
fn truncation_cuts_audio_and_clears_transcript() {
    let mut conv = RealtimeConversation::new();
    created(&mut conv, assistant_item("item_a"));
    let samples = RealtimeUtils::array_buffer_to_base64(&(0..100).map(|x| x as i16).collect::<Vec<_>>());
    conv.process_event(Event::ResponseAudioDelta(ResponseAudioDeltaEvent {
        output_index: 0,
        content_index: 0,
        response_id: "resp".to_string(),
        item_id: "item_a".to_string(),
        delta: samples,
        event_type: None,
    }))
    .ok()
    .unwrap();
    conv.process_event(Event::ResponseAudioTranscriptDelta {
        item_id: "item_a".to_string(),
        content_index: 0,
        delta: "spoken".to_string(),
    })
    .ok()
    .unwrap();
    let (item, _) = conv
        .process_event(Event::ConversationItemTruncated { item_id: "item_a".to_string(), audio_end_ms: 2 })
        .ok()
        .unwrap();
    let item = item.unwrap();
    assert_eq!(item.formatted.formatted.audio.len(), 48);
    assert_eq!(item.formatted.formatted.audio[47], 47);
    assert_eq!(item.formatted.formatted.transcript, "");
    // an offset past the end keeps everything
    let (item, _) = conv
        .process_event(Event::ConversationItemTruncated { item_id: "item_a".to_string(), audio_end_ms: 1000 })
        .ok()
        .unwrap();
    assert_eq!(item.unwrap().formatted.formatted.audio.len(), 48);
}

#[test]
fn truncation_of_unknown_item_fails() {
    let mut conv = RealtimeConversation::new();
    let e = conv
        .process_event(Event::ConversationItemTruncated { item_id: "ghost".to_string(), audio_end_ms: 2 })
        .err()
        .unwrap();
    assert_eq!(not_found_id(e), "ghost");
}

#[test]
fn deleted_item_is_gone() {
    let mut conv = RealtimeConversation::new();
    created(&mut conv, assistant_item("a"));
    created(&mut conv, assistant_item("b"));
    created(&mut conv, assistant_item("c"));
    let (item, _) = conv.process_event(Event::ConversationItemDeleted { item_id: "b".to_string() }).ok().unwrap();
    assert_eq!(item.unwrap().formatted.id, "b");
    let ids: Vec<String> = conv.get_items().into_iter().map(|i| i.formatted.id).collect();
    assert_eq!(ids, vec!["a".to_string(), "c".to_string()]);
    let e = conv.process_event(Event::ConversationItemDeleted { item_id: "b".to_string() }).err().unwrap();
    assert_eq!(not_found_id(e), "b");
}

#[test]
fn text_and_transcript_deltas_accumulate() {
    let mut conv = RealtimeConversation::new();
    created(&mut conv, assistant_item("a"));
    conv.process_event(Event::ResponseTextDelta { item_id: "a".to_string(), content_index: 0, delta: "Hel".to_string() })
        .ok()
        .unwrap();
    let (item, delta) = conv
        .process_event(Event::ResponseTextDelta { item_id: "a".to_string(), content_index: 0, delta: "lo".to_string() })
        .ok()
        .unwrap();
    let item = item.unwrap();
    assert_eq!(delta.unwrap().text.as_deref(), Some("lo"));
    assert_eq!(item.formatted.formatted.text, "Hello");
    assert_eq!(item.formatted.formatted.transcript, "");
    match &item.base {
        BaseItem::Assistant(a) => match &a.content[0] {
            ContentPart::Text(t) => assert_eq!(t.text, "Hello"),
            _ => panic!("text part expected"),
        },
        _ => panic!("assistant expected"),
    }
}

#[test]
fn audio_deltas_append_samples() {
    let mut conv = RealtimeConversation::new();
    created(&mut conv, assistant_item("a"));
    for chunk in [vec![1i16, -2], vec![3i16]] {
        let (_, delta) = conv
            .process_event(Event::ResponseAudioDelta(ResponseAudioDeltaEvent {
                output_index: 0,
                content_index: 0,
                response_id: "r".to_string(),
                item_id: "a".to_string(),
                delta: RealtimeUtils::array_buffer_to_base64(&chunk),
                event_type: None,
            }))
            .ok()
            .unwrap();
        assert_eq!(delta.unwrap().audio.unwrap(), chunk);
    }
    assert_eq!(conv.get_item("a").unwrap().formatted.formatted.audio, vec![1i16, -2, 3]);
}

#[test]
fn audio_delta_with_bad_base64_is_refused() {
    let mut conv = RealtimeConversation::new();
    created(&mut conv, assistant_item("a"));
    let event = Event::ResponseAudioDelta(ResponseAudioDeltaEvent {
        output_index: 0,
        content_index: 0,
        response_id: "r".to_string(),
        item_id: "a".to_string(),
        delta: "***".to_string(),
        event_type: None,
    });
    assert!(!conv.can_process(&event));
    assert!(conv.try_process_event(event).is_none());
}

#[test]
fn function_call_arguments_accumulate() {
    let mut conv = RealtimeConversation::new();
    created(&mut conv, call_item("c"));
    let (item, delta) = conv
        .process_event(Event::ResponseFunctionCallArgumentsDelta { item_id: "c".to_string(), delta: "te\":1}".to_string() })
        .ok()
        .unwrap();
    let item = item.unwrap();
    assert_eq!(delta.unwrap().arguments.as_deref(), Some("te\":1}"));
    // the stored item has its formatted tool, whose arguments start empty
    assert_eq!(item.formatted.formatted.tool.unwrap().arguments.as_deref(), Some("te\":1}"));
    match &item.base {
        BaseItem::FunctionCall(f) => assert_eq!(f.arguments, "{\"note\":1}"),
        _ => panic!("function call expected"),
    }
}

#[test]
fn responses_collect_output_items() {
    let mut conv = RealtimeConversation::new();
    conv.process_event(Event::ResponseCreated { response: response("resp_1") }).ok().unwrap();
    let r = conv
        .process_event(Event::ResponseOutputItemAdded {
            response_id: "resp_1".to_string(),
            output_index: 0,
            item: assistant_item("a"),
        })
        .ok()
        .unwrap();
    assert!(r.0.is_none());
    let e = conv
        .process_event(Event::ResponseOutputItemAdded {
            response_id: "resp_2".to_string(),
            output_index: 0,
            item: assistant_item("a"),
        })
        .err()
        .unwrap();
    match e {
        ConversationError::ResponseNotFound(id) => assert_eq!(id, "resp_2"),
        _ => panic!("expected ResponseNotFound"),
    }
}

#[test]
fn output_item_done_copies_status() {
    let mut conv = RealtimeConversation::new();
    created(&mut conv, assistant_item("a"));
    let mut done = assistant_item("a");
    done.base.set_status(ItemStatus::Incomplete);
    let (item, _) = conv
        .process_event(Event::ResponseOutputItemDone(ResponseOutputItemDoneEvent {
            event_id: "e".to_string(),
            output_index: 0,
            response_id: "r".to_string(),
            item: done,
            event_type: None,
        }))
        .ok()
        .unwrap();
    assert_eq!(item.unwrap().base.status(), ItemStatus::Incomplete);
    let e = conv
        .process_event(Event::ResponseOutputItemDone(ResponseOutputItemDoneEvent {
            event_id: "e".to_string(),
            output_index: 0,
            response_id: "r".to_string(),
            item: assistant_item("zz"),
            event_type: None,
        }))
        .err()
        .unwrap();
    assert_eq!(not_found_id(e), "zz");
}

#[test]
fn content_parts_join_messages_only() {
    let mut conv = RealtimeConversation::new();
    created(&mut conv, assistant_item("a"));
    created(&mut conv, system_item("s"));
    let part = ContentPart::Audio(AudioContent { content_type: ContentType::Audio, audio: None, transcript: None });
    let (item, _) = conv
        .process_event(Event::ResponseContentPartAdded { item_id: "a".to_string(), part })
        .ok()
        .unwrap();
    assert_eq!(item.unwrap().base.content_part_count(), 2);
    let part = ContentPart::Text(TextContent { content_type: ContentType::Text, text: "x".to_string() });
    let e = conv
        .process_event(Event::ResponseContentPartAdded { item_id: "s".to_string(), part })
        .err()
        .unwrap();
    match e {
        ConversationError::UnexpectedItemType(kind) => assert_eq!(kind, BaseItemKind::System),
        _ => panic!("expected UnexpectedItemType"),
    }
}

#[test]
fn unrelated_events_change_nothing() {
    let mut conv = RealtimeConversation::new();
    created(&mut conv, assistant_item("a"));
    let r = conv.process_event(Event::InputAudioBufferCommitted).ok().unwrap();
    assert!(r.0.is_none() && r.1.is_none());
    assert_eq!(conv.get_items().len(), 1);
}

#[test]
fn clear_empties_the_conversation() {
    let mut conv = RealtimeConversation::new();
    created(&mut conv, assistant_item("a"));
    conv.queue_input_audio(vec![1]);
    conv.clear();
    assert!(conv.get_items().is_empty());
    let item = created(&mut conv, user_item("u"));
    assert!(item.formatted.formatted.audio.is_empty());
}

fn assistant_audio_item(id: &str, transcript: Option<&str>) -> Item {
    Item {
        base: BaseItem::Assistant(AssistantItem {
            item_type: BaseItemType::Message,
            status: ItemStatus::InProgress,
            role: Role::Assistant,
            content: vec![ContentPart::Audio(AudioContent {
                content_type: ContentType::Audio,
                audio: None,
                transcript: transcript.map(|t| t.to_string()),
            })],
        }),
        formatted: formatted(id),
    }
}

fn audio_transcript(item: &Item) -> Option<String> {
    match &item.base {
        BaseItem::Assistant(a) => match &a.content[0] {
            ContentPart::Audio(p) => p.transcript.clone(),
            _ => panic!("audio part expected"),
        },
        _ => panic!("assistant expected"),
    }
}

#[test]
fn created_item_is_stored_as_handed_back() {
    let mut conv = RealtimeConversation::new();
    let item = created(&mut conv, user_item("item_u"));
    let stored = conv.get_item("item_u").unwrap();
    assert_eq!(stored.base.status(), ItemStatus::Completed);
    assert_eq!(stored.formatted.formatted.text, item.formatted.formatted.text);
}

#[test]
fn created_message_shows_its_text() {
    let mut conv = RealtimeConversation::new();
    let item = created(&mut conv, user_item("item_u"));
    assert_eq!(item.formatted.formatted.text, "How are you?");
    let audio_only = created(&mut conv, assistant_audio_item("item_a", None));
    assert_eq!(audio_only.formatted.formatted.text, "");
}

#[test]
fn completed_transcription_sets_the_audio_part_transcript() {
    let mut conv = RealtimeConversation::new();
    created(&mut conv, assistant_audio_item("a", None));
    let (item, _) = conv
        .process_event(Event::ConversationItemInputAudioTranscriptionCompleted {
            item_id: "a".to_string(),
            content_index: 0,
            transcript: "spoken".to_string(),
        })
        .ok()
        .unwrap();
    let item = item.unwrap();
    assert_eq!(audio_transcript(&item), Some("spoken".to_string()));
    assert_eq!(item.formatted.formatted.transcript, "spoken");
}

#[test]
fn audio_transcript_deltas_reach_the_audio_part() {
    let mut conv = RealtimeConversation::new();
    created(&mut conv, assistant_audio_item("a", None));
    conv.process_event(Event::ResponseAudioTranscriptDelta {
        item_id: "a".to_string(),
        content_index: 0,
        delta: "Hel".to_string(),
    })
    .ok()
    .unwrap();
    let (item, delta) = conv
        .process_event(Event::ResponseAudioTranscriptDelta {
            item_id: "a".to_string(),
            content_index: 0,
            delta: "lo".to_string(),
        })
        .ok()
        .unwrap();
    let item = item.unwrap();
    assert_eq!(delta.unwrap().transcript.as_deref(), Some("lo"));
    assert_eq!(audio_transcript(&item), Some("Hello".to_string()));
    assert_eq!(item.formatted.formatted.transcript, "Hello");
    assert_eq!(item.formatted.formatted.text, "");
}
