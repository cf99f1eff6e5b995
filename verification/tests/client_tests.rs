use realtime_client::client_inner::{
    function_call_output, input_audio_append, is_silence, user_message_item, ClientAction, ClientError,
    RealtimeClientInner, ToolOutput,
};
use realtime_client::item::ContentType;
use realtime_client::types::TextContent;
use realtime_client::event::Event;
use realtime_client::item::{AssistantItem, BaseItem, BaseItemType, FormattedItem, Item, ItemStatus, Role, UserItem};
use realtime_client::session::{
    collapse_whitespace, default_enabled, AudioFormatType, AudioTranscriptionConf, MaxResponseOutputTokens, Modality,
    SessionConfig, SessionConfigUpdate, SessionResourceContainer, ToolChoice, ToolDefinition, ToolType,
    TurnDetectionServerVadConf, VADType, Voice, DEFAULT_INSTRUCTIONS,
};
use realtime_client::types::{ApiEvent, FormattedProperty};

fn tool(name: &str) -> ToolDefinition {
    ToolDefinition {
        tool_type: ToolType::Function,
        name: name.to_string(),
        description: format!("the {} tool", name),
        parameters: serde_json::Value::Null,
    }
}

fn config_with_tools(names: &[&str]) -> SessionConfig {
    let mut config = SessionConfig::default();
    config.tools = names.iter().map(|n| tool(n)).collect();
    config
}

fn names(tools: &[ToolDefinition]) -> Vec<String> {
    tools.iter().map(|t| t.name.clone()).collect()
}

fn item(id: &str, base: BaseItem) -> Item {
    Item {
        base,
        formatted: FormattedItem {
            id: id.to_string(),
            object: "realtime.item".to_string(),
            previous_item_id: None,
            formatted: FormattedProperty::default(),
        },
    }
}

#[test]
fn default_session_configuration() {
    let config = SessionConfig::default();
    assert!(matches!(config.modalities.as_slice(), [Modality::Audio, Modality::Text]));
    assert_eq!(config.instructions, DEFAULT_INSTRUCTIONS);
    assert_eq!(config.voice, Voice::Shimmer);
    assert_eq!(config.input_audio_format, AudioFormatType::Pcm16);
    let transcription = config.input_audio_transcription.unwrap();
    assert!(transcription.enabled);
    assert_eq!(transcription.model, "whisper-1");
    let vad = config.turn_detection.unwrap();
    assert_eq!(vad.vad_type, VADType::ServerVad);
    assert_eq!(vad.threshold_bits.map(f32::from_bits), Some(0.5));
    assert_eq!(vad.prefix_padding_ms, Some(300));
    assert_eq!(vad.silence_duration_ms, Some(200));
    assert_eq!(config.temperature_bits.map(f32::from_bits), Some(0.8));
    assert!(config.tools.is_empty());
    assert!(matches!(config.tool_choice, ToolChoice::Auto));
    assert_eq!(config.max_response_output_tokens, MaxResponseOutputTokens::Inf);
    assert!(default_enabled());
}

#[test]
fn transcription_configuration_from_flag() {
    let on = AudioTranscriptionConf::from(true);
    assert!(on.enabled);
    assert_eq!(on.model, "whisper-1");
    let off = AudioTranscriptionConf::default();
    assert!(!off.enabled);
    assert_eq!(TurnDetectionServerVadConf::default().threshold_bits, Some(0.5f32.to_bits()));
}

#[test]
fn whitespace_collapses_to_single_spaces() {
    assert_eq!(collapse_whitespace("  Be concise.\n\n  Speak   quickly.\t"), "Be concise. Speak quickly.");
    assert_eq!(collapse_whitespace(""), "");
    assert_eq!(collapse_whitespace(" \n\t "), "");
    assert_eq!(collapse_whitespace("one"), "one");
    assert_eq!(collapse_whitespace("a\u{00a0}b"), "a b");
}

#[test]
fn update_replaces_present_fields_and_reformats_instructions() {
    let mut inner = RealtimeClientInner::new(config_with_tools(&["set_note"]));
    let mut update = SessionConfigUpdate::default();
    update.instructions = Some("Please follow   the instructions.\nBe concise.".to_string());
    update.voice = Some(Voice::Alloy);
    update.turn_detection = Some(None);
    update.temperature_bits = Some(Some(1.0f32.to_bits()));
    assert!(inner.update_session(update).is_ok());
    let config = inner.session_config();
    assert_eq!(config.instructions, "Please follow the instructions. Be concise.");
    assert_eq!(config.voice, Voice::Alloy);
    assert!(config.turn_detection.is_none());
    assert_eq!(config.temperature_bits, Some(1.0f32.to_bits()));
    assert_eq!(config.output_audio_format, AudioFormatType::Pcm16);
    assert_eq!(names(&config.tools), vec!["set_note".to_string()]);
    assert_eq!(inner.get_turn_detection_type(), None);
}

#[test]
fn update_adds_defined_tools_as_functions() {
    let mut inner = RealtimeClientInner::new(config_with_tools(&["a"]));
    let mut update = SessionConfigUpdate::default();
    update.tools = Some(vec![tool("b"), tool("c")]);
    assert_eq!(inner.update_session_tools(&update).ok(), Some(true));
    assert_eq!(names(&inner.session_config().tools), vec!["a", "b", "c"]);
    let empty = SessionConfigUpdate::default();
    assert_eq!(inner.update_session_tools(&empty).ok(), Some(false));
}

#[test]
fn registered_tools_join_the_session() {
    let mut inner = RealtimeClientInner::new(config_with_tools(&["set_chord", "set_rest"]));
    let added = inner.add_tool_handler("set_chord").ok().unwrap();
    assert_eq!(added.name, "set_chord");
    assert_eq!(names(inner.registered_tools()), vec!["set_chord"]);
    // the registered tool is appended to the session's tools
    assert_eq!(names(&inner.session_config().tools), vec!["set_chord", "set_rest", "set_chord"]);
    match inner.add_tool_handler("set_chord") {
        Err(ClientError::ToolAlreadyAdded(n)) => assert_eq!(n, "set_chord"),
        _ => panic!("expected ToolAlreadyAdded"),
    }
    match inner.add_tool_handler("missing") {
        Err(ClientError::ToolNotFound(n)) => assert_eq!(n, "missing"),
        _ => panic!("expected ToolNotFound"),
    }
}

#[test]
fn update_refuses_tools_with_registered_names() {
    let mut inner = RealtimeClientInner::new(config_with_tools(&["x"]));
    inner.add_tool(tool("y")).ok().unwrap();
    let before = names(&inner.session_config().tools);
    let mut update = SessionConfigUpdate::default();
    update.tools = Some(vec![tool("z"), tool("y")]);
    match inner.update_session_tools(&update) {
        Err(ClientError::ToolAlreadyDefined(n)) => assert_eq!(n, "y"),
        _ => panic!("expected ToolAlreadyDefined"),
    }
    assert_eq!(names(&inner.session_config().tools), before);
}

#[test]
fn removing_a_tool_undoes_adding_it() {
    let mut inner = RealtimeClientInner::new(config_with_tools(&["x"]));
    inner.add_tool(tool("y")).ok().unwrap();
    assert!(inner.remove_tool("y").is_ok());
    assert!(inner.registered_tools().is_empty());
    match inner.remove_tool("y") {
        Err(ClientError::ToolDoesNotExist(n)) => assert_eq!(n, "y"),
        _ => panic!("expected ToolDoesNotExist"),
    }
}

#[test]
fn tool_calls_need_a_registered_tool() {
    let mut inner = RealtimeClientInner::new(config_with_tools(&["x"]));
    match inner.check_tool_call("x") {
        Err(ClientError::ToolNotAdded(n)) => assert_eq!(n, "x"),
        _ => panic!("expected ToolNotAdded"),
    }
    inner.add_tool_handler("x").ok().unwrap();
    assert_eq!(inner.check_tool_call("x").ok().unwrap().name, "x");
    assert_eq!(inner.registered_tool("x").unwrap().name, "x");
}

#[test]
fn commit_is_needed_without_server_turn_detection() {
    let mut config = config_with_tools(&["x"]);
    config.turn_detection = None;
    let mut inner = RealtimeClientInner::new(config);
    assert!(!inner.needs_commit_before_response());
    inner.append_input_audio(vec![1, 2, 3]);
    assert!(inner.needs_commit_before_response());
    let queued = inner.queue_input_audio();
    assert_eq!(queued, vec![1i16, 2, 3]);
    assert!(!inner.needs_commit_before_response());

    let mut vad = RealtimeClientInner::new(config_with_tools(&["x"]));
    vad.append_input_audio(vec![1]);
    assert!(!vad.needs_commit_before_response());
    assert_eq!(vad.get_turn_detection_type(), Some(VADType::ServerVad));
}

#[test]
fn silence_is_recognised() {
    assert!(is_silence(&[0, 0, 0]));
    assert!(is_silence(&[]));
    assert!(!is_silence(&[0, 1, 0]));
}

#[test]
fn cancelling_needs_an_assistant_message() {
    let mut inner = RealtimeClientInner::new(config_with_tools(&["x"]));
    assert!(matches!(inner.cancel_response(""), Ok(None)));
    match inner.cancel_response("nope") {
        Err(ClientError::ItemNotFound(n)) => assert_eq!(n, "nope"),
        _ => panic!("expected ItemNotFound"),
    }
    let assistant = item(
        "a",
        BaseItem::Assistant(AssistantItem {
            item_type: BaseItemType::Message,
            status: ItemStatus::InProgress,
            role: Role::Assistant,
            content: vec![],
        }),
    );
    let user = item(
        "u",
        BaseItem::User(UserItem {
            item_type: BaseItemType::Message,
            status: ItemStatus::InProgress,
            role: Role::User,
            content: vec![],
        }),
    );
    let odd = item(
        "o",
        BaseItem::Assistant(AssistantItem {
            item_type: BaseItemType::FunctionCall,
            status: ItemStatus::InProgress,
            role: Role::Assistant,
            content: vec![],
        }),
    );
    for it in [assistant, user, odd] {
        inner.process_server_event(Event::ConversationItemCreated { item: it }).unwrap().ok().unwrap();
    }
    assert_eq!(inner.cancel_response("a").ok().unwrap().unwrap().formatted.id, "a");
    assert!(matches!(inner.cancel_response("u"), Err(ClientError::NotAnAssistantMessage)));
    assert!(matches!(inner.cancel_response("o"), Err(ClientError::NotAMessage)));
}

#[test]
fn events_decide_the_client_action() {
    let mut inner = RealtimeClientInner::new(config_with_tools(&["x"]));
    assert!(!inner.is_session_created());
    assert!(matches!(inner.handle_event(Event::SessionCreated { session: SessionConfig::default() }), ClientAction::Continue));
    assert!(inner.is_session_created());
    assert!(matches!(inner.handle_event(Event::Close { error: false }), ClientAction::Stop));
    match inner.handle_event(Event::Ping { data: vec![9, 8] }) {
        ClientAction::Pong(d) => assert_eq!(d, vec![9u8, 8]),
        _ => panic!("expected Pong"),
    }
    match inner.handle_event(Event::ResponseFunctionCallArgumentsDone {
        item_id: "i".to_string(),
        name: "x".to_string(),
        arguments: "{}".to_string(),
        output_index: 0,
        call_id: "call_9".to_string(),
    }) {
        ClientAction::CallTool { call_id, name, arguments } => {
            assert_eq!(call_id, "call_9");
            assert_eq!(name, "x");
            assert_eq!(arguments, "{}");
        }
        _ => panic!("expected CallTool"),
    }
    let raw = ApiEvent { event_id: "e".to_string(), event_type: "session.created".to_string(), data: None };
    match inner.handle_event(Event::ServerEvent(raw)) {
        ClientAction::Reinterpret(e) => assert_eq!(e.event_type, "session.created"),
        _ => panic!("expected Reinterpret"),
    }
    assert!(matches!(inner.handle_event(Event::InputAudioBufferCommitted), ClientAction::Continue));
}

#[test]
fn reset_returns_to_the_initial_configuration() {
    let mut inner = RealtimeClientInner::new(config_with_tools(&["x"]));
    inner.add_tool(tool("y")).ok().unwrap();
    inner.append_input_audio(vec![4]);
    inner.set_session_created();
    inner.reset();
    assert!(!inner.is_session_created());
    assert!(inner.registered_tools().is_empty());
    assert_eq!(names(&inner.session_config().tools), vec!["x"]);
    assert!(inner.queue_input_audio().is_empty());
    assert!(inner.conversation().get_items().is_empty());
}

#[test]
fn session_resource_wraps_the_configuration() {
    let container = SessionResourceContainer::from(config_with_tools(&["q"]));
    assert_eq!(names(&container.session.tools), vec!["q"]);
}

#[test]
fn cancelled_audio_is_truncated_at_whole_milliseconds() {
    let client = RealtimeClientInner::new(SessionConfig::default());
    assert_eq!(client.conversation().frequency(), 24000);
    let t = client.truncation_for("item_a", 48000);
    assert_eq!(t.item_id, "item_a");
    assert_eq!(t.audio_end_ms, 2000);
    // 100 samples at 24 kHz are 4.16 ms: rounded down
    assert_eq!(client.truncation_for("item_a", 100).audio_end_ms, 4);
    assert_eq!(client.truncation_for("item_a", 0).audio_end_ms, 0);
}

#[test]
fn updates_must_leave_the_session_with_tools() {
    let mut client = RealtimeClientInner::new(SessionConfig::default());
    // no configured and no registered tools: an empty update leaves none
    assert!(!client.update_keeps_tools(&SessionConfigUpdate::default()));
    let mut defines_tool = SessionConfigUpdate::default();
    defines_tool.tools = Some(vec![tool("lookup")]);
    assert!(client.update_keeps_tools(&defines_tool));
    let mut defines_nothing = SessionConfigUpdate::default();
    defines_nothing.tools = Some(vec![]);
    assert!(!client.update_keeps_tools(&defines_nothing));
    client.add_tool(tool("search")).ok().unwrap();
    assert!(client.update_keeps_tools(&SessionConfigUpdate::default()));
    let configured = RealtimeClientInner::new(config_with_tools(&["weather"]));
    assert!(configured.update_keeps_tools(&SessionConfigUpdate::default()));
}

#[test]
fn silent_audio_is_not_appended() {
    assert_eq!(input_audio_append(&[0, 0, 0]), None);
    assert_eq!(input_audio_append(&[]), None);
    assert_eq!(input_audio_append(&[1, 2]), Some("AQACAA==".to_string()));
}

#[test]
fn user_messages_carry_their_content() {
    assert!(user_message_item(vec![]).is_none());
    let part = TextContent { content_type: ContentType::InputText, text: "How are you?".to_string() };
    let item = user_message_item(vec![part.into()]).unwrap();
    assert!(item.formatted.id.starts_with("item_"));
    assert_eq!(item.formatted.id.len(), 16);
    assert_eq!(item.formatted.object, "conversation.item");
    match &item.base {
        BaseItem::User(u) => {
            assert_eq!(u.status, ItemStatus::Completed);
            assert_eq!(u.role, Role::User);
            assert_eq!(u.item_type, BaseItemType::Message);
            assert_eq!(u.content.len(), 1);
        }
        _ => panic!("user message expected"),
    }
}

#[test]
fn tool_results_and_errors_answer_the_call() {
    let ok = function_call_output("call_1", Ok("{\"x\":1}".to_string()));
    assert_eq!(ok.call_id, "call_1");
    assert_eq!(ok.item_type, BaseItemType::FunctionCallOutput);
    assert!(matches!(ok.output, ToolOutput::Output(ref o) if o == "{\"x\":1}"));
    let err = function_call_output("call_2", Err("boom".to_string()));
    assert!(matches!(err.output, ToolOutput::Error(ref m) if m == "boom"));
}

#[test]
fn collapsing_whitespace_twice_changes_nothing() {
    let once = collapse_whitespace("  a \n\t b   c  ");
    assert_eq!(once, "a b c");
    assert_eq!(collapse_whitespace(&once), once);
    // a no-break space is whitespace too
    assert_eq!(collapse_whitespace("x\u{a0}y"), "x y");
}
