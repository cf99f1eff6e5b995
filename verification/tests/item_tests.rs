use realtime_client::item::{
    AssistantItem, BaseItem, BaseItemKind, BaseItemType, ContentType, FormattedItem,
    FunctionCallItem, FunctionCallOutputItem, Item, ItemStatus, Role, SystemItem, UserItem,
};
use realtime_client::types::{AudioContent, ContentPart, FormattedProperty, FormattedTool, TextContent};

fn text(t: &str) -> ContentPart {
    ContentPart::Text(TextContent { content_type: ContentType::Text, text: t.to_string() })
}

fn audio_part() -> ContentPart {
    ContentPart::Audio(AudioContent { content_type: ContentType::Audio, audio: None, transcript: None })
}

fn part_text(p: &ContentPart) -> Option<String> {
    match p {
        ContentPart::Text(t) => Some(t.text.clone()),
        ContentPart::Audio(_) => None,
    }
}

fn assistant(content: Vec<ContentPart>) -> BaseItem {
    BaseItem::Assistant(AssistantItem {
        item_type: BaseItemType::Message,
        status: ItemStatus::InProgress,
        role: Role::Assistant,
        content,
    })
}

fn item_with(base: BaseItem, id: &str) -> Item {
    Item {
        base,
        formatted: FormattedItem {
            id: id.to_string(),
            object: "realtime.item".to_string(),
            previous_item_id: None,
            formatted: FormattedProperty::default(),
        },
    }
}

#[test]
fn deserialized_variant_follows_role_then_type() {
    assert_eq!(BaseItem::kind_for(Some(Role::Assistant), Some(BaseItemType::Message)), Some(BaseItemKind::Assistant));
    assert_eq!(BaseItem::kind_for(Some(Role::User), None), Some(BaseItemKind::User));
    assert_eq!(BaseItem::kind_for(Some(Role::System), Some(BaseItemType::FunctionCall)), Some(BaseItemKind::System));
    assert_eq!(BaseItem::kind_for(None, Some(BaseItemType::FunctionCall)), Some(BaseItemKind::FunctionCall));
    assert_eq!(
        BaseItem::kind_for(None, Some(BaseItemType::FunctionCallOutput)),
        Some(BaseItemKind::FunctionCallOutput)
    );
    assert_eq!(BaseItem::kind_for(None, Some(BaseItemType::Message)), None);
    assert_eq!(BaseItem::kind_for(None, None), None);
}

#[test]
fn status_of_function_output_is_completed_and_fixed() {
    let mut base = BaseItem::FunctionCallOutput(FunctionCallOutputItem {
        item_type: BaseItemType::FunctionCallOutput,
        call_id: "call_1".to_string(),
        output: "{}".to_string(),
    });
    assert_eq!(base.status(), ItemStatus::Completed);
    base.set_status(ItemStatus::Failed);
    assert_eq!(base.status(), ItemStatus::Completed);
    assert!(base.is_complete());
    assert_eq!(base.content_part_count(), 0);
}

#[test]
fn set_status_changes_message_and_call_status() {
    let mut base = assistant(vec![]);
    assert!(!base.is_complete());
    base.set_status(ItemStatus::Completed);
    assert!(base.is_complete());
    let mut call = BaseItem::FunctionCall(FunctionCallItem {
        item_type: BaseItemType::FunctionCall,
        status: ItemStatus::InProgress,
        call_id: "c".to_string(),
        name: "f".to_string(),
        arguments: String::new(),
    });
    call.set_status(ItemStatus::Incomplete);
    assert_eq!(call.status(), ItemStatus::Incomplete);
}

#[test]
fn append_transcript_appends_to_text_parts_only() {
    let mut base = assistant(vec![text("Hel"), audio_part()]);
    base.append_transcript(0, "lo");
    base.append_transcript(1, "ignored");
    base.append_transcript(7, "ignored");
    match &base {
        BaseItem::Assistant(a) => {
            assert_eq!(part_text(&a.content[0]), Some("Hello".to_string()));
            assert_eq!(part_text(&a.content[1]), None);
            assert_eq!(a.content.len(), 2);
        }
        _ => panic!("variant changed"),
    }
    assert_eq!(base.content_part_count(), 2);
}

#[test]
fn set_content_transcript_replaces_text() {
    let mut base = BaseItem::System(SystemItem {
        item_type: BaseItemType::Message,
        status: ItemStatus::Completed,
        role: Role::System,
        content: vec![TextContent { content_type: ContentType::InputText, text: "old".to_string() }],
    });
    base.set_content_transcript(0, "new");
    match &base {
        BaseItem::System(s) => {
            assert_eq!(s.content[0].text, "new");
            assert_eq!(s.content[0].content_type, ContentType::InputText);
        }
        _ => panic!("variant changed"),
    }
    let mut user = BaseItem::User(UserItem {
        item_type: BaseItemType::Message,
        status: ItemStatus::Completed,
        role: Role::User,
        content: vec![audio_part()],
    });
    user.set_content_transcript(0, "spoken");
    match &user {
        BaseItem::User(u) => assert_eq!(part_text(&u.content[0]), None),
        _ => panic!("variant changed"),
    }
}

#[test]
fn item_appends_transcript_to_part_and_formatted() {
    let mut item = item_with(assistant(vec![text("a")]), "item_x");
    item.append_transcript(0, "b");
    item.append_transcript(0, "c");
    assert_eq!(item.formatted.formatted.transcript, "bc");
    match &item.base {
        BaseItem::Assistant(a) => assert_eq!(part_text(&a.content[0]), Some("abc".to_string())),
        _ => panic!("variant changed"),
    }
}

#[test]
fn item_formatted_setters() {
    let mut item = item_with(assistant(vec![]), "item_y");
    item.set_formatted_audio(vec![1, 2]);
    item.append_formatted_audio(vec![3]);
    assert_eq!(item.formatted.formatted.audio, vec![1i16, 2, 3]);
    item.set_formatted_text("text".to_string());
    item.set_formatted_transcript("words".to_string());
    item.set_formatted_output("out".to_string());
    item.set_formatted_tool(FormattedTool {
        tool_type: "function".to_string(),
        name: "f".to_string(),
        call_id: "c".to_string(),
        arguments: None,
    });
    assert_eq!(item.formatted.formatted.text, "text");
    assert_eq!(item.formatted.formatted.transcript, "words");
    assert_eq!(item.formatted.formatted.output.as_deref(), Some("out"));
    assert_eq!(item.formatted.formatted.tool.as_ref().map(|t| t.name.clone()), Some("f".to_string()));
}

#[test]
fn item_type_role_and_status() {
    let item = item_with(assistant(vec![]), "i");
    assert_eq!(item.get_type(), BaseItemType::Message);
    assert_eq!(item.get_role(), Some(Role::Assistant));
    assert_eq!(item.status(), Some(ItemStatus::InProgress));
    let call = item_with(
        BaseItem::FunctionCall(FunctionCallItem {
            item_type: BaseItemType::FunctionCall,
            status: ItemStatus::Completed,
            call_id: "c".to_string(),
            name: "f".to_string(),
            arguments: String::new(),
        }),
        "j",
    );
    assert_eq!(call.get_type(), BaseItemType::FunctionCall);
    assert_eq!(call.get_role(), None);
    assert_eq!(call.status(), None);
}

#[test]
fn new_item_gets_fresh_id_and_empty_formatting() {
    let item = Item::new(assistant(vec![]));
    assert!(item.formatted.id.starts_with("item_"));
    assert_eq!(item.formatted.id.len(), 16);
    assert_eq!(item.formatted.object, "conversation.item");
    assert!(item.formatted.previous_item_id.is_none());
    assert!(item.formatted.formatted.audio.is_empty());
    assert!(item.formatted.formatted.text.is_empty());
    let other = Item::new(assistant(vec![]));
    assert_ne!(item.formatted.id, other.formatted.id);
}

#[test]
fn audio_content_from_samples() {
    let content = AudioContent::from_audio(&[1, 2]);
    assert_eq!(content.content_type, ContentType::InputAudio);
    assert_eq!(content.audio.as_deref(), Some("AQACAA=="));
    assert!(content.transcript.is_none());
}

#[test]
fn content_parts_from_contents() {
    let p: ContentPart = TextContent { content_type: ContentType::InputText, text: "hi".to_string() }.into();
    assert_eq!(part_text(&p), Some("hi".to_string()));
    let a: ContentPart = AudioContent::from_audio(&[]).into();
    assert!(matches!(a, ContentPart::Audio(_)));
}

fn audio_transcript_of(p: &ContentPart) -> Option<String> {
    match p {
        ContentPart::Audio(a) => a.transcript.clone(),
        ContentPart::Text(_) => panic!("audio part expected"),
    }
}

#[test]
fn audio_parts_keep_their_transcript() {
    let mut base = assistant(vec![text("Hel"), audio_part()]);
    base.append_transcript(1, "ignored");
    base.set_content_transcript(1, "ignored");
    match &base {
        BaseItem::Assistant(a) => assert_eq!(audio_transcript_of(&a.content[1]), None),
        _ => panic!("variant changed"),
    }
    let mut user = BaseItem::User(UserItem {
        item_type: BaseItemType::Message,
        status: ItemStatus::Completed,
        role: Role::User,
        content: vec![ContentPart::Audio(AudioContent {
            content_type: ContentType::InputAudio,
            audio: None,
            transcript: Some("said".to_string()),
        })],
    });
    user.append_transcript(0, " more");
    user.set_content_transcript(0, "other");
    match &user {
        BaseItem::User(u) => assert_eq!(audio_transcript_of(&u.content[0]), Some("said".to_string())),
        _ => panic!("variant changed"),
    }
    let mut item = Item {
        base: user,
        formatted: FormattedItem {
            id: "i".to_string(),
            object: "realtime.item".to_string(),
            previous_item_id: None,
            formatted: FormattedProperty::default(),
        },
    };
    item.append_transcript(0, "x");
    item.set_content_transcript(0, "y");
    assert_eq!(item.formatted.formatted.transcript, "x");
    match &item.base {
        BaseItem::User(u) => assert_eq!(audio_transcript_of(&u.content[0]), Some("said".to_string())),
        _ => panic!("variant changed"),
    }
}
