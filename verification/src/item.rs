use vstd::prelude::*;

use crate::types::{
    clone_opt_string, opt_chars, opt_samples, AudioContent, AudioContentView, ContentPart, ContentPartView, FormattedProperty,
    FormattedPropertyView, FormattedTool, FormattedToolView, TextContent, TextContentView,
};
use crate::utils::{RealtimeUtils, generated_id};

verus! {

#[derive(Debug, Clone, Copy, PartialEq, Eq, Structural)]
pub enum Role {
    System,
    Assistant,
    User,
}

#[derive(Debug, Clone, Copy, PartialEq, Eq, Structural)]
pub enum ItemStatus {
    InProgress,
    Completed,
    Incomplete,
    Failed,
}

#[derive(Debug, Clone, Copy, PartialEq, Eq, Structural)]
pub enum ContentType {
    InputAudio,
    Audio,
    InputText,
    Text,
}

#[derive(Debug, Clone, Copy, PartialEq, Eq, Structural)]
pub enum FunctionItemType {
    FunctionCall,
    FunctionCallOutput,
}

#[derive(Debug, Clone, Copy, PartialEq, Eq, Structural)]
pub enum BaseItemType {
    FunctionCall,
    FunctionCallOutput,
    Message,
}

/// Which kind of item a serialized item stands for.
#[derive(Debug, Clone, Copy, PartialEq, Eq, Structural)]
pub enum BaseItemKind {
    Assistant,
    User,
    System,
    FunctionCall,
    FunctionCallOutput,
}

/// The content of a message item (system, user or assistant), with its
/// content parts viewed.
pub struct MessageView<C> {
    pub item_type: BaseItemType,
    pub status: ItemStatus,
    pub role: Role,
    pub content: Seq<C>,
}

#[derive(Debug)]
pub struct SystemItem {
    pub item_type: BaseItemType,
    pub status: ItemStatus,
    pub role: Role,
    pub content: Vec<TextContent>,
}

impl View for SystemItem {
    type V = MessageView<TextContentView>;

    open spec fn view(&self) -> MessageView<TextContentView> {
        MessageView {
            item_type: self.item_type,
            status: self.status,
            role: self.role,
            content: self.content@.map_values(|c: TextContent| c@),
        }
    }
}

impl Clone for SystemItem {
    fn clone(&self) -> (r: Self)
        ensures
            r@ == self@,
    {
        let content = self.content.clone();
        assert(content@ =~= self.content@);
        SystemItem { item_type: self.item_type, status: self.status, role: self.role, content }
    }
}

#[derive(Debug)]
pub struct UserItem {
    pub item_type: BaseItemType,
    pub status: ItemStatus,
    pub role: Role,
    pub content: Vec<ContentPart>,
}

impl View for UserItem {
    type V = MessageView<ContentPartView>;

    open spec fn view(&self) -> MessageView<ContentPartView> {
        MessageView {
            item_type: self.item_type,
            status: self.status,
            role: self.role,
            content: self.content@.map_values(|c: ContentPart| c@),
        }
    }
}

impl Clone for UserItem {
    fn clone(&self) -> (r: Self)
        ensures
            r@ == self@,
    {
        let content = self.content.clone();
        assert(content@ =~= self.content@);
        UserItem { item_type: self.item_type, status: self.status, role: self.role, content }
    }
}

#[derive(Debug)]
pub struct AssistantItem {
    pub item_type: BaseItemType,
    pub status: ItemStatus,
    pub role: Role,
    pub content: Vec<ContentPart>,
}

impl View for AssistantItem {
    type V = MessageView<ContentPartView>;

    open spec fn view(&self) -> MessageView<ContentPartView> {
        MessageView {
            item_type: self.item_type,
            status: self.status,
            role: self.role,
            content: self.content@.map_values(|c: ContentPart| c@),
        }
    }
}

impl Clone for AssistantItem {
    fn clone(&self) -> (r: Self)
        ensures
            r@ == self@,
    {
        let content = self.content.clone();
        assert(content@ =~= self.content@);
        AssistantItem { item_type: self.item_type, status: self.status, role: self.role, content }
    }
}

#[derive(Debug)]
pub struct FunctionCallItem {
    pub item_type: BaseItemType,
    pub status: ItemStatus,
    pub call_id: String,
    pub name: String,
    pub arguments: String,
}

pub struct FunctionCallItemView {
    pub item_type: BaseItemType,
    pub status: ItemStatus,
    pub call_id: Seq<char>,
    pub name: Seq<char>,
    pub arguments: Seq<char>,
}

impl View for FunctionCallItem {
    type V = FunctionCallItemView;

    open spec fn view(&self) -> FunctionCallItemView {
        FunctionCallItemView {
            item_type: self.item_type,
            status: self.status,
            call_id: self.call_id@,
            name: self.name@,
            arguments: self.arguments@,
        }
    }
}

impl Clone for FunctionCallItem {
    fn clone(&self) -> (r: Self)
        ensures
            r == *self,
    {
        FunctionCallItem {
            item_type: self.item_type,
            status: self.status,
            call_id: self.call_id.clone(),
            name: self.name.clone(),
            arguments: self.arguments.clone(),
        }
    }
}

#[derive(Debug)]
pub struct FunctionCallOutputItem {
    pub item_type: BaseItemType,
    pub call_id: String,
    pub output: String,
}

pub struct FunctionCallOutputItemView {
    pub item_type: BaseItemType,
    pub call_id: Seq<char>,
    pub output: Seq<char>,
}

impl View for FunctionCallOutputItem {
    type V = FunctionCallOutputItemView;

    open spec fn view(&self) -> FunctionCallOutputItemView {
        FunctionCallOutputItemView {
            item_type: self.item_type,
            call_id: self.call_id@,
            output: self.output@,
        }
    }
}

impl Clone for FunctionCallOutputItem {
    fn clone(&self) -> (r: Self)
        ensures
            r == *self,
    {
        FunctionCallOutputItem {
            item_type: self.item_type,
            call_id: self.call_id.clone(),
            output: self.output.clone(),
        }
    }
}

#[derive(Debug)]
pub enum BaseItem {
    Assistant(AssistantItem),
    User(UserItem),
    System(SystemItem),
    FunctionCall(FunctionCallItem),
    FunctionCallOutput(FunctionCallOutputItem),
}

pub enum BaseItemView {
    Assistant(MessageView<ContentPartView>),
    User(MessageView<ContentPartView>),
    System(MessageView<TextContentView>),
    FunctionCall(FunctionCallItemView),
    FunctionCallOutput(FunctionCallOutputItemView),
}

impl View for BaseItem {
    type V = BaseItemView;

    open spec fn view(&self) -> BaseItemView {
        match self {
            BaseItem::Assistant(i) => BaseItemView::Assistant(i@),
            BaseItem::User(i) => BaseItemView::User(i@),
            BaseItem::System(i) => BaseItemView::System(i@),
            BaseItem::FunctionCall(i) => BaseItemView::FunctionCall(i@),
            BaseItem::FunctionCallOutput(i) => BaseItemView::FunctionCallOutput(i@),
        }
    }
}

impl Clone for BaseItem {
    fn clone(&self) -> (r: Self)
        ensures
            r@ == self@,
    {
        match self {
            BaseItem::Assistant(i) => BaseItem::Assistant(i.clone()),
            BaseItem::User(i) => BaseItem::User(i.clone()),
            BaseItem::System(i) => BaseItem::System(i.clone()),
            BaseItem::FunctionCall(i) => BaseItem::FunctionCall(i.clone()),
            BaseItem::FunctionCallOutput(i) => BaseItem::FunctionCallOutput(i.clone()),
        }
    }
}

/// Replaces the text of the text part at `i`, if there is one.
pub open spec fn with_part_text(parts: Seq<ContentPartView>, i: int, text: Seq<char>) -> Seq<
    ContentPartView,
> {
    if 0 <= i < parts.len() && parts[i] is Text {
        parts.update(
            i,
            ContentPartView::Text(
                TextContentView { content_type: parts[i]->Text_0.content_type, text },
            ),
        )
    } else {
        parts
    }
}

/// The text of the text part at `i` followed by `delta`, if there is such a part.
pub open spec fn part_text_appended(parts: Seq<ContentPartView>, i: int, delta: Seq<char>) -> Seq<
    ContentPartView,
> {
    if 0 <= i < parts.len() && parts[i] is Text {
        with_part_text(parts, i, parts[i]->Text_0.text + delta)
    } else {
        parts
    }
}

/// Replaces the text of the text part at `i`, or the transcript of the audio
/// part at `i`, if there is one (how the conversation records a transcript).
pub open spec fn with_part_transcript(parts: Seq<ContentPartView>, i: int, text: Seq<char>) -> Seq<
    ContentPartView,
> {
    if 0 <= i < parts.len() {
        match parts[i] {
            ContentPartView::Text(t) => parts.update(
                i,
                ContentPartView::Text(TextContentView { content_type: t.content_type, text }),
            ),
            ContentPartView::Audio(a) => parts.update(
                i,
                ContentPartView::Audio(AudioContentView { transcript: Some(text), ..a }),
            ),
        }
    } else {
        parts
    }
}

/// Replaces the text of the text content at `i`, if there is one.
pub open spec fn with_text_content_text(parts: Seq<TextContentView>, i: int, text: Seq<char>) -> Seq<
    TextContentView,
> {
    if 0 <= i < parts.len() {
        parts.update(i, TextContentView { content_type: parts[i].content_type, text })
    } else {
        parts
    }
}

/// The text of the text part at `i`, or the transcript of the audio part at
/// `i`, followed by `delta` (`delta` alone where an audio part has no transcript).
pub open spec fn part_transcript_appended(parts: Seq<ContentPartView>, i: int, delta: Seq<char>) -> Seq<
    ContentPartView,
> {
    if 0 <= i < parts.len() {
        match parts[i] {
            ContentPartView::Text(t) => with_part_transcript(parts, i, t.text + delta),
            ContentPartView::Audio(a) => with_part_transcript(
                parts,
                i,
                match a.transcript {
                    Some(t) => t + delta,
                    None => delta,
                },
            ),
        }
    } else {
        parts
    }
}

pub open spec fn text_content_appended(parts: Seq<TextContentView>, i: int, delta: Seq<char>) -> Seq<
    TextContentView,
> {
    if 0 <= i < parts.len() {
        with_text_content_text(parts, i, parts[i].text + delta)
    } else {
        parts
    }
}

/// What a content part contributes to its item's formatted text: the text of
/// a `text` or `input_text` part.
pub open spec fn part_shown_text(p: ContentPartView) -> Seq<char> {
    match p {
        ContentPartView::Text(t) => text_content_shown_text(t),
        ContentPartView::Audio(_) => Seq::empty(),
    }
}

pub open spec fn text_content_shown_text(t: TextContentView) -> Seq<char> {
    if t.content_type == ContentType::Text || t.content_type == ContentType::InputText {
        t.text
    } else {
        Seq::empty()
    }
}

/// The texts of the `text` and `input_text` parts, in order, joined.
pub open spec fn parts_shown_text(parts: Seq<ContentPartView>) -> Seq<char>
    decreases parts.len(),
{
    if parts.len() == 0 {
        Seq::empty()
    } else {
        parts_shown_text(parts.drop_last()) + part_shown_text(parts.last())
    }
}

/// The texts of the `text` and `input_text` contents, in order, joined.
pub open spec fn text_contents_shown_text(parts: Seq<TextContentView>) -> Seq<char>
    decreases parts.len(),
{
    if parts.len() == 0 {
        Seq::empty()
    } else {
        text_contents_shown_text(parts.drop_last()) + text_content_shown_text(parts.last())
    }
}

impl<C> MessageView<C> {
    pub open spec fn with_status(self, status: ItemStatus) -> MessageView<C> {
        MessageView { status, ..self }
    }

    pub open spec fn with_content(self, content: Seq<C>) -> MessageView<C> {
        MessageView { content, ..self }
    }
}

impl BaseItemView {
    /// The status; a function call output counts as completed.
    pub open spec fn status(self) -> ItemStatus {
        match self {
            BaseItemView::Assistant(m) => m.status,
            BaseItemView::User(m) => m.status,
            BaseItemView::System(m) => m.status,
            BaseItemView::FunctionCall(f) => f.status,
            BaseItemView::FunctionCallOutput(_) => ItemStatus::Completed,
        }
    }

    /// The same item with its status replaced; a function call output has none.
    pub open spec fn with_status(self, status: ItemStatus) -> BaseItemView {
        match self {
            BaseItemView::Assistant(m) => BaseItemView::Assistant(m.with_status(status)),
            BaseItemView::User(m) => BaseItemView::User(m.with_status(status)),
            BaseItemView::System(m) => BaseItemView::System(m.with_status(status)),
            BaseItemView::FunctionCall(f) => BaseItemView::FunctionCall(
                FunctionCallItemView { status, ..f },
            ),
            BaseItemView::FunctionCallOutput(o) => BaseItemView::FunctionCallOutput(o),
        }
    }

    /// `delta` appended to the text of text part `i`; other parts are left as they are.
    pub open spec fn with_text_appended(self, i: int, delta: Seq<char>) -> BaseItemView {
        match self {
            BaseItemView::Assistant(m) => BaseItemView::Assistant(
                m.with_content(part_text_appended(m.content, i, delta)),
            ),
            BaseItemView::User(m) => BaseItemView::User(
                m.with_content(part_text_appended(m.content, i, delta)),
            ),
            BaseItemView::System(m) => BaseItemView::System(
                m.with_content(text_content_appended(m.content, i, delta)),
            ),
            _ => self,
        }
    }

    /// The text of text part `i` replaced by `text`; other parts are left as they are.
    pub open spec fn with_text_set(self, i: int, text: Seq<char>) -> BaseItemView {
        match self {
            BaseItemView::Assistant(m) => BaseItemView::Assistant(
                m.with_content(with_part_text(m.content, i, text)),
            ),
            BaseItemView::User(m) => BaseItemView::User(
                m.with_content(with_part_text(m.content, i, text)),
            ),
            BaseItemView::System(m) => BaseItemView::System(
                m.with_content(with_text_content_text(m.content, i, text)),
            ),
            _ => self,
        }
    }

    /// A transcript delta recorded at part `i`: appended to the text of a text
    /// part, or to the transcript of an audio part.
    pub open spec fn with_transcript_appended_at(self, i: int, delta: Seq<char>) -> BaseItemView {
        match self {
            BaseItemView::Assistant(m) => BaseItemView::Assistant(
                m.with_content(part_transcript_appended(m.content, i, delta)),
            ),
            BaseItemView::User(m) => BaseItemView::User(
                m.with_content(part_transcript_appended(m.content, i, delta)),
            ),
            BaseItemView::System(m) => BaseItemView::System(
                m.with_content(text_content_appended(m.content, i, delta)),
            ),
            _ => self,
        }
    }

    /// A transcript recorded at part `i`: the text of a text part, or the
    /// transcript of an audio part, becomes `text`.
    pub open spec fn with_transcript_set_at(self, i: int, text: Seq<char>) -> BaseItemView {
        match self {
            BaseItemView::Assistant(m) => BaseItemView::Assistant(
                m.with_content(with_part_transcript(m.content, i, text)),
            ),
            BaseItemView::User(m) => BaseItemView::User(
                m.with_content(with_part_transcript(m.content, i, text)),
            ),
            BaseItemView::System(m) => BaseItemView::System(
                m.with_content(with_text_content_text(m.content, i, text)),
            ),
            _ => self,
        }
    }

    pub open spec fn kind(self) -> BaseItemKind {
        match self {
            BaseItemView::Assistant(_) => BaseItemKind::Assistant,
            BaseItemView::User(_) => BaseItemKind::User,
            BaseItemView::System(_) => BaseItemKind::System,
            BaseItemView::FunctionCall(_) => BaseItemKind::FunctionCall,
            BaseItemView::FunctionCallOutput(_) => BaseItemKind::FunctionCallOutput,
        }
    }

    pub open spec fn content_part_count(self) -> nat {
        match self {
            BaseItemView::Assistant(m) => m.content.len(),
            BaseItemView::User(m) => m.content.len(),
            BaseItemView::System(m) => m.content.len(),
            _ => 0,
        }
    }

    pub open spec fn item_type(self) -> BaseItemType {
        match self {
            BaseItemView::Assistant(m) => m.item_type,
            BaseItemView::User(m) => m.item_type,
            BaseItemView::System(m) => m.item_type,
            BaseItemView::FunctionCall(f) => f.item_type,
            BaseItemView::FunctionCallOutput(o) => o.item_type,
        }
    }

    pub open spec fn role(self) -> Option<Role> {
        match self {
            BaseItemView::Assistant(m) => Some(m.role),
            BaseItemView::User(m) => Some(m.role),
            BaseItemView::System(m) => Some(m.role),
            _ => None,
        }
    }

    /// The text that a message shows on creation: its `text` and `input_text`
    /// parts joined; function items show none.
    pub open spec fn shown_text(self) -> Seq<char> {
        match self {
            BaseItemView::Assistant(m) => parts_shown_text(m.content),
            BaseItemView::User(m) => parts_shown_text(m.content),
            BaseItemView::System(m) => text_contents_shown_text(m.content),
            _ => Seq::empty(),
        }
    }

    /// The status of a message item; function items have none here.
    pub open spec fn message_status(self) -> Option<ItemStatus> {
        match self {
            BaseItemView::Assistant(m) => Some(m.status),
            BaseItemView::User(m) => Some(m.status),
            BaseItemView::System(m) => Some(m.status),
            _ => None,
        }
    }
}

/// Which kind of item a serialized item with these `role` and `type` fields
/// stands for: the role decides wherever there is one, the type otherwise.
pub open spec fn spec_kind_for(role: Option<Role>, item_type: Option<BaseItemType>) -> Option<
    BaseItemKind,
> {
    match role {
        Some(Role::Assistant) => Some(BaseItemKind::Assistant),
        Some(Role::User) => Some(BaseItemKind::User),
        Some(Role::System) => Some(BaseItemKind::System),
        None => match item_type {
            Some(BaseItemType::FunctionCall) => Some(BaseItemKind::FunctionCall),
            Some(BaseItemType::FunctionCallOutput) => Some(BaseItemKind::FunctionCallOutput),
            _ => None,
        },
    }
}

/// The texts of the `text` and `input_text` parts, in order, joined.
fn parts_text(content: &Vec<ContentPart>) -> (r: String)
    ensures
        r@ == parts_shown_text(content@.map_values(|c: ContentPart| c@)),
{
    let ghost parts = content@.map_values(|c: ContentPart| c@);
    let mut out = String::new();
    let mut i: usize = 0;
    while i < content.len()
        invariant
            i <= content@.len(),
            parts == content@.map_values(|c: ContentPart| c@),
            out@ == parts_shown_text(parts.subrange(0, i as int)),
        decreases content@.len() - i,
    {
        match &content[i] {
            ContentPart::Text(t) => {
                if t.content_type == ContentType::Text || t.content_type == ContentType::InputText {
                    out.append(t.text.as_str());
                }
            },
            ContentPart::Audio(_) => {},
        }
        assert(parts.subrange(0, i as int + 1).drop_last() =~= parts.subrange(0, i as int));
        i = i + 1;
    }
    assert(parts.subrange(0, parts.len() as int) =~= parts);
    out
}

/// Replaces the text of the text part at `i`, if there is one.
fn set_text_part(content: &mut Vec<ContentPart>, i: usize, text: &str)
    ensures
        final(content)@.map_values(|c: ContentPart| c@) == with_part_text(
            old(content)@.map_values(|c: ContentPart| c@),
            i as int,
            text@,
        ),
{
    let ghost before = content@.map_values(|c: ContentPart| c@);
    if i < content.len() {
        if let ContentPart::Text(t) = &content[i] {
            let part = ContentPart::Text(TextContent { content_type: t.content_type, text: text.to_owned() });
            content.set(i, part);
        }
    }
    assert(content@.map_values(|c: ContentPart| c@) =~= with_part_text(before, i as int, text@));
}

/// Appends `delta` to the text of the text part at `i`, if there is one.
fn append_text_part(content: &mut Vec<ContentPart>, i: usize, delta: &str)
    ensures
        final(content)@.map_values(|c: ContentPart| c@) == part_text_appended(
            old(content)@.map_values(|c: ContentPart| c@),
            i as int,
            delta@,
        ),
{
    let ghost before = content@.map_values(|c: ContentPart| c@);
    if i < content.len() {
        if let ContentPart::Text(t) = &content[i] {
            let mut joined = t.text.clone();
            joined.append(delta);
            set_text_part(content, i, joined.as_str());
        }
    }
    assert(content@.map_values(|c: ContentPart| c@) =~= part_text_appended(before, i as int, delta@));
}

/// Replaces the text of the text content at `i`, if there is one.
fn set_text_content(content: &mut Vec<TextContent>, i: usize, text: &str)
    ensures
        final(content)@.map_values(|c: TextContent| c@) == with_text_content_text(
            old(content)@.map_values(|c: TextContent| c@),
            i as int,
            text@,
        ),
{
    let ghost before = content@.map_values(|c: TextContent| c@);
    if i < content.len() {
        let ct = content[i].content_type;
        content.set(i, TextContent { content_type: ct, text: text.to_owned() });
    }
    assert(content@.map_values(|c: TextContent| c@) =~= with_text_content_text(before, i as int, text@));
}

/// Appends `delta` to the text of the text content at `i`, if there is one.
fn append_text_content(content: &mut Vec<TextContent>, i: usize, delta: &str)
    ensures
        final(content)@.map_values(|c: TextContent| c@) == text_content_appended(
            old(content)@.map_values(|c: TextContent| c@),
            i as int,
            delta@,
        ),
{
    let ghost before = content@.map_values(|c: TextContent| c@);
    if i < content.len() {
        let mut joined = content[i].text.clone();
        joined.append(delta);
        set_text_content(content, i, joined.as_str());
    }
    assert(content@.map_values(|c: TextContent| c@) =~= text_content_appended(before, i as int, delta@));
}

/// Replaces the text of the text part at `i`, or the transcript of the audio part at `i`.
fn set_part_transcript(content: &mut Vec<ContentPart>, i: usize, text: &str)
    ensures
        final(content)@.map_values(|c: ContentPart| c@) == with_part_transcript(
            old(content)@.map_values(|c: ContentPart| c@),
            i as int,
            text@,
        ),
{
    let ghost before = content@.map_values(|c: ContentPart| c@);
    if i < content.len() {
        let part = match &content[i] {
            ContentPart::Text(t) => ContentPart::Text(
                TextContent { content_type: t.content_type, text: text.to_owned() },
            ),
            ContentPart::Audio(a) => ContentPart::Audio(
                AudioContent {
                    content_type: a.content_type,
                    audio: clone_opt_string(&a.audio),
                    transcript: Some(text.to_owned()),
                },
            ),
        };
        content.set(i, part);
    }
    assert(content@.map_values(|c: ContentPart| c@) =~= with_part_transcript(before, i as int, text@));
}

/// Appends `delta` to the text of the text part at `i`, or to the transcript
/// of the audio part at `i`.
fn append_part_transcript(content: &mut Vec<ContentPart>, i: usize, delta: &str)
    ensures
        final(content)@.map_values(|c: ContentPart| c@) == part_transcript_appended(
            old(content)@.map_values(|c: ContentPart| c@),
            i as int,
            delta@,
        ),
{
    let ghost before = content@.map_values(|c: ContentPart| c@);
    if i < content.len() {
        let mut joined = match &content[i] {
            ContentPart::Text(t) => t.text.clone(),
            ContentPart::Audio(a) => match &a.transcript {
                Some(t) => t.clone(),
                None => String::new(),
            },
        };
        joined.append(delta);
        set_part_transcript(content, i, joined.as_str());
    }
    assert(content@.map_values(|c: ContentPart| c@) =~= part_transcript_appended(before, i as int, delta@));
}

impl BaseItem {
    /// The variant that a serialized item deserializes into, from its `role`
    /// and `type` fields; `None` where neither names one.
    pub fn kind_for(role: Option<Role>, item_type: Option<BaseItemType>) -> (r: Option<BaseItemKind>)
        ensures
            r == spec_kind_for(role, item_type),
    {
        match role {
            Some(Role::Assistant) => Some(BaseItemKind::Assistant),
            Some(Role::User) => Some(BaseItemKind::User),
            Some(Role::System) => Some(BaseItemKind::System),
            None => match item_type {
                Some(BaseItemType::FunctionCall) => Some(BaseItemKind::FunctionCall),
                Some(BaseItemType::FunctionCallOutput) => Some(BaseItemKind::FunctionCallOutput),
                _ => None,
            },
        }
    }

    /// Which variant this is.
    pub fn kind(&self) -> (r: BaseItemKind)
        ensures
            r == self@.kind(),
    {
        match self {
            BaseItem::Assistant(_) => BaseItemKind::Assistant,
            BaseItem::User(_) => BaseItemKind::User,
            BaseItem::System(_) => BaseItemKind::System,
            BaseItem::FunctionCall(_) => BaseItemKind::FunctionCall,
            BaseItem::FunctionCallOutput(_) => BaseItemKind::FunctionCallOutput,
        }
    }

    pub fn set_status(&mut self, status: ItemStatus)
        ensures
            final(self)@ == old(self)@.with_status(status),
    {
        match self {
            BaseItem::System(item) => item.status = status,
            BaseItem::User(item) => item.status = status,
            BaseItem::Assistant(item) => item.status = status,
            BaseItem::FunctionCall(item) => item.status = status,
            BaseItem::FunctionCallOutput(_) => {},
        }
    }

    pub fn status(&self) -> (r: ItemStatus)
        ensures
            r == self@.status(),
    {
        match self {
            BaseItem::System(item) => item.status,
            BaseItem::User(item) => item.status,
            BaseItem::Assistant(item) => item.status,
            BaseItem::FunctionCall(item) => item.status,
            BaseItem::FunctionCallOutput(_) => ItemStatus::Completed,
        }
    }

    /// Appends `delta` to the text of text part `content_index`; other parts,
    /// missing parts and function items are left as they are.
    pub fn append_transcript(&mut self, content_index: usize, delta: &str)
        ensures
            final(self)@ == old(self)@.with_text_appended(content_index as int, delta@),
    {
        match self {
            BaseItem::System(item) => append_text_content(&mut item.content, content_index, delta),
            BaseItem::User(item) => append_text_part(&mut item.content, content_index, delta),
            BaseItem::Assistant(item) => append_text_part(&mut item.content, content_index, delta),
            _ => {},
        }
    }

    /// Replaces the text of text part `content_index` by `delta`; other parts,
    /// missing parts and function items are left as they are.
    pub fn set_content_transcript(&mut self, content_index: usize, delta: &str)
        ensures
            final(self)@ == old(self)@.with_text_set(content_index as int, delta@),
    {
        match self {
            BaseItem::System(item) => set_text_content(&mut item.content, content_index, delta),
            BaseItem::User(item) => set_text_part(&mut item.content, content_index, delta),
            BaseItem::Assistant(item) => set_text_part(&mut item.content, content_index, delta),
            _ => {},
        }
    }

    /// Records a transcript delta at part `content_index`: appended to the
    /// text of a text part, or to the transcript of an audio part.
    pub(crate) fn append_part_transcript(&mut self, content_index: usize, delta: &str)
        ensures
            final(self)@ == old(self)@.with_transcript_appended_at(content_index as int, delta@),
    {
        match self {
            BaseItem::System(item) => append_text_content(&mut item.content, content_index, delta),
            BaseItem::User(item) => append_part_transcript(&mut item.content, content_index, delta),
            BaseItem::Assistant(item) => append_part_transcript(&mut item.content, content_index, delta),
            _ => {},
        }
    }

    /// Records a transcript at part `content_index`: the text of a text part,
    /// or the transcript of an audio part, becomes `text`.
    pub(crate) fn set_part_transcript(&mut self, content_index: usize, text: &str)
        ensures
            final(self)@ == old(self)@.with_transcript_set_at(content_index as int, text@),
    {
        match self {
            BaseItem::System(item) => set_text_content(&mut item.content, content_index, text),
            BaseItem::User(item) => set_part_transcript(&mut item.content, content_index, text),
            BaseItem::Assistant(item) => set_part_transcript(&mut item.content, content_index, text),
            _ => {},
        }
    }

    /// The text that the item shows on creation: the texts of its `text` and
    /// `input_text` parts, in order, joined.
    pub fn shown_text(&self) -> (r: String)
        ensures
            r@ == self@.shown_text(),
    {
        match self {
            BaseItem::System(item) => {
                let ghost parts = item.content@.map_values(|c: TextContent| c@);
                let mut out = String::new();
                let mut i: usize = 0;
                while i < item.content.len()
                    invariant
                        i <= item.content@.len(),
                        parts == item.content@.map_values(|c: TextContent| c@),
                        out@ == text_contents_shown_text(parts.subrange(0, i as int)),
                    decreases item.content@.len() - i,
                {
                    let t = &item.content[i];
                    if t.content_type == ContentType::Text || t.content_type == ContentType::InputText {
                        out.append(t.text.as_str());
                    }
                    assert(parts.subrange(0, i as int + 1).drop_last() =~= parts.subrange(0, i as int));
                    i = i + 1;
                }
                assert(parts.subrange(0, parts.len() as int) =~= parts);
                out
            },
            BaseItem::User(item) => parts_text(&item.content),
            BaseItem::Assistant(item) => parts_text(&item.content),
            _ => String::new(),
        }
    }

    pub fn is_complete(&self) -> (r: bool)
        ensures
            r == (self@.status() == ItemStatus::Completed),
    {
        self.status() == ItemStatus::Completed
    }

    pub fn content_part_count(&self) -> (r: usize)
        ensures
            r == self@.content_part_count(),
    {
        match self {
            BaseItem::System(item) => item.content.len(),
            BaseItem::User(item) => item.content.len(),
            BaseItem::Assistant(item) => item.content.len(),
            _ => 0,
        }
    }
}


#[derive(Debug)]
pub struct FormattedItem {
    pub id: String,
    pub object: String,
    pub previous_item_id: Option<String>,
    pub formatted: FormattedProperty,
}

pub struct FormattedItemView {
    pub id: Seq<char>,
    pub object: Seq<char>,
    pub previous_item_id: Option<Seq<char>>,
    pub formatted: FormattedPropertyView,
}

impl View for FormattedItem {
    type V = FormattedItemView;

    open spec fn view(&self) -> FormattedItemView {
        FormattedItemView {
            id: self.id@,
            object: self.object@,
            previous_item_id: opt_chars(self.previous_item_id),
            formatted: self.formatted@,
        }
    }
}

impl Clone for FormattedItem {
    fn clone(&self) -> (r: Self)
        ensures
            r@ == self@,
    {
        FormattedItem {
            id: self.id.clone(),
            object: self.object.clone(),
            previous_item_id: clone_opt_string(&self.previous_item_id),
            formatted: self.formatted.clone(),
        }
    }
}

impl FormattedItem {
    pub fn append_transcript(&mut self, delta: &str)
        ensures
            final(self)@ == (FormattedItemView {
                formatted: FormattedPropertyView {
                    transcript: old(self)@.formatted.transcript + delta@,
                    ..old(self)@.formatted
                },
                ..old(self)@
            }),
    {
        self.formatted.transcript.append(delta);
    }
}

/// The object name of items that the client creates.
pub const ITEM_OBJECT: &'static str = "conversation.item";

/// The prefix of the ids of items that the client creates.
pub const ITEM_ID_PREFIX: &'static str = "item_";

/// The length of the ids of items that the client creates.
pub const ITEM_ID_LENGTH: usize = 16;

#[derive(Debug)]
pub struct Item {
    pub base: BaseItem,
    pub formatted: FormattedItem,
}

pub struct ItemView {
    pub base: BaseItemView,
    pub formatted: FormattedItemView,
}

impl View for Item {
    type V = ItemView;

    open spec fn view(&self) -> ItemView {
        ItemView { base: self.base@, formatted: self.formatted@ }
    }
}

impl Clone for Item {
    fn clone(&self) -> (r: Self)
        ensures
            r@ == self@,
    {
        Item { base: self.base.clone(), formatted: self.formatted.clone() }
    }
}

impl ItemView {
    pub open spec fn id(self) -> Seq<char> {
        self.formatted.id
    }

    pub open spec fn props(self) -> FormattedPropertyView {
        self.formatted.formatted
    }

    pub open spec fn with_base(self, base: BaseItemView) -> ItemView {
        ItemView { base, ..self }
    }

    pub open spec fn with_props(self, props: FormattedPropertyView) -> ItemView {
        ItemView { formatted: FormattedItemView { formatted: props, ..self.formatted }, ..self }
    }

    pub open spec fn with_audio(self, audio: Seq<i16>) -> ItemView {
        self.with_props(FormattedPropertyView { audio, ..self.props() })
    }

    pub open spec fn with_text(self, text: Seq<char>) -> ItemView {
        self.with_props(FormattedPropertyView { text, ..self.props() })
    }

    pub open spec fn with_transcript(self, transcript: Seq<char>) -> ItemView {
        self.with_props(FormattedPropertyView { transcript, ..self.props() })
    }

    pub open spec fn with_tool(self, tool: Option<FormattedToolView>) -> ItemView {
        self.with_props(FormattedPropertyView { tool, ..self.props() })
    }

    pub open spec fn with_output(self, output: Option<Seq<char>>) -> ItemView {
        self.with_props(FormattedPropertyView { output, ..self.props() })
    }

    /// Both the text of content part `i` and the formatted text get `delta` appended.
    pub open spec fn with_text_delta(self, i: int, delta: Seq<char>) -> ItemView {
        self.with_base(self.base.with_text_appended(i, delta)).with_text(self.props().text + delta)
    }

    /// Both the text of text part `i` and the formatted transcript get `delta` appended.
    pub open spec fn with_transcript_appended(self, i: int, delta: Seq<char>) -> ItemView {
        self.with_base(self.base.with_text_appended(i, delta)).with_transcript(
            self.props().transcript + delta,
        )
    }

    /// A transcript delta of the conversation: part `i` (the text of a text
    /// part, the transcript of an audio part) and the formatted transcript get
    /// `delta` appended.
    pub open spec fn with_transcript_delta(self, i: int, delta: Seq<char>) -> ItemView {
        self.with_base(self.base.with_transcript_appended_at(i, delta)).with_transcript(
            self.props().transcript + delta,
        )
    }
}

impl Item {
    /// A new item around `base`, with a fresh random id, no previous item and
    /// nothing formatted yet.
    pub fn new(base: BaseItem) -> (r: Self)
        ensures
            r@.base == base@,
            generated_id(r@.formatted.id, ITEM_ID_PREFIX, ITEM_ID_LENGTH),
            r@.formatted.object == ITEM_OBJECT@,
            r@.formatted.previous_item_id is None,
            r@.formatted.formatted == FormattedPropertyView::empty(),
    {
        Item {
            base,
            formatted: FormattedItem {
                id: RealtimeUtils::generate_id(ITEM_ID_PREFIX, ITEM_ID_LENGTH),
                object: ITEM_OBJECT.to_owned(),
                previous_item_id: None,
                formatted: FormattedProperty::default(),
            },
        }
    }

    pub fn append_transcript(&mut self, content_idx: usize, delta: &str)
        ensures
            final(self)@ == old(self)@.with_transcript_appended(content_idx as int, delta@),
    {
        self.base.append_transcript(content_idx, delta);
        self.formatted.append_transcript(delta);
    }

    /// Records a transcript delta at part `content_idx` (the text of a text
    /// part, the transcript of an audio part) and in the formatted transcript.
    pub(crate) fn append_transcript_delta(&mut self, content_idx: usize, delta: &str)
        ensures
            final(self)@ == old(self)@.with_transcript_delta(content_idx as int, delta@),
    {
        self.base.append_part_transcript(content_idx, delta);
        self.formatted.append_transcript(delta);
    }

    /// Appends a text delta to content part `content_idx` and to the formatted text.
    pub fn append_text(&mut self, content_idx: usize, delta: &str)
        ensures
            final(self)@ == old(self)@.with_text_delta(content_idx as int, delta@),
    {
        self.base.append_transcript(content_idx, delta);
        self.formatted.formatted.text.append(delta);
    }

    pub fn set_content_transcript(&mut self, content_idx: usize, delta: &str)
        ensures
            final(self)@ == old(self)@.with_base(
                old(self)@.base.with_text_set(content_idx as int, delta@),
            ),
    {
        self.base.set_content_transcript(content_idx, delta);
    }

    pub fn append_formatted_audio(&mut self, audio: Vec<i16>)
        ensures
            final(self)@ == old(self)@.with_audio(old(self)@.props().audio + audio@),
    {
        let mut audio = audio;
        self.formatted.formatted.audio.append(&mut audio);
    }

    pub fn set_formatted_audio(&mut self, audio: Vec<i16>)
        ensures
            final(self)@ == old(self)@.with_audio(audio@),
    {
        self.formatted.formatted.audio = audio;
    }

    pub fn set_formatted_text(&mut self, text: String)
        ensures
            final(self)@ == old(self)@.with_text(text@),
    {
        self.formatted.formatted.text = text;
    }

    pub fn set_formatted_transcript(&mut self, transcript: String)
        ensures
            final(self)@ == old(self)@.with_transcript(transcript@),
    {
        self.formatted.formatted.transcript = transcript;
    }

    pub fn set_formatted_tool(&mut self, tool: FormattedTool)
        ensures
            final(self)@ == old(self)@.with_tool(Some(tool@)),
    {
        self.formatted.formatted.tool = Some(tool);
    }

    pub fn set_formatted_output(&mut self, output: String)
        ensures
            final(self)@ == old(self)@.with_output(Some(output@)),
    {
        self.formatted.formatted.output = Some(output);
    }

    pub fn get_type(&self) -> (r: BaseItemType)
        ensures
            r == self@.base.item_type(),
    {
        match &self.base {
            BaseItem::System(item) => item.item_type,
            BaseItem::User(item) => item.item_type,
            BaseItem::Assistant(item) => item.item_type,
            BaseItem::FunctionCall(item) => item.item_type,
            BaseItem::FunctionCallOutput(item) => item.item_type,
        }
    }

    pub fn get_role(&self) -> (r: Option<Role>)
        ensures
            r == self@.base.role(),
    {
        match &self.base {
            BaseItem::System(item) => Some(item.role),
            BaseItem::User(item) => Some(item.role),
            BaseItem::Assistant(item) => Some(item.role),
            BaseItem::FunctionCall(_) => None,
            BaseItem::FunctionCallOutput(_) => None,
        }
    }

    /// The status of a message item; `None` for function items.
    pub fn status(&self) -> (r: Option<ItemStatus>)
        ensures
            r == self@.base.message_status(),
    {
        match &self.base {
            BaseItem::System(item) => Some(item.status),
            BaseItem::User(item) => Some(item.status),
            BaseItem::Assistant(item) => Some(item.status),
            BaseItem::FunctionCall(_) => None,
            BaseItem::FunctionCallOutput(_) => None,
        }
    }
}

/// Contains text and audio information about an item.
/// Can also be used as a delta.
#[derive(Debug, Clone)]
pub struct ItemContentDelta {
    pub text: Option<String>,
    pub audio: Option<Vec<i16>>,
    pub arguments: Option<String>,
    pub transcript: Option<String>,
}

pub struct ItemContentDeltaView {
    pub text: Option<Seq<char>>,
    pub audio: Option<Seq<i16>>,
    pub arguments: Option<Seq<char>>,
    pub transcript: Option<Seq<char>>,
}

impl ItemContentDeltaView {
    pub open spec fn empty() -> ItemContentDeltaView {
        ItemContentDeltaView { text: None, audio: None, arguments: None, transcript: None }
    }
}

impl View for ItemContentDelta {
    type V = ItemContentDeltaView;

    open spec fn view(&self) -> ItemContentDeltaView {
        ItemContentDeltaView {
            text: opt_chars(self.text),
            audio: opt_samples(self.audio),
            arguments: opt_chars(self.arguments),
            transcript: opt_chars(self.transcript),
        }
    }
}

impl Default for ItemContentDelta {
    fn default() -> (r: Self)
        ensures
            r@ == ItemContentDeltaView::empty(),
    {
        ItemContentDelta { text: None, audio: None, arguments: None, transcript: None }
    }
}

} // verus!
