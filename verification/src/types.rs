use vstd::prelude::*;

use crate::item::{ContentType, Item, ItemView};
use crate::utils::{spec_base64_encode, pcm_le_bytes, pcm_fits_base64, RealtimeUtils};

verus! {

/// JSON values carried through unchanged (tool parameters, error payloads,
/// attached files and raw event payloads).
#[verifier::external_type_specification]
#[verifier::external_body]
pub struct ExJsonValue(serde_json::Value);

/// `serde_json::Value` derives `Clone`: the clone is the same JSON tree.
pub assume_specification[ <serde_json::Value as Clone>::clone ](v: &serde_json::Value) -> (r:
    serde_json::Value)
    ensures
        r == *v,
;

/// The character sequence of an optional string.
pub open spec fn opt_chars(o: Option<String>) -> Option<Seq<char>> {
    match o {
        Some(s) => Some(s@),
        None => None,
    }
}

/// The sample sequence of optional audio.
pub open spec fn opt_samples(o: Option<Vec<i16>>) -> Option<Seq<i16>> {
    match o {
        Some(v) => Some(v@),
        None => None,
    }
}

pub fn clone_opt_string(o: &Option<String>) -> (r: Option<String>)
    ensures
        r == *o,
{
    match o {
        Some(s) => Some(s.clone()),
        None => None,
    }
}

pub fn clone_samples(v: &Vec<i16>) -> (r: Vec<i16>)
    ensures
        r@ == v@,
{
    let r = v.clone();
    assert(r@ =~= v@);
    r
}

pub fn clone_opt_samples(o: &Option<Vec<i16>>) -> (r: Option<Vec<i16>>)
    ensures
        opt_samples(r) == opt_samples(*o),
{
    match o {
        Some(v) => Some(clone_samples(v)),
        None => None,
    }
}

/// Speech that the server detected in the input audio buffer, kept until the
/// conversation item it belongs to is created.
#[derive(Debug)]
pub struct QueuedSpeech {
    pub audio_start_ms: u64,
    pub audio_end_ms: Option<u64>,
    pub audio: Option<Vec<i16>>,
}

pub struct QueuedSpeechView {
    pub audio_start_ms: u64,
    pub audio_end_ms: Option<u64>,
    pub audio: Option<Seq<i16>>,
}

impl View for QueuedSpeech {
    type V = QueuedSpeechView;

    open spec fn view(&self) -> QueuedSpeechView {
        QueuedSpeechView {
            audio_start_ms: self.audio_start_ms,
            audio_end_ms: self.audio_end_ms,
            audio: opt_samples(self.audio),
        }
    }
}

impl Clone for QueuedSpeech {
    fn clone(&self) -> (r: Self)
        ensures
            r@ == self@,
    {
        QueuedSpeech {
            audio_start_ms: self.audio_start_ms,
            audio_end_ms: self.audio_end_ms,
            audio: clone_opt_samples(&self.audio),
        }
    }
}

/// A transcript that arrived before the item it belongs to.
#[derive(Debug)]
pub struct QueuedTranscript {
    pub transcript: String,
}

impl Clone for QueuedTranscript {
    fn clone(&self) -> (r: Self)
        ensures
            r == *self,
    {
        QueuedTranscript { transcript: self.transcript.clone() }
    }
}

#[derive(Debug)]
pub struct TextContent {
    pub content_type: ContentType,
    pub text: String,
}

pub struct TextContentView {
    pub content_type: ContentType,
    pub text: Seq<char>,
}

impl View for TextContent {
    type V = TextContentView;

    open spec fn view(&self) -> TextContentView {
        TextContentView { content_type: self.content_type, text: self.text@ }
    }
}

impl Clone for TextContent {
    fn clone(&self) -> (r: Self)
        ensures
            r == *self,
    {
        TextContent { content_type: self.content_type, text: self.text.clone() }
    }
}

#[derive(Debug)]
pub struct AudioContent {
    pub content_type: ContentType,
    /// empty if we get it back as confirmation that it was processed
    pub audio: Option<String>,
    pub transcript: Option<String>,
}

pub struct AudioContentView {
    pub content_type: ContentType,
    pub audio: Option<Seq<char>>,
    pub transcript: Option<Seq<char>>,
}

impl View for AudioContent {
    type V = AudioContentView;

    open spec fn view(&self) -> AudioContentView {
        AudioContentView {
            content_type: self.content_type,
            audio: opt_chars(self.audio),
            transcript: opt_chars(self.transcript),
        }
    }
}

impl Clone for AudioContent {
    fn clone(&self) -> (r: Self)
        ensures
            r == *self,
    {
        AudioContent {
            content_type: self.content_type,
            audio: clone_opt_string(&self.audio),
            transcript: clone_opt_string(&self.transcript),
        }
    }
}

impl AudioContent {
    /// Input audio content holding the base64 text of the samples'
    /// little-endian bytes.
    pub fn from_audio(audio: &[i16]) -> (r: Self)
        requires
            pcm_fits_base64(audio@.len()),
        ensures
            r.content_type == ContentType::InputAudio,
            r.audio matches Some(a) && a@ == spec_base64_encode(pcm_le_bytes(audio@)),
            r.transcript is None,
    {
        let audio_base64 = RealtimeUtils::array_buffer_to_base64(audio);
        AudioContent { content_type: ContentType::InputAudio, audio: Some(audio_base64), transcript: None }
    }
}

pub type AssistantContentType = ContentPart;

pub type UserContentType = ContentPart;

#[derive(Debug)]
pub enum ContentPart {
    Text(TextContent),
    Audio(AudioContent),
}

pub enum ContentPartView {
    Text(TextContentView),
    Audio(AudioContentView),
}

impl View for ContentPart {
    type V = ContentPartView;

    open spec fn view(&self) -> ContentPartView {
        match self {
            ContentPart::Text(t) => ContentPartView::Text(t@),
            ContentPart::Audio(a) => ContentPartView::Audio(a@),
        }
    }
}

impl Clone for ContentPart {
    fn clone(&self) -> (r: Self)
        ensures
            r == *self,
    {
        match self {
            ContentPart::Text(t) => ContentPart::Text(t.clone()),
            ContentPart::Audio(a) => ContentPart::Audio(a.clone()),
        }
    }
}

impl From<TextContent> for ContentPart {
    fn from(t: TextContent) -> (r: ContentPart) {
        ContentPart::Text(t)
    }
}

impl vstd::std_specs::convert::FromSpecImpl<TextContent> for ContentPart {
    open spec fn obeys_from_spec() -> bool {
        true
    }

    open spec fn from_spec(t: TextContent) -> ContentPart {
        ContentPart::Text(t)
    }
}

impl From<AudioContent> for ContentPart {
    fn from(a: AudioContent) -> (r: ContentPart) {
        ContentPart::Audio(a)
    }
}

impl vstd::std_specs::convert::FromSpecImpl<AudioContent> for ContentPart {
    open spec fn obeys_from_spec() -> bool {
        true
    }

    open spec fn from_spec(a: AudioContent) -> ContentPart {
        ContentPart::Audio(a)
    }
}

#[derive(Debug)]
pub struct FormattedTool {
    pub tool_type: String,
    pub name: String,
    pub call_id: String,
    pub arguments: Option<String>,
}

pub struct FormattedToolView {
    pub tool_type: Seq<char>,
    pub name: Seq<char>,
    pub call_id: Seq<char>,
    pub arguments: Option<Seq<char>>,
}

impl View for FormattedTool {
    type V = FormattedToolView;

    open spec fn view(&self) -> FormattedToolView {
        FormattedToolView {
            tool_type: self.tool_type@,
            name: self.name@,
            call_id: self.call_id@,
            arguments: opt_chars(self.arguments),
        }
    }
}

impl Clone for FormattedTool {
    fn clone(&self) -> (r: Self)
        ensures
            r == *self,
    {
        FormattedTool {
            tool_type: self.tool_type.clone(),
            name: self.name.clone(),
            call_id: self.call_id.clone(),
            arguments: clone_opt_string(&self.arguments),
        }
    }
}

pub open spec fn opt_tool_view(o: Option<FormattedTool>) -> Option<FormattedToolView> {
    match o {
        Some(t) => Some(t@),
        None => None,
    }
}

/// The presentation of an item that the conversation accumulates from the
/// server's deltas.
#[derive(Debug)]
pub struct FormattedProperty {
    pub audio: Vec<i16>,
    pub text: String,
    pub transcript: String,
    pub tool: Option<FormattedTool>,
    pub output: Option<String>,
    pub file: Option<serde_json::Value>,
}

pub struct FormattedPropertyView {
    pub audio: Seq<i16>,
    pub text: Seq<char>,
    pub transcript: Seq<char>,
    pub tool: Option<FormattedToolView>,
    pub output: Option<Seq<char>>,
    pub file: Option<serde_json::Value>,
}

impl FormattedPropertyView {
    pub open spec fn empty() -> FormattedPropertyView {
        FormattedPropertyView {
            audio: Seq::empty(),
            text: Seq::empty(),
            transcript: Seq::empty(),
            tool: None,
            output: None,
            file: None,
        }
    }
}

impl View for FormattedProperty {
    type V = FormattedPropertyView;

    open spec fn view(&self) -> FormattedPropertyView {
        FormattedPropertyView {
            audio: self.audio@,
            text: self.text@,
            transcript: self.transcript@,
            tool: opt_tool_view(self.tool),
            output: opt_chars(self.output),
            file: self.file,
        }
    }
}

impl Clone for FormattedProperty {
    fn clone(&self) -> (r: Self)
        ensures
            r@ == self@,
    {
        let tool = match &self.tool {
            Some(t) => Some(t.clone()),
            None => None,
        };
        let file = match &self.file {
            Some(f) => Some(f.clone()),
            None => None,
        };
        FormattedProperty {
            audio: clone_samples(&self.audio),
            text: self.text.clone(),
            transcript: self.transcript.clone(),
            tool,
            output: clone_opt_string(&self.output),
            file,
        }
    }
}

impl Default for FormattedProperty {
    fn default() -> (r: Self)
        ensures
            r@ == FormattedPropertyView::empty(),
    {
        FormattedProperty {
            audio: Vec::new(),
            text: String::new(),
            transcript: String::new(),
            tool: None,
            output: None,
            file: None,
        }
    }
}


#[derive(Debug)]
pub enum IncompleteResponseStatusType {
    Incomplete { reason: String },
}

impl Clone for IncompleteResponseStatusType {
    fn clone(&self) -> (r: Self)
        ensures
            r == *self,
    {
        match self {
            IncompleteResponseStatusType::Incomplete { reason } => {
                IncompleteResponseStatusType::Incomplete { reason: reason.clone() }
            },
        }
    }
}

#[derive(Debug)]
pub struct CancelledResponseStatusType {
    pub reason: String,
}

impl Clone for CancelledResponseStatusType {
    fn clone(&self) -> (r: Self)
        ensures
            r == *self,
    {
        CancelledResponseStatusType { reason: self.reason.clone() }
    }
}

#[derive(Debug)]
pub enum FailedResponseStatusType {
    Failed { error: Option<serde_json::Value> },
}

impl Clone for FailedResponseStatusType {
    fn clone(&self) -> (r: Self)
        ensures
            r == *self,
    {
        match self {
            FailedResponseStatusType::Failed { error } => {
                let error = match error {
                    Some(e) => Some(e.clone()),
                    None => None,
                };
                FailedResponseStatusType::Failed { error }
            },
        }
    }
}

#[derive(Debug, Clone, Copy, PartialEq, Eq, Structural)]
pub struct UsageType {
    pub total_tokens: u32,
    pub input_tokens: u32,
    pub output_tokens: u32,
}

#[derive(Debug)]
pub enum ResponseStatusDetails {
    Cancelled(CancelledResponseStatusType),
    Incomplete(IncompleteResponseStatusType),
    Failed(FailedResponseStatusType),
}

impl Clone for ResponseStatusDetails {
    fn clone(&self) -> (r: Self)
        ensures
            r == *self,
    {
        match self {
            ResponseStatusDetails::Cancelled(c) => ResponseStatusDetails::Cancelled(c.clone()),
            ResponseStatusDetails::Incomplete(i) => ResponseStatusDetails::Incomplete(i.clone()),
            ResponseStatusDetails::Failed(f) => ResponseStatusDetails::Failed(f.clone()),
        }
    }
}

#[derive(Debug)]
pub struct ResponseResourceType {
    pub id: String,
    pub object: String,
    pub status: String,
    pub status_details: Option<ResponseStatusDetails>,
    pub output: Vec<Item>,
    pub usage: Option<UsageType>,
}

pub struct ResponseResourceView {
    pub id: Seq<char>,
    pub object: Seq<char>,
    pub status: Seq<char>,
    pub status_details: Option<ResponseStatusDetails>,
    pub output: Seq<ItemView>,
    pub usage: Option<UsageType>,
}

impl View for ResponseResourceType {
    type V = ResponseResourceView;

    open spec fn view(&self) -> ResponseResourceView {
        ResponseResourceView {
            id: self.id@,
            object: self.object@,
            status: self.status@,
            status_details: self.status_details,
            output: self.output@.map_values(|i: Item| i@),
            usage: self.usage,
        }
    }
}

impl Clone for ResponseResourceType {
    fn clone(&self) -> (r: Self)
        ensures
            r@ == self@,
    {
        let status_details = match &self.status_details {
            Some(d) => Some(d.clone()),
            None => None,
        };
        let output = self.output.clone();
        assert(output@.map_values(|i: Item| i@) =~= self.output@.map_values(|i: Item| i@));
        ResponseResourceType {
            id: self.id.clone(),
            object: self.object.clone(),
            status: self.status.clone(),
            status_details,
            output,
            usage: self.usage,
        }
    }
}

#[derive(Debug, Clone)]
pub struct ConversationItemTruncate {
    pub item_id: String,
    pub audio_end_ms: i64,
}

/// The envelope of every message exchanged with the server.
#[derive(Debug, Clone)]
pub struct ApiEvent<T> {
    pub event_id: String,
    pub event_type: String,
    pub data: Option<T>,
}

#[derive(Debug, Clone)]
pub struct ResponseAudioDoneEvent {
    pub event_id: String,
    pub content_index: usize,
    pub item_id: String,
    pub output_index: u32,
    pub response_id: String,
}

#[derive(Debug, Clone)]
pub struct ResponseAudioTranscriptDoneEvent {
    pub event_id: String,
    pub content_index: usize,
    pub item_id: String,
    pub output_index: u32,
    pub response_id: String,
    pub transcript: String,
    pub event_type: Option<String>,
}

#[derive(Debug, Clone)]
pub struct ResponseContentPartDoneEvent {
    pub event_id: String,
    pub content_index: usize,
    pub item_id: String,
    pub output_index: u32,
    pub response_id: String,
    pub part: ContentPart,
    pub event_type: Option<String>,
}

#[derive(Debug, Clone)]
pub struct ResponseOutputItemDoneEvent {
    pub event_id: String,
    pub output_index: u32,
    pub response_id: String,
    pub item: Item,
    pub event_type: Option<String>,
}

#[derive(Debug, Clone)]
pub struct ResponseAudioDeltaEvent {
    pub output_index: u32,
    pub content_index: u32,
    pub response_id: String,
    pub item_id: String,
    /// base64 encoded PCM16 samples
    pub delta: String,
    pub event_type: Option<String>,
}

/// One rate limit; the seconds until it resets are kept as the bits of the
/// single-precision number that the server sends.
#[derive(Debug, Clone)]
pub struct RateLimitsUpdatedEventItem {
    pub limit: u32,
    pub name: String,
    pub remaining: u32,
    pub reset_seconds_bits: u32,
}

} // verus!
