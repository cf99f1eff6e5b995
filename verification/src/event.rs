use vstd::prelude::*;

use crate::item::Item;
use crate::session::SessionConfig;
use crate::types::{
    ApiEvent, ContentPart, RateLimitsUpdatedEventItem, ResponseAudioDeltaEvent,
    ResponseAudioDoneEvent, ResponseAudioTranscriptDoneEvent, ResponseContentPartDoneEvent,
    ResponseOutputItemDoneEvent, ResponseResourceType,
};

verus! {

/// The messages that pass between the client and the server, and the
/// connection's own happenings.
#[derive(Debug, Clone)]
pub enum Event {
    SessionCreated {
        session: SessionConfig,
    },
    SessionUpdated {
        session: SessionConfig,
    },
    ConversationItemCreated {
        item: Item,
    },
    ConversationItemAppended {
        item: Item,
    },
    ConversationItemTruncated {
        item_id: String,
        audio_end_ms: u64,
    },
    ConversationItemDeleted {
        item_id: String,
    },
    ConversationItemInputAudioTranscriptionCompleted {
        item_id: String,
        content_index: usize,
        transcript: String,
    },
    InputAudioBufferAppend {
        audio: String,
    },
    InputAudioBufferCommitted,
    InputAudioBufferSpeechStarted {
        item_id: String,
        audio_start_ms: u64,
    },
    InputAudioBufferSpeechStopped {
        item_id: String,
        audio_end_ms: u64,
    },
    /// client request for generating a response
    ResponseCreateRequest,
    ResponseCreated {
        response: ResponseResourceType,
    },
    ResponseDone {
        event_id: String,
        response: ResponseResourceType,
    },
    ResponseOutputItemAdded {
        response_id: String,
        output_index: u32,
        item: Item,
    },
    ResponseOutputItemDone(ResponseOutputItemDoneEvent),
    ResponseContentPartDone(ResponseContentPartDoneEvent),
    ResponseContentPartAdded {
        item_id: String,
        part: ContentPart,
    },
    ResponseAudioTranscriptDelta {
        item_id: String,
        content_index: usize,
        delta: String,
    },
    ResponseAudioTranscriptDone(ResponseAudioTranscriptDoneEvent),
    ResponseAudioDelta(ResponseAudioDeltaEvent),
    ResponseAudioDone(ResponseAudioDoneEvent),
    ResponseTextDelta {
        item_id: String,
        content_index: usize,
        delta: String,
    },
    /// increments of the JSON text of a call's arguments
    ResponseFunctionCallArgumentsDelta {
        item_id: String,
        delta: String,
    },
    /// a function call is complete: `name` is the function, `arguments` its JSON arguments
    ResponseFunctionCallArgumentsDone {
        item_id: String,
        name: String,
        arguments: String,
        output_index: usize,
        call_id: String,
    },
    RateLimitsUpdated {
        event_id: String,
        rate_limits: Vec<RateLimitsUpdatedEventItem>,
    },
    /// a message that the client sent
    ClientEvent {
        event_type: String,
        event_data: ApiEvent<serde_json::Value>,
    },
    /// a message from the server, before it is read into one of the variants above
    ServerEvent(ApiEvent<serde_json::Value>),
    /// request to return a health check to the server
    Ping {
        data: Vec<u8>,
    },
    /// the connection was closed from the server side
    Close {
        error: bool,
    },
}

impl Event {
    /// The event's tag in its JSON form: the message type for the protocol's
    /// messages, the variant's own name for pings and closes.
    pub open spec fn wire_name(&self) -> Seq<char> {
        match self {
            Event::SessionCreated{ .. } => "session.created"@,
            Event::SessionUpdated{ .. } => "session.updated"@,
            Event::ConversationItemCreated{ .. } => "conversation.item.created"@,
            Event::ConversationItemAppended{ .. } => "conversation.item.appended"@,
            Event::ConversationItemTruncated{ .. } => "conversation.item.truncated"@,
            Event::ConversationItemDeleted{ .. } => "conversation.item.deleted"@,
            Event::ConversationItemInputAudioTranscriptionCompleted{ .. } => "conversation.item.input_audio_transcription.completed"@,
            Event::InputAudioBufferAppend{ .. } => "input_audio_buffer.append"@,
            Event::InputAudioBufferCommitted => "input_audio_buffer.committed"@,
            Event::InputAudioBufferSpeechStarted{ .. } => "input_audio_buffer.speech_started"@,
            Event::InputAudioBufferSpeechStopped{ .. } => "input_audio_buffer.speech_stopped"@,
            Event::ResponseCreateRequest => "response.create"@,
            Event::ResponseCreated{ .. } => "response.created"@,
            Event::ResponseDone{ .. } => "response.done"@,
            Event::ResponseOutputItemAdded{ .. } => "response.output_item.added"@,
            Event::ResponseOutputItemDone(_) => "response.output_item.done"@,
            Event::ResponseContentPartDone(_) => "response.content_part.done"@,
            Event::ResponseContentPartAdded{ .. } => "response.content_part.added"@,
            Event::ResponseAudioTranscriptDelta{ .. } => "response.audio_transcript.delta"@,
            Event::ResponseAudioTranscriptDone(_) => "response.audio_transcript.done"@,
            Event::ResponseAudioDelta(_) => "response.audio.delta"@,
            Event::ResponseAudioDone(_) => "response.audio.done"@,
            Event::ResponseTextDelta{ .. } => "response.text.delta"@,
            Event::ResponseFunctionCallArgumentsDelta{ .. } => "response.function_call_arguments.delta"@,
            Event::ResponseFunctionCallArgumentsDone{ .. } => "response.function_call_arguments.done"@,
            Event::RateLimitsUpdated{ .. } => "rate_limits.updated"@,
            Event::ClientEvent { event_type, .. } => event_type@,
            Event::ServerEvent(api_event) => api_event.event_type@,
            Event::Ping{ .. } => "Ping"@,
            Event::Close{ .. } => "Close"@,
        }
    }

    /// Whether this is a raw server message of type `name`.
    pub fn is_server_event_named(&self, name: &str) -> (r: bool)
        ensures
            r == (self matches Event::ServerEvent(api_event) && api_event.event_type@ == name@),
    {
        match self {
            Event::ServerEvent(api_event) => {
                let wanted = name.to_owned();
                api_event.event_type == wanted
            },
            _ => false,
        }
    }

    /// Returns the type name of the event (its tag on the wire).
    pub fn get_type(&self) -> (r: String)
        ensures
            r@ == self.wire_name(),
    {
        match self {
            Event::SessionCreated{ .. } => "session.created".to_owned(),
            Event::SessionUpdated{ .. } => "session.updated".to_owned(),
            Event::ConversationItemCreated{ .. } => "conversation.item.created".to_owned(),
            Event::ConversationItemAppended{ .. } => "conversation.item.appended".to_owned(),
            Event::ConversationItemTruncated{ .. } => "conversation.item.truncated".to_owned(),
            Event::ConversationItemDeleted{ .. } => "conversation.item.deleted".to_owned(),
            Event::ConversationItemInputAudioTranscriptionCompleted{ .. } => "conversation.item.input_audio_transcription.completed".to_owned(),
            Event::InputAudioBufferAppend{ .. } => "input_audio_buffer.append".to_owned(),
            Event::InputAudioBufferCommitted => "input_audio_buffer.committed".to_owned(),
            Event::InputAudioBufferSpeechStarted{ .. } => "input_audio_buffer.speech_started".to_owned(),
            Event::InputAudioBufferSpeechStopped{ .. } => "input_audio_buffer.speech_stopped".to_owned(),
            Event::ResponseCreateRequest => "response.create".to_owned(),
            Event::ResponseCreated{ .. } => "response.created".to_owned(),
            Event::ResponseDone{ .. } => "response.done".to_owned(),
            Event::ResponseOutputItemAdded{ .. } => "response.output_item.added".to_owned(),
            Event::ResponseOutputItemDone(_) => "response.output_item.done".to_owned(),
            Event::ResponseContentPartDone(_) => "response.content_part.done".to_owned(),
            Event::ResponseContentPartAdded{ .. } => "response.content_part.added".to_owned(),
            Event::ResponseAudioTranscriptDelta{ .. } => "response.audio_transcript.delta".to_owned(),
            Event::ResponseAudioTranscriptDone(_) => "response.audio_transcript.done".to_owned(),
            Event::ResponseAudioDelta(_) => "response.audio.delta".to_owned(),
            Event::ResponseAudioDone(_) => "response.audio.done".to_owned(),
            Event::ResponseTextDelta{ .. } => "response.text.delta".to_owned(),
            Event::ResponseFunctionCallArgumentsDelta{ .. } => "response.function_call_arguments.delta".to_owned(),
            Event::ResponseFunctionCallArgumentsDone{ .. } => "response.function_call_arguments.done".to_owned(),
            Event::RateLimitsUpdated{ .. } => "rate_limits.updated".to_owned(),
            Event::ClientEvent { event_type, .. } => event_type.clone(),
            Event::ServerEvent(api_event) => api_event.event_type.clone(),
            Event::Ping{ .. } => "Ping".to_owned(),
            Event::Close{ .. } => "Close".to_owned(),
        }
    }
}

} // verus!
