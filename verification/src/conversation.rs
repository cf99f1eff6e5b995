use vstd::prelude::*;

use crate::event::Event;
use crate::item::{
    BaseItem, BaseItemKind, BaseItemType, BaseItemView, FunctionCallItemView, Item,
    ItemContentDelta, ItemContentDeltaView, ItemStatus, ItemView, Role,
};
use crate::types::{
    opt_samples, ContentPart, ContentPartView, FormattedTool, FormattedToolView, QueuedSpeech,
    QueuedSpeechView, QueuedTranscript, ResponseAudioDeltaEvent, ResponseResourceType,
    ResponseResourceView,
};
use crate::utils::{le_bytes_to_pcm, pcm_from_le_bytes, spec_base64_decode, RealtimeUtils};

verus! {

/// Why the conversation refused an event.
#[derive(Debug)]
pub enum ConversationError {
    /// The event names an item that the conversation does not hold.
    ItemNotFound(String),
    /// The event names a response that the conversation does not hold.
    ResponseNotFound(String),
    /// A content part can only be added to a user or assistant message.
    UnexpectedItemType(BaseItemKind),
}

pub type ConversationHandlerReturntype = (Option<Item>, Option<ItemContentDelta>);

pub type ItemId = String;

/// What an event gives back, viewed: the item it touched and the delta it
/// carried, or why it was refused.
pub type Outcome = Result<(Option<ItemView>, Option<ItemContentDeltaView>), ConversationError>;

pub open spec fn opt_item_view(o: Option<Item>) -> Option<ItemView> {
    match o {
        Some(i) => Some(i@),
        None => None,
    }
}

pub open spec fn opt_delta_view(o: Option<ItemContentDelta>) -> Option<ItemContentDeltaView> {
    match o {
        Some(d) => Some(d@),
        None => None,
    }
}

pub open spec fn outcome_of(r: Result<ConversationHandlerReturntype, ConversationError>) -> Outcome {
    match r {
        Ok((i, d)) => Ok((opt_item_view(i), opt_delta_view(d))),
        Err(e) => Err(e),
    }
}

/// The position of key `k` in a keyed sequence, if it is there.
pub open spec fn key_index<V>(s: Seq<(Seq<char>, V)>, k: Seq<char>) -> Option<int> {
    if exists|i: int| #![trigger s[i]] 0 <= i < s.len() && s[i].0 == k {
        Some(choose|i: int| #![trigger s[i]] 0 <= i < s.len() && s[i].0 == k)
    } else {
        None
    }
}

/// No key occurs twice.
pub open spec fn keys_unique<V>(s: Seq<(Seq<char>, V)>) -> bool {
    forall|i: int, j: int|
        #![trigger s[i], s[j]]
        0 <= i < s.len() && 0 <= j < s.len() && s[i].0 == s[j].0 ==> i == j
}

/// `k` mapped to `v`: the entry for `k` replaced where there is one, added at
/// the end otherwise.
pub open spec fn keyed_insert<V>(s: Seq<(Seq<char>, V)>, k: Seq<char>, v: V) -> Seq<(Seq<char>, V)> {
    match key_index(s, k) {
        Some(i) => s.update(i, (k, v)),
        None => s.push((k, v)),
    }
}

/// The position of the item with id `id`, if there is one.
pub open spec fn item_index(items: Seq<ItemView>, id: Seq<char>) -> Option<int> {
    if exists|i: int| #![trigger items[i]] 0 <= i < items.len() && items[i].id() == id {
        Some(choose|i: int| #![trigger items[i]] 0 <= i < items.len() && items[i].id() == id)
    } else {
        None
    }
}

pub open spec fn item_ids_unique(items: Seq<ItemView>) -> bool {
    forall|i: int, j: int|
        #![trigger items[i], items[j]]
        0 <= i < items.len() && 0 <= j < items.len() && items[i].id() == items[j].id() ==> i == j
}

/// The position of the response with id `id`, if there is one.
pub open spec fn response_index(responses: Seq<ResponseResourceView>, id: Seq<char>) -> Option<int> {
    if exists|i: int| #![trigger responses[i]] 0 <= i < responses.len() && responses[i].id == id {
        Some(
            choose|i: int| #![trigger responses[i]] 0 <= i < responses.len() && responses[i].id == id,
        )
    } else {
        None
    }
}

pub open spec fn response_ids_unique(responses: Seq<ResponseResourceView>) -> bool {
    forall|i: int, j: int|
        #![trigger responses[i], responses[j]]
        0 <= i < responses.len() && 0 <= j < responses.len() && responses[i].id == responses[j].id
            ==> i == j
}

/// The tool type that the formatted tool of a function call names.
pub const FUNCTION_TOOL_TYPE: &'static str = "function";

/// The sample frequency, in Hz, that audio offsets are converted with.
pub const DEFAULT_FREQUENCY: usize = 24000;

/// The conversation as the events have built it up.
pub struct ConversationView {
    pub default_frequency: usize,
    /// items in the order they were created; no id twice
    pub items: Seq<ItemView>,
    /// responses in the order they were created; no id twice
    pub responses: Seq<ResponseResourceView>,
    /// speech detected before its item exists, by item id
    pub queued_speech: Seq<(Seq<char>, QueuedSpeechView)>,
    /// transcripts that arrived before their item, by item id
    pub queued_transcripts: Seq<(Seq<char>, Seq<char>)>,
    /// input audio committed for the next user message
    pub queued_input_audio: Option<Seq<i16>>,
}

pub open spec fn ok_none() -> Outcome {
    Ok((None, None))
}

impl ConversationView {
    pub open spec fn wf(self) -> bool {
        &&& item_ids_unique(self.items)
        &&& response_ids_unique(self.responses)
        &&& keys_unique(self.queued_speech)
        &&& keys_unique(self.queued_transcripts)
    }

    /// The sample index that an offset in milliseconds falls on.
    pub open spec fn sample_index(self, ms: u64) -> int {
        (ms * self.default_frequency) / 1000
    }

    pub open spec fn with_items(self, items: Seq<ItemView>) -> ConversationView {
        ConversationView { items, ..self }
    }

    /// A created item takes the speech queued for it.
    pub open spec fn take_queued_speech(self, item: ItemView) -> (ConversationView, ItemView) {
        match key_index(self.queued_speech, item.id()) {
            Some(k) => (
                ConversationView { queued_speech: self.queued_speech.remove(k), ..self },
                item.with_audio(
                    match self.queued_speech[k].1.audio {
                        Some(a) => a,
                        None => Seq::empty(),
                    },
                ),
            ),
            None => (self, item),
        }
    }

    /// A created item takes the transcript queued for it.
    pub open spec fn take_queued_transcript(self, item: ItemView) -> (ConversationView, ItemView) {
        match key_index(self.queued_transcripts, item.id()) {
            Some(k) => (
                ConversationView { queued_transcripts: self.queued_transcripts.remove(k), ..self },
                item.with_transcript(self.queued_transcripts[k].1),
            ),
            None => (self, item),
        }
    }

    /// A created item gets its status, and its tool, output or queued input
    /// audio, by its type.
    pub open spec fn settle_created(self, item: ItemView) -> (ConversationView, ItemView) {
        match item.base.item_type() {
            BaseItemType::Message => if item.base.role() == Some(Role::User) {
                let done = item.with_base(item.base.with_status(ItemStatus::Completed));
                match self.queued_input_audio {
                    Some(a) => (
                        ConversationView { queued_input_audio: None, ..self },
                        done.with_audio(a),
                    ),
                    None => (self, done),
                }
            } else {
                (self, item.with_base(item.base.with_status(ItemStatus::InProgress)))
            },
            BaseItemType::FunctionCall => {
                let tooled = match item.base {
                    BaseItemView::FunctionCall(f) => item.with_tool(
                        Some(
                            FormattedToolView {
                                tool_type: FUNCTION_TOOL_TYPE@,
                                name: f.name,
                                call_id: f.call_id,
                                arguments: Some(Seq::empty()),
                            },
                        ),
                    ),
                    _ => item,
                };
                (self, tooled.with_base(tooled.base.with_status(ItemStatus::InProgress)))
            },
            BaseItemType::FunctionCallOutput => {
                let with_output = match item.base {
                    BaseItemView::FunctionCallOutput(o) => item.with_output(Some(o.output)),
                    _ => item,
                };
                (
                    self,
                    with_output.with_base(with_output.base.with_status(ItemStatus::Completed)),
                )
            },
        }
    }

    /// `conversation.item.created`: the item shows the text of its text parts
    /// and carries the queued speech and transcript for its id and its
    /// status by type; an item with a new id is stored so, at the end.
    pub open spec fn item_created(self, item: ItemView) -> (ConversationView, ItemView) {
        let (s1, i1) = self.take_queued_speech(item.with_text(item.base.shown_text()));
        let (s2, i2) = s1.take_queued_transcript(i1);
        let (s3, i3) = s2.settle_created(i2);
        if item_index(self.items, item.id()) is Some {
            (s3, i3)
        } else {
            (s3.with_items(s3.items.push(i3)), i3)
        }
    }

    /// `conversation.item.truncated`: the audio is cut at the offset and the
    /// transcript emptied.
    pub open spec fn item_truncated(self, item_id: String, audio_end_ms: u64) -> (ConversationView, Outcome) {
        match item_index(self.items, item_id@) {
            None => (self, Err(ConversationError::ItemNotFound(item_id))),
            Some(i) => {
                let item = self.items[i];
                let audio = item.props().audio;
                let end = self.sample_index(audio_end_ms);
                let kept = if end < audio.len() {
                    audio.subrange(0, end)
                } else {
                    audio
                };
                let new_item = item.with_transcript(Seq::empty()).with_audio(kept);
                (self.with_items(self.items.update(i, new_item)), Ok((Some(new_item), None)))
            },
        }
    }

    /// `conversation.item.deleted`
    pub open spec fn item_deleted(self, item_id: String) -> (ConversationView, Outcome) {
        match item_index(self.items, item_id@) {
            None => (self, Err(ConversationError::ItemNotFound(item_id))),
            Some(i) => (self.with_items(self.items.remove(i)), Ok((Some(self.items[i]), None))),
        }
    }

    /// `conversation.item.input_audio_transcription.completed`: the transcript
    /// is recorded at its content part (the text of a text part, the
    /// transcript of an audio part) and shown as the item's transcript; a
    /// transcript for an item that does not exist yet is queued for it; an
    /// empty transcript is shown as a single space.
    pub open spec fn transcription_completed(
        self,
        item_id: String,
        content_index: usize,
        transcript: String,
    ) -> (ConversationView, Outcome) {
        let shown = if transcript@.len() == 0 {
            seq![' ']
        } else {
            transcript@
        };
        match item_index(self.items, item_id@) {
            Some(i) => {
                let item = self.items[i];
                let new_item = item.with_base(
                    item.base.with_transcript_set_at(content_index as int, transcript@),
                ).with_transcript(shown);
                (
                    self.with_items(self.items.update(i, new_item)),
                    Ok(
                        (
                            Some(new_item),
                            Some(
                                ItemContentDeltaView {
                                    transcript: Some(transcript@),
                                    ..ItemContentDeltaView::empty()
                                },
                            ),
                        ),
                    ),
                )
            },
            None => (
                ConversationView {
                    queued_transcripts: keyed_insert(self.queued_transcripts, item_id@, shown),
                    ..self
                },
                ok_none(),
            ),
        }
    }

    /// `input_audio_buffer.speech_started`
    pub open spec fn speech_started(self, item_id: String, audio_start_ms: u64) -> ConversationView {
        ConversationView {
            queued_speech: keyed_insert(
                self.queued_speech,
                item_id@,
                QueuedSpeechView { audio_start_ms, audio_end_ms: None, audio: None },
            ),
            ..self
        }
    }

    /// A sample index kept within `len`.
    pub open spec fn clamped_index(self, ms: u64, len: nat) -> int {
        let i = self.sample_index(ms);
        if i < len {
            i
        } else {
            len as int
        }
    }

    /// `input_audio_buffer.speech_stopped`: queued speech gets its end and the
    /// stretch of queued input audio between its offsets, cut to the audio
    /// there is (empty where the end comes before the start).
    pub open spec fn speech_stopped(self, item_id: String, audio_end_ms: u64) -> ConversationView {
        match key_index(self.queued_speech, item_id@) {
            Some(k) => {
                let speech = self.queued_speech[k].1;
                let ended = QueuedSpeechView { audio_end_ms: Some(audio_end_ms), ..speech };
                let clipped = match self.queued_input_audio {
                    Some(a) => {
                        let start = self.clamped_index(speech.audio_start_ms, a.len());
                        let end = self.clamped_index(audio_end_ms, a.len());
                        QueuedSpeechView {
                            audio: Some(
                                a.subrange(
                                    start,
                                    if end < start {
                                        start
                                    } else {
                                        end
                                    },
                                ),
                            ),
                            ..ended
                        }
                    },
                    None => ended,
                };
                ConversationView {
                    queued_speech: self.queued_speech.update(k, (item_id@, clipped)),
                    ..self
                }
            },
            None => self,
        }
    }

    /// `response.created`: a response with a new id is stored.
    pub open spec fn response_created(self, response: ResponseResourceView) -> ConversationView {
        if response_index(self.responses, response.id) is Some {
            self
        } else {
            ConversationView { responses: self.responses.push(response), ..self }
        }
    }

    /// `response.output_item.added`: the item joins the response's output.
    pub open spec fn output_item_added(self, response_id: String, item: ItemView) -> (
        ConversationView,
        Outcome,
    ) {
        match response_index(self.responses, response_id@) {
            None => (self, Err(ConversationError::ResponseNotFound(response_id))),
            Some(r) => {
                let response = self.responses[r];
                (
                    ConversationView {
                        responses: self.responses.update(
                            r,
                            ResponseResourceView { output: response.output.push(item), ..response },
                        ),
                        ..self
                    },
                    ok_none(),
                )
            },
        }
    }

    /// `response.output_item.done`: the stored item takes the status of the
    /// finished one.
    pub open spec fn output_item_done(self, item: Item) -> (ConversationView, Outcome) {
        match item_index(self.items, item@.id()) {
            None => (self, Err(ConversationError::ItemNotFound(item.formatted.id))),
            Some(i) => {
                let found = self.items[i];
                let new_item = found.with_base(found.base.with_status(item@.base.status()));
                (self.with_items(self.items.update(i, new_item)), Ok((Some(new_item), None)))
            },
        }
    }

    /// `response.content_part.added`: the part joins a user or assistant message.
    pub open spec fn content_part_added(self, item_id: String, part: ContentPartView) -> (
        ConversationView,
        Outcome,
    ) {
        match item_index(self.items, item_id@) {
            None => (self, Err(ConversationError::ItemNotFound(item_id))),
            Some(i) => {
                let item = self.items[i];
                match item.base {
                    BaseItemView::Assistant(m) => {
                        let new_item = item.with_base(
                            BaseItemView::Assistant(m.with_content(m.content.push(part))),
                        );
                        (self.with_items(self.items.update(i, new_item)), Ok((Some(new_item), None)))
                    },
                    BaseItemView::User(m) => {
                        let new_item = item.with_base(
                            BaseItemView::User(m.with_content(m.content.push(part))),
                        );
                        (self.with_items(self.items.update(i, new_item)), Ok((Some(new_item), None)))
                    },
                    other => (self, Err(ConversationError::UnexpectedItemType(other.kind()))),
                }
            },
        }
    }

    /// The item with `item_id` changed by `f`, given back with `delta`.
    pub open spec fn item_changed(
        self,
        item_id: String,
        f: spec_fn(ItemView) -> ItemView,
        delta: ItemContentDeltaView,
    ) -> (ConversationView, Outcome) {
        match item_index(self.items, item_id@) {
            None => (self, Err(ConversationError::ItemNotFound(item_id))),
            Some(i) => {
                let new_item = f(self.items[i]);
                (
                    self.with_items(self.items.update(i, new_item)),
                    Ok((Some(new_item), Some(delta))),
                )
            },
        }
    }

    /// `response.audio_transcript.delta`: appended to the audio part's
    /// transcript and to the formatted transcript.
    pub open spec fn audio_transcript_delta(self, item_id: String, content_index: usize, delta: String) -> (
        ConversationView,
        Outcome,
    ) {
        self.item_changed(
            item_id,
            |it: ItemView| it.with_transcript_delta(content_index as int, delta@),
            ItemContentDeltaView { transcript: Some(delta@), ..ItemContentDeltaView::empty() },
        )
    }

    /// `response.text.delta`: appended to the text part and to the formatted text.
    pub open spec fn text_delta(self, item_id: String, content_index: usize, delta: String) -> (
        ConversationView,
        Outcome,
    ) {
        self.item_changed(
            item_id,
            |it: ItemView| it.with_text_delta(content_index as int, delta@),
            ItemContentDeltaView { text: Some(delta@), ..ItemContentDeltaView::empty() },
        )
    }

    /// The samples that the base64 text of an audio delta carries; a trailing
    /// odd byte is dropped.
    pub open spec fn delta_samples(delta: Seq<char>) -> Seq<i16> {
        pcm_from_le_bytes(spec_base64_decode(delta).unwrap())
    }

    /// What `response.audio.delta` needs: where the item exists, the delta is
    /// valid base64.
    pub open spec fn audio_delta_decodable(self, evt: ResponseAudioDeltaEvent) -> bool {
        item_index(self.items, evt.item_id@) is Some ==> spec_base64_decode(evt.delta@) is Some
    }

    /// `response.audio.delta`: the decoded samples are appended to the item's audio.
    pub open spec fn audio_delta(self, evt: ResponseAudioDeltaEvent) -> (ConversationView, Outcome) {
        let samples = Self::delta_samples(evt.delta@);
        self.item_changed(
            evt.item_id,
            |it: ItemView| it.with_audio(it.props().audio + samples),
            ItemContentDeltaView { audio: Some(samples), ..ItemContentDeltaView::empty() },
        )
    }

    /// `response.function_call_arguments.delta`: the delta is appended to the
    /// call's arguments and to the arguments of its formatted tool.
    pub open spec fn arguments_appended(it: ItemView, delta: Seq<char>) -> ItemView {
        let base = match it.base {
            BaseItemView::FunctionCall(f) => BaseItemView::FunctionCall(
                FunctionCallItemView { arguments: f.arguments + delta, ..f },
            ),
            other => other,
        };
        let tool = match it.props().tool {
            Some(t) => Some(
                FormattedToolView {
                    arguments: Some(
                        match t.arguments {
                            Some(a) => a + delta,
                            None => delta,
                        },
                    ),
                    ..t
                },
            ),
            None => None,
        };
        it.with_base(base).with_tool(tool)
    }

    pub open spec fn function_call_arguments_delta(self, item_id: String, delta: String) -> (
        ConversationView,
        Outcome,
    ) {
        self.item_changed(
            item_id,
            |it: ItemView| Self::arguments_appended(it, delta@),
            ItemContentDeltaView { arguments: Some(delta@), ..ItemContentDeltaView::empty() },
        )
    }

    /// Whether the conversation can take `event`: the inputs on which
    /// processing it would fail outright are left out.
    pub open spec fn can_process(self, event: Event) -> bool {
        match event {
            Event::ResponseAudioDelta(evt) => self.audio_delta_decodable(evt),
            _ => true,
        }
    }

    /// The conversation after `event`, and what processing it gives back.
    /// Events that do not concern the conversation change nothing.
    pub open spec fn process(self, event: Event) -> (ConversationView, Outcome) {
        match event {
            Event::ConversationItemCreated { item } => {
                let (s, i) = self.item_created(item@);
                (s, Ok((Some(i), None)))
            },
            Event::ConversationItemTruncated { item_id, audio_end_ms } => self.item_truncated(
                item_id,
                audio_end_ms,
            ),
            Event::ConversationItemDeleted { item_id } => self.item_deleted(item_id),
            Event::ConversationItemInputAudioTranscriptionCompleted {
                item_id,
                content_index,
                transcript,
            } => self.transcription_completed(item_id, content_index, transcript),
            Event::InputAudioBufferSpeechStarted { item_id, audio_start_ms } => (
                self.speech_started(item_id, audio_start_ms),
                ok_none(),
            ),
            Event::InputAudioBufferSpeechStopped { item_id, audio_end_ms } => (
                self.speech_stopped(item_id, audio_end_ms),
                ok_none(),
            ),
            Event::ResponseCreated { response } => (self.response_created(response@), ok_none()),
            Event::ResponseOutputItemAdded { response_id, item, .. } => self.output_item_added(
                response_id,
                item@,
            ),
            Event::ResponseOutputItemDone(res) => self.output_item_done(res.item),
            Event::ResponseContentPartAdded { item_id, part } => self.content_part_added(
                item_id,
                part@,
            ),
            Event::ResponseAudioTranscriptDelta { item_id, content_index, delta } => self.audio_transcript_delta(
                item_id,
                content_index,
                delta,
            ),
            Event::ResponseAudioDelta(evt) => self.audio_delta(evt),
            Event::ResponseTextDelta { item_id, content_index, delta } => self.text_delta(
                item_id,
                content_index,
                delta,
            ),
            Event::ResponseFunctionCallArgumentsDelta { item_id, delta } => self.function_call_arguments_delta(
                item_id,
                delta,
            ),
            _ => (self, ok_none()),
        }
    }
}

proof fn lemma_keys_unique_remove<V>(s: Seq<(Seq<char>, V)>, k: int)
    requires
        keys_unique(s),
        0 <= k < s.len(),
    ensures
        keys_unique(s.remove(k)),
{
    let t = s.remove(k);
    assert forall|i: int, j: int|
        0 <= i < t.len() && 0 <= j < t.len() && #[trigger] t[i].0 == #[trigger] t[j].0 implies i == j by {
        let si = if i < k { i } else { i + 1 };
        let sj = if j < k { j } else { j + 1 };
        assert(t[i] == s[si]);
        assert(t[j] == s[sj]);
    }
}

proof fn lemma_keys_unique_update<V>(s: Seq<(Seq<char>, V)>, k: int, p: (Seq<char>, V))
    requires
        keys_unique(s),
        0 <= k < s.len(),
        p.0 == s[k].0,
    ensures
        keys_unique(s.update(k, p)),
{
    let t = s.update(k, p);
    assert forall|i: int, j: int|
        0 <= i < t.len() && 0 <= j < t.len() && #[trigger] t[i].0 == #[trigger] t[j].0 implies i == j by {
        assert(t[i].0 == s[i].0);
        assert(t[j].0 == s[j].0);
    }
}

proof fn lemma_keyed_insert<V>(s: Seq<(Seq<char>, V)>, key: Seq<char>, v: V)
    requires
        keys_unique(s),
    ensures
        keys_unique(keyed_insert(s, key, v)),
{
    match key_index(s, key) {
        Some(k) => {
            lemma_keys_unique_update(s, k, (key, v));
        },
        None => {
            let t = s.push((key, v));
            assert forall|i: int, j: int|
                0 <= i < t.len() && 0 <= j < t.len() && #[trigger] t[i].0 == #[trigger] t[j].0 implies i == j by {
                if i < s.len() && j == s.len() {
                    assert(s[i].0 == key);
                }
                if j < s.len() && i == s.len() {
                    assert(s[j].0 == key);
                }
            }
        },
    }
}

proof fn lemma_item_ids_remove(s: Seq<ItemView>, k: int)
    requires
        item_ids_unique(s),
        0 <= k < s.len(),
    ensures
        item_ids_unique(s.remove(k)),
{
    let t = s.remove(k);
    assert forall|i: int, j: int|
        0 <= i < t.len() && 0 <= j < t.len() && #[trigger] t[i].id() == #[trigger] t[j].id() implies i == j by {
        let si = if i < k { i } else { i + 1 };
        let sj = if j < k { j } else { j + 1 };
        assert(t[i] == s[si]);
        assert(t[j] == s[sj]);
    }
}

proof fn lemma_item_ids_update(s: Seq<ItemView>, k: int, x: ItemView)
    requires
        item_ids_unique(s),
        0 <= k < s.len(),
        x.id() == s[k].id(),
    ensures
        item_ids_unique(s.update(k, x)),
{
    let t = s.update(k, x);
    assert forall|i: int, j: int|
        0 <= i < t.len() && 0 <= j < t.len() && #[trigger] t[i].id() == #[trigger] t[j].id() implies i == j by {
        assert(t[i].id() == s[i].id());
        assert(t[j].id() == s[j].id());
    }
}

proof fn lemma_item_ids_push(s: Seq<ItemView>, x: ItemView)
    requires
        item_ids_unique(s),
        item_index(s, x.id()) is None,
    ensures
        item_ids_unique(s.push(x)),
{
    let t = s.push(x);
    assert forall|i: int, j: int|
        0 <= i < t.len() && 0 <= j < t.len() && #[trigger] t[i].id() == #[trigger] t[j].id() implies i == j by {
        if i < s.len() && j == s.len() {
            assert(s[i].id() == x.id());
        }
        if j < s.len() && i == s.len() {
            assert(s[j].id() == x.id());
        }
    }
}

proof fn lemma_response_ids_update(s: Seq<ResponseResourceView>, k: int, x: ResponseResourceView)
    requires
        response_ids_unique(s),
        0 <= k < s.len(),
        x.id == s[k].id,
    ensures
        response_ids_unique(s.update(k, x)),
{
    let t = s.update(k, x);
    assert forall|i: int, j: int|
        0 <= i < t.len() && 0 <= j < t.len() && #[trigger] t[i].id == #[trigger] t[j].id implies i == j by {
        assert(t[i].id == s[i].id);
        assert(t[j].id == s[j].id);
    }
}

proof fn lemma_response_ids_push(s: Seq<ResponseResourceView>, x: ResponseResourceView)
    requires
        response_ids_unique(s),
        response_index(s, x.id) is None,
    ensures
        response_ids_unique(s.push(x)),
{
    let t = s.push(x);
    assert forall|i: int, j: int|
        0 <= i < t.len() && 0 <= j < t.len() && #[trigger] t[i].id == #[trigger] t[j].id implies i == j by {
        if i < s.len() && j == s.len() {
            assert(s[i].id == x.id);
        }
        if j < s.len() && i == s.len() {
            assert(s[j].id == x.id);
        }
    }
}

/// A copy of `v[start..end]`.
fn copy_range(v: &Vec<i16>, start: usize, end: usize) -> (r: Vec<i16>)
    requires
        start <= end <= v@.len(),
    ensures
        r@ == v@.subrange(start as int, end as int),
{
    let mut out: Vec<i16> = Vec::new();
    let mut i = start;
    while i < end
        invariant
            start <= i <= end,
            end <= v@.len(),
            out@ == v@.subrange(start as int, i as int),
        decreases end - i,
    {
        out.push(v[i]);
        assert(out@ =~= v@.subrange(start as int, i as int + 1));
        i = i + 1;
    }
    out
}

/// The sample index that `ms` milliseconds fall on at `frequency` Hz, kept within `len`.
fn clamped_sample_index(ms: u64, frequency: usize, len: usize) -> (r: usize)
    ensures
        r == (if (ms * frequency) / 1000 < len {
            (ms * frequency) / 1000
        } else {
            len as int
        }),
{
    let m = ms as u128;
    let f = frequency as u128;
    assert(m * f <= 0xffff_ffff_ffff_ffffu128 * 0xffff_ffff_ffff_ffffu128) by (nonlinear_arith)
        requires
            m <= 0xffff_ffff_ffff_ffffu128,
            f <= 0xffff_ffff_ffff_ffffu128,
    ;
    let index: u128 = (m * f) / 1000;
    if index < len as u128 {
        index as usize
    } else {
        len
    }
}

/// RealtimeConversation holds the conversation history and checks the
/// events that the server sends about it.
pub struct RealtimeConversation {
    /// frequency for audio offsets (24,000 Hz by default)
    pub default_frequency: usize,
    /// the items, in the order they were created
    items: Vec<Item>,
    /// the responses, in the order they were created
    responses: Vec<ResponseResourceType>,
    /// speech detected before its item exists
    queued_speech_items: Vec<(String, QueuedSpeech)>,
    /// transcripts that arrived before their item
    queued_transcript_items: Vec<(String, QueuedTranscript)>,
    /// input audio committed for the next user message
    queued_input_audio: Option<Vec<i16>>,
}

impl View for RealtimeConversation {
    type V = ConversationView;

    closed spec fn view(&self) -> ConversationView {
        ConversationView {
            default_frequency: self.default_frequency,
            items: self.items@.map_values(|i: Item| i@),
            responses: self.responses@.map_values(|r: ResponseResourceType| r@),
            queued_speech: self.queued_speech_items@.map_values(
                |p: (String, QueuedSpeech)| (p.0@, p.1@),
            ),
            queued_transcripts: self.queued_transcript_items@.map_values(
                |p: (String, QueuedTranscript)| (p.0@, p.1.transcript@),
            ),
            queued_input_audio: opt_samples(self.queued_input_audio),
        }
    }
}

impl RealtimeConversation {
    pub open spec fn wf(&self) -> bool {
        self@.wf()
    }

    /// An empty conversation at 24,000 Hz.
    pub fn new() -> (r: Self)
        ensures
            r.wf(),
            r@.default_frequency == DEFAULT_FREQUENCY,
            r@.items.len() == 0,
            r@.responses.len() == 0,
            r@.queued_speech.len() == 0,
            r@.queued_transcripts.len() == 0,
            r@.queued_input_audio is None,
    {
        let r = Self {
            default_frequency: DEFAULT_FREQUENCY,
            items: Vec::new(),
            responses: Vec::new(),
            queued_speech_items: Vec::new(),
            queued_transcript_items: Vec::new(),
            queued_input_audio: None,
        };
        assert(r@.items =~= Seq::<ItemView>::empty());
        assert(r@.responses =~= Seq::<ResponseResourceView>::empty());
        assert(r@.queued_speech =~= Seq::<(Seq<char>, QueuedSpeechView)>::empty());
        assert(r@.queued_transcripts =~= Seq::<(Seq<char>, Seq<char>)>::empty());
        r
    }

    /// The sample frequency that audio offsets are converted with.
    pub fn frequency(&self) -> (r: usize)
        ensures
            r == self@.default_frequency,
    {
        self.default_frequency
    }

    /// Clears the conversation history; the frequency stays.
    pub fn clear(&mut self)
        ensures
            final(self).wf(),
            final(self)@.default_frequency == old(self)@.default_frequency,
            final(self)@.items.len() == 0,
            final(self)@.responses.len() == 0,
            final(self)@.queued_speech.len() == 0,
            final(self)@.queued_transcripts.len() == 0,
            final(self)@.queued_input_audio is None,
    {
        self.items = Vec::new();
        self.responses = Vec::new();
        self.queued_speech_items = Vec::new();
        self.queued_transcript_items = Vec::new();
        self.queued_input_audio = None;
        assert(self@.items =~= Seq::<ItemView>::empty());
        assert(self@.responses =~= Seq::<ResponseResourceView>::empty());
        assert(self@.queued_speech =~= Seq::<(Seq<char>, QueuedSpeechView)>::empty());
        assert(self@.queued_transcripts =~= Seq::<(Seq<char>, Seq<char>)>::empty());
    }

    /// Queues input audio for the next user message, and gives it back.
    pub fn queue_input_audio(&mut self, input_audio: Vec<i16>) -> (r: Vec<i16>)
        requires
            old(self).wf(),
        ensures
            final(self).wf(),
            final(self)@ == (ConversationView {
                queued_input_audio: Some(input_audio@),
                ..old(self)@
            }),
            r@ == input_audio@,
    {
        self.queued_input_audio = Some(crate::types::clone_samples(&input_audio));
        input_audio
    }

    /// Processes an event from the server: the conversation changes as
    /// `process` says, and the item the event touched comes back with the
    /// delta it carried.
    pub fn process_event(&mut self, event: Event) -> (r: Result<
        ConversationHandlerReturntype,
        ConversationError,
    >)
        requires
            old(self).wf(),
            old(self)@.can_process(event),
        ensures
            final(self).wf(),
            (final(self)@, outcome_of(r)) == old(self)@.process(event),
    {
        match event {
            Event::ConversationItemCreated { item } => self.handle_item_created(item),
            Event::ConversationItemTruncated { item_id, audio_end_ms } => self.handle_item_truncated(
                item_id,
                audio_end_ms,
            ),
            Event::ConversationItemDeleted { item_id } => self.handle_item_deleted(item_id),
            Event::ConversationItemInputAudioTranscriptionCompleted {
                item_id,
                content_index,
                transcript,
            } => self.handle_input_audio_transcription_completed(item_id, content_index, transcript),
            Event::InputAudioBufferSpeechStarted { item_id, audio_start_ms } => self.handle_speech_started(
                item_id,
                audio_start_ms,
            ),
            Event::InputAudioBufferSpeechStopped { item_id, audio_end_ms } => self.handle_speech_stopped(
                item_id,
                audio_end_ms,
            ),
            Event::ResponseCreated { response } => self.handle_response_created(response),
            Event::ResponseOutputItemAdded { response_id, output_index: _, item } => self.handle_output_item_added(
                response_id,
                item,
            ),
            Event::ResponseOutputItemDone(res) => self.handle_output_item_done(res.item),
            Event::ResponseContentPartAdded { item_id, part } => self.handle_content_part_added(
                item_id,
                part,
            ),
            Event::ResponseAudioTranscriptDelta { item_id, content_index, delta } => self.handle_audio_transcript_delta(
                item_id,
                content_index,
                delta,
            ),
            Event::ResponseAudioDelta(evt) => self.handle_audio_delta(evt),
            Event::ResponseTextDelta { item_id, content_index, delta } => self.handle_text_delta(
                item_id,
                content_index,
                delta,
            ),
            Event::ResponseFunctionCallArgumentsDelta { item_id, delta } => self.handle_function_call_arguments_delta(
                item_id,
                delta,
            ),
            _ => Ok((None, None)),
        }
    }

    /// Whether the conversation can take `event` (see `ConversationView::can_process`).
    pub fn can_process(&self, event: &Event) -> (r: bool)
        requires
            self.wf(),
        ensures
            r == self@.can_process(*event),
    {
        match event {
            Event::ResponseAudioDelta(evt) => match self.find_item(&evt.item_id) {
                None => true,
                Some(_) => RealtimeUtils::is_valid_base64(evt.delta.as_str()),
            },
            _ => true,
        }
    }

    /// Processes `event` where the conversation can take it; gives `None`,
    /// and changes nothing, where it cannot.
    pub fn try_process_event(&mut self, event: Event) -> (r: Option<
        Result<ConversationHandlerReturntype, ConversationError>,
    >)
        requires
            old(self).wf(),
        ensures
            final(self).wf(),
            match r {
                None => !old(self)@.can_process(event) && final(self)@ == old(self)@,
                Some(res) => old(self)@.can_process(event) && (final(self)@, outcome_of(res))
                    == old(self)@.process(event),
            },
    {
        if self.can_process(&event) {
            Some(self.process_event(event))
        } else {
            None
        }
    }

    /// Retrieves a copy of the item with the given id.
    pub fn get_item(&self, id: &str) -> (r: Option<Item>)
        requires
            self.wf(),
        ensures
            match item_index(self@.items, id@) {
                Some(i) => r matches Some(item) && item@ == self@.items[i],
                None => r is None,
            },
    {
        let key = id.to_owned();
        match self.find_item(&key) {
            Some(i) => Some(self.item_at(i)),
            None => None,
        }
    }

    /// Retrieves a copy of the item at position `idx`.
    pub fn get_item_at(&self, idx: usize) -> (r: Option<Item>)
        requires
            self.wf(),
        ensures
            match r {
                Some(item) => idx < self@.items.len() && item@ == self@.items[idx as int],
                None => idx >= self@.items.len(),
            },
    {
        if idx < self.items.len() {
            Some(self.item_at(idx))
        } else {
            None
        }
    }

    /// Applies `mapper` to a copy of the item at position `idx`.
    pub fn map_item_at<R>(&self, idx: usize, mapper: impl Fn(&Item) -> R) -> (r: Option<R>)
        requires
            self.wf(),
            forall|item: &Item| #[trigger] mapper.requires((item,)),
        ensures
            r is Some <==> idx < self@.items.len(),
            r matches Some(v) ==> exists|item: Item|
                #![trigger item@]
                item@ == self@.items[idx as int] && mapper.ensures((&item,), v),
    {
        match self.get_item_at(idx) {
            Some(item) => {
                let v = mapper(&item);
                assert(item@ == self@.items[idx as int] && mapper.ensures((&item,), v));
                Some(v)
            },
            None => None,
        }
    }

    /// Copies of all items, in the order they were created.
    pub fn get_items(&self) -> (r: Vec<Item>)
        requires
            self.wf(),
        ensures
            r@.map_values(|i: Item| i@) == self@.items,
    {
        let mut out: Vec<Item> = Vec::new();
        let mut i: usize = 0;
        while i < self.items.len()
            invariant
                i <= self@.items.len(),
                out@.len() == i,
                forall|j: int| 0 <= j < i ==> (#[trigger] out@[j])@ == self@.items[j],
            decreases self@.items.len() - i,
        {
            let item = self.item_at(i);
            out.push(item);
            i = i + 1;
        }
        assert(out@.map_values(|it: Item| it@) =~= self@.items);
        out
    }

    /// A copy of the item at `i`.
    fn item_at(&self, i: usize) -> (r: Item)
        requires
            i < self@.items.len(),
        ensures
            r@ == self@.items[i as int],
    {
        self.items[i].clone()
    }

    fn replace_item(&mut self, i: usize, item: Item)
        requires
            old(self).wf(),
            i < old(self)@.items.len(),
            item@.id() == old(self)@.items[i as int].id(),
        ensures
            final(self).wf(),
            final(self)@ == old(self)@.with_items(old(self)@.items.update(i as int, item@)),
    {
        let ghost before = self@;
        self.items.set(i, item);
        proof {
            assert(self@.items =~= before.items.update(i as int, item@));
            lemma_item_ids_update(before.items, i as int, item@);
        }
    }

    fn insert_queued_transcript(&mut self, key: String, transcript: String)
        requires
            old(self).wf(),
        ensures
            final(self).wf(),
            final(self)@ == (ConversationView {
                queued_transcripts: keyed_insert(old(self)@.queued_transcripts, key@, transcript@),
                ..old(self)@
            }),
    {
        let ghost before = self@;
        proof {
            lemma_keyed_insert(before.queued_transcripts, key@, transcript@);
        }
        match self.find_transcript(&key) {
            Some(k) => {
                self.queued_transcript_items.set(k, (key, QueuedTranscript { transcript }));
            },
            None => {
                self.queued_transcript_items.push((key, QueuedTranscript { transcript }));
            },
        }
        assert(self@.queued_transcripts =~= keyed_insert(before.queued_transcripts, key@, transcript@));
    }

    fn insert_queued_speech(&mut self, key: String, speech: QueuedSpeech)
        requires
            old(self).wf(),
        ensures
            final(self).wf(),
            final(self)@ == (ConversationView {
                queued_speech: keyed_insert(old(self)@.queued_speech, key@, speech@),
                ..old(self)@
            }),
    {
        let ghost before = self@;
        let ghost sv = speech@;
        proof {
            lemma_keyed_insert(before.queued_speech, key@, sv);
        }
        match self.find_speech(&key) {
            Some(k) => {
                self.queued_speech_items.set(k, (key, speech));
            },
            None => {
                self.queued_speech_items.push((key, speech));
            },
        }
        assert(self@.queued_speech =~= keyed_insert(before.queued_speech, key@, sv));
    }

    /// Handles `conversation.item.created`.
    fn handle_item_created(&mut self, item: Item) -> (r: Result<ConversationHandlerReturntype, ConversationError>)
        requires
            old(self).wf(),
        ensures
            final(self).wf(),
            final(self)@ == old(self)@.item_created(item@).0,
            outcome_of(r) == Ok::<_, ConversationError>(
                (Some(old(self)@.item_created(item@).1), None::<ItemContentDeltaView>),
            ),
    {
        let ghost s0 = self@;
        let ghost iv = item@;
        let mut item = item;
        let is_new = self.find_item(&item.formatted.id).is_none();
        let shown = item.base.shown_text();
        item.set_formatted_text(shown);
        let ghost s1 = self@;
        let ghost i1 = item@;
        assert(i1 == iv.with_text(iv.base.shown_text()));
        match self.find_speech(&item.formatted.id) {
            Some(k) => {
                let (_key, speech) = self.queued_speech_items.remove(k);
                let audio = match speech.audio {
                    Some(a) => a,
                    None => Vec::new(),
                };
                item.set_formatted_audio(audio);
                proof {
                    assert(self@.queued_speech =~= s1.queued_speech.remove(k as int));
                    lemma_keys_unique_remove(s1.queued_speech, k as int);
                }
            },
            None => {},
        }
        let ghost s2 = self@;
        let ghost i2 = item@;
        assert((s2, i2) == s1.take_queued_speech(i1));
        match self.find_transcript(&item.formatted.id) {
            Some(k) => {
                let (_key, queued) = self.queued_transcript_items.remove(k);
                item.set_formatted_transcript(queued.transcript);
                proof {
                    assert(self@.queued_transcripts =~= s2.queued_transcripts.remove(k as int));
                    lemma_keys_unique_remove(s2.queued_transcripts, k as int);
                }
            },
            None => {},
        }
        let ghost s3 = self@;
        let ghost i3 = item@;
        assert((s3, i3) == s2.take_queued_transcript(i2));
        match item.get_type() {
            BaseItemType::Message => {
                let is_user = match item.get_role() {
                    Some(Role::User) => true,
                    _ => false,
                };
                if is_user {
                    item.base.set_status(ItemStatus::Completed);
                    let queued = self.queued_input_audio.take();
                    match queued {
                        Some(audio) => item.set_formatted_audio(audio),
                        None => {},
                    }
                } else {
                    item.base.set_status(ItemStatus::InProgress);
                }
            },
            BaseItemType::FunctionCall => {
                let tool = match &item.base {
                    BaseItem::FunctionCall(function_call) => Some(
                        FormattedTool {
                            tool_type: FUNCTION_TOOL_TYPE.to_owned(),
                            name: function_call.name.clone(),
                            call_id: function_call.call_id.clone(),
                            arguments: Some(String::new()),
                        },
                    ),
                    _ => None,
                };
                match tool {
                    Some(t) => item.set_formatted_tool(t),
                    None => {},
                }
                item.base.set_status(ItemStatus::InProgress);
            },
            BaseItemType::FunctionCallOutput => {
                let output = match &item.base {
                    BaseItem::FunctionCallOutput(o) => Some(o.output.clone()),
                    _ => None,
                };
                match output {
                    Some(o) => item.set_formatted_output(o),
                    None => {},
                }
                item.base.set_status(ItemStatus::Completed);
            },
        }
        let ghost s4 = self@;
        assert((s4, item@) == s3.settle_created(i3));
        assert(s4.items == s0.items);
        assert(item@.id() == iv.id());
        if is_new {
            let stored = item.clone();
            self.items.push(stored);
            proof {
                assert(self@.items =~= s4.items.push(item@));
                lemma_item_ids_push(s4.items, item@);
            }
        }
        Ok((Some(item), None))
    }

    /// Handles `conversation.item.truncated`.
    fn handle_item_truncated(&mut self, item_id: String, audio_end_ms: u64) -> (r: Result<
        ConversationHandlerReturntype,
        ConversationError,
    >)
        requires
            old(self).wf(),
        ensures
            final(self).wf(),
            (final(self)@, outcome_of(r)) == old(self)@.item_truncated(item_id, audio_end_ms),
    {
        match self.find_item(&item_id) {
            None => Err(ConversationError::ItemNotFound(item_id)),
            Some(i) => {
                let mut item = self.item_at(i);
                let ms = audio_end_ms as u128;
                let frequency = self.default_frequency as u128;
                assert(ms * frequency <= 0xffff_ffff_ffff_ffffu128 * 0xffff_ffff_ffff_ffffu128)
                    by (nonlinear_arith)
                    requires
                        ms <= 0xffff_ffff_ffff_ffffu128,
                        frequency <= 0xffff_ffff_ffff_ffffu128,
                ;
                let product: u128 = ms * frequency;
                let end_index: u128 = product / 1000;
                let len = item.formatted.formatted.audio.len();
                if end_index < len as u128 {
                    item.formatted.formatted.audio.truncate(end_index as usize);
                }
                item.formatted.formatted.transcript = String::new();
                let ret = item.clone();
                self.replace_item(i, item);
                Ok((Some(ret), None))
            },
        }
    }

    /// Handles `conversation.item.deleted`.
    fn handle_item_deleted(&mut self, item_id: String) -> (r: Result<
        ConversationHandlerReturntype,
        ConversationError,
    >)
        requires
            old(self).wf(),
        ensures
            final(self).wf(),
            (final(self)@, outcome_of(r)) == old(self)@.item_deleted(item_id),
    {
        match self.find_item(&item_id) {
            None => Err(ConversationError::ItemNotFound(item_id)),
            Some(i) => {
                let ghost before = self@;
                let item = self.items.remove(i);
                proof {
                    assert(self@.items =~= before.items.remove(i as int));
                    lemma_item_ids_remove(before.items, i as int);
                }
                Ok((Some(item), None))
            },
        }
    }

    /// Handles `conversation.item.input_audio_transcription.completed`.
    fn handle_input_audio_transcription_completed(
        &mut self,
        item_id: String,
        content_index: usize,
        transcript: String,
    ) -> (r: Result<ConversationHandlerReturntype, ConversationError>)
        requires
            old(self).wf(),
        ensures
            final(self).wf(),
            (final(self)@, outcome_of(r)) == old(self)@.transcription_completed(
                item_id,
                content_index,
                transcript,
            ),
    {
        proof {
            reveal_strlit(" ");
        }
        let formatted_transcript = if transcript.as_str().is_empty() {
            let space = " ".to_owned();
            assert(space@ =~= seq![' ']);
            space
        } else {
            transcript.clone()
        };
        assert(formatted_transcript@ == (if transcript@.len() == 0 {
            seq![' ']
        } else {
            transcript@
        }));
        match self.find_item(&item_id) {
            Some(i) => {
                let mut item = self.item_at(i);
                item.base.set_part_transcript(content_index, transcript.as_str());
                item.set_formatted_transcript(formatted_transcript);
                let ret = item.clone();
                self.replace_item(i, item);
                Ok(
                    (
                        Some(ret),
                        Some(
                            ItemContentDelta {
                                text: None,
                                audio: None,
                                arguments: None,
                                transcript: Some(transcript),
                            },
                        ),
                    ),
                )
            },
            None => {
                self.insert_queued_transcript(item_id, formatted_transcript);
                Ok((None, None))
            },
        }
    }

    /// Handles `input_audio_buffer.speech_started`.
    fn handle_speech_started(&mut self, item_id: String, audio_start_ms: u64) -> (r: Result<
        ConversationHandlerReturntype,
        ConversationError,
    >)
        requires
            old(self).wf(),
        ensures
            final(self).wf(),
            final(self)@ == old(self)@.speech_started(item_id, audio_start_ms),
            outcome_of(r) == ok_none(),
    {
        let speech = QueuedSpeech { audio_start_ms, audio_end_ms: None, audio: None };
        self.insert_queued_speech(item_id, speech);
        Ok((None, None))
    }

    /// Handles `input_audio_buffer.speech_stopped`.
    fn handle_speech_stopped(&mut self, item_id: String, audio_end_ms: u64) -> (r: Result<
        ConversationHandlerReturntype,
        ConversationError,
    >)
        requires
            old(self).wf(),
        ensures
            final(self).wf(),
            final(self)@ == old(self)@.speech_stopped(item_id, audio_end_ms),
            outcome_of(r) == ok_none(),
    {
        let ghost before = self@;
        match self.find_speech(&item_id) {
            Some(k) => {
                let (key, mut speech) = self.queued_speech_items.remove(k);
                assert(speech@ == before.queued_speech[k as int].1);
                speech.audio_end_ms = Some(audio_end_ms);
                match &self.queued_input_audio {
                    Some(input_audio) => {
                        assert(Some(input_audio@) == before.queued_input_audio);
                        let available = input_audio.len();
                        let start = clamped_sample_index(
                            speech.audio_start_ms,
                            self.default_frequency,
                            available,
                        );
                        let end = clamped_sample_index(audio_end_ms, self.default_frequency, available);
                        assert(start as int == before.clamped_index(speech.audio_start_ms, input_audio@.len()));
                        assert(end as int == before.clamped_index(audio_end_ms, input_audio@.len()));
                        assert(key_index(before.queued_speech, item_id@) == Some(k as int));
                        let stop = if end < start {
                            start
                        } else {
                            end
                        };
                        speech.audio = Some(copy_range(input_audio, start, stop));
                    },
                    None => {},
                }
                let ghost sv = speech@;
                self.queued_speech_items.insert(k, (key, speech));
                proof {
                    assert(self@.queued_speech =~= before.queued_speech.update(
                        k as int,
                        (item_id@, sv),
                    ));
                    lemma_keys_unique_update(before.queued_speech, k as int, (item_id@, sv));
                }
            },
            None => {},
        }
        Ok((None, None))
    }

    /// Handles `response.created`.
    fn handle_response_created(&mut self, response: ResponseResourceType) -> (r: Result<
        ConversationHandlerReturntype,
        ConversationError,
    >)
        requires
            old(self).wf(),
        ensures
            final(self).wf(),
            final(self)@ == old(self)@.response_created(response@),
            outcome_of(r) == ok_none(),
    {
        let ghost before = self@;
        let ghost rv = response@;
        if self.find_response(&response.id).is_none() {
            self.responses.push(response);
            proof {
                assert(self@.responses =~= before.responses.push(rv));
                lemma_response_ids_push(before.responses, rv);
            }
        }
        Ok((None, None))
    }

    /// Handles `response.output_item.added`.
    fn handle_output_item_added(&mut self, response_id: String, item: Item) -> (r: Result<
        ConversationHandlerReturntype,
        ConversationError,
    >)
        requires
            old(self).wf(),
        ensures
            final(self).wf(),
            (final(self)@, outcome_of(r)) == old(self)@.output_item_added(response_id, item@),
    {
        match self.find_response(&response_id) {
            Some(r) => {
                let ghost before = self@;
                let mut response = self.responses[r].clone();
                let ghost iv = item@;
                response.output.push(item);
                assert(response@.output =~= before.responses[r as int].output.push(iv));
                let ghost rv = response@;
                self.responses.set(r, response);
                proof {
                    assert(self@.responses =~= before.responses.update(r as int, rv));
                    lemma_response_ids_update(before.responses, r as int, rv);
                }
                Ok((None, None))
            },
            None => Err(ConversationError::ResponseNotFound(response_id)),
        }
    }

    /// Handles `response.output_item.done`.
    fn handle_output_item_done(&mut self, item: Item) -> (r: Result<
        ConversationHandlerReturntype,
        ConversationError,
    >)
        requires
            old(self).wf(),
        ensures
            final(self).wf(),
            (final(self)@, outcome_of(r)) == old(self)@.output_item_done(item),
    {
        match self.find_item(&item.formatted.id) {
            Some(i) => {
                let mut found = self.item_at(i);
                found.base.set_status(item.base.status());
                let ret = found.clone();
                self.replace_item(i, found);
                Ok((Some(ret), None))
            },
            None => Err(ConversationError::ItemNotFound(item.formatted.id)),
        }
    }

    /// Handles `response.content_part.added`.
    fn handle_content_part_added(&mut self, item_id: String, part: ContentPart) -> (r: Result<
        ConversationHandlerReturntype,
        ConversationError,
    >)
        requires
            old(self).wf(),
        ensures
            final(self).wf(),
            (final(self)@, outcome_of(r)) == old(self)@.content_part_added(item_id, part@),
    {
        match self.find_item(&item_id) {
            Some(i) => {
                let mut item = self.item_at(i);
                let ghost pv = part@;
                let ghost old_base = item@.base;
                match &mut item.base {
                    BaseItem::Assistant(assistant_item) => {
                        assistant_item.content.push(part);
                    },
                    BaseItem::User(user_item) => {
                        user_item.content.push(part);
                    },
                    _ => {
                        let kind = item.base.kind();
                        return Err(ConversationError::UnexpectedItemType(kind));
                    },
                }
                proof {
                    match item@.base {
                        BaseItemView::Assistant(m) => {
                            assert(m.content =~= old_base->Assistant_0.content.push(pv));
                        },
                        BaseItemView::User(m) => {
                            assert(m.content =~= old_base->User_0.content.push(pv));
                        },
                        _ => {},
                    }
                }
                let ret = item.clone();
                self.replace_item(i, item);
                Ok((Some(ret), None))
            },
            None => Err(ConversationError::ItemNotFound(item_id)),
        }
    }

    /// Handles `response.audio_transcript.delta`.
    fn handle_audio_transcript_delta(
        &mut self,
        item_id: String,
        content_index: usize,
        delta: String,
    ) -> (r: Result<ConversationHandlerReturntype, ConversationError>)
        requires
            old(self).wf(),
        ensures
            final(self).wf(),
            (final(self)@, outcome_of(r)) == old(self)@.audio_transcript_delta(
                item_id,
                content_index,
                delta,
            ),
    {
        match self.find_item(&item_id) {
            Some(i) => {
                let mut item = self.item_at(i);
                item.append_transcript_delta(content_index, delta.as_str());
                let ret = item.clone();
                self.replace_item(i, item);
                Ok(
                    (
                        Some(ret),
                        Some(
                            ItemContentDelta {
                                text: None,
                                audio: None,
                                arguments: None,
                                transcript: Some(delta),
                            },
                        ),
                    ),
                )
            },
            None => Err(ConversationError::ItemNotFound(item_id)),
        }
    }

    /// Handles `response.audio.delta`.
    fn handle_audio_delta(&mut self, evt: ResponseAudioDeltaEvent) -> (r: Result<
        ConversationHandlerReturntype,
        ConversationError,
    >)
        requires
            old(self).wf(),
            old(self)@.audio_delta_decodable(evt),
        ensures
            final(self).wf(),
            (final(self)@, outcome_of(r)) == old(self)@.audio_delta(evt),
    {
        match self.find_item(&evt.item_id) {
            Some(i) => {
                let mut item = self.item_at(i);
                let array_buffer = RealtimeUtils::base64_to_array_buffer(evt.delta.as_str());
                let append_values = le_bytes_to_pcm(&array_buffer);
                item.append_formatted_audio(crate::types::clone_samples(&append_values));
                let ret = item.clone();
                self.replace_item(i, item);
                Ok(
                    (
                        Some(ret),
                        Some(
                            ItemContentDelta {
                                text: None,
                                audio: Some(append_values),
                                arguments: None,
                                transcript: None,
                            },
                        ),
                    ),
                )
            },
            None => Err(ConversationError::ItemNotFound(evt.item_id)),
        }
    }

    /// Handles `response.text.delta`.
    fn handle_text_delta(&mut self, item_id: String, content_index: usize, delta: String) -> (r:
        Result<ConversationHandlerReturntype, ConversationError>)
        requires
            old(self).wf(),
        ensures
            final(self).wf(),
            (final(self)@, outcome_of(r)) == old(self)@.text_delta(item_id, content_index, delta),
    {
        match self.find_item(&item_id) {
            Some(i) => {
                let mut item = self.item_at(i);
                item.append_text(content_index, delta.as_str());
                let ret = item.clone();
                self.replace_item(i, item);
                Ok(
                    (
                        Some(ret),
                        Some(
                            ItemContentDelta {
                                text: Some(delta),
                                audio: None,
                                arguments: None,
                                transcript: None,
                            },
                        ),
                    ),
                )
            },
            None => Err(ConversationError::ItemNotFound(item_id)),
        }
    }

    /// Handles `response.function_call_arguments.delta`.
    fn handle_function_call_arguments_delta(&mut self, item_id: String, delta: String) -> (r:
        Result<ConversationHandlerReturntype, ConversationError>)
        requires
            old(self).wf(),
        ensures
            final(self).wf(),
            (final(self)@, outcome_of(r)) == old(self)@.function_call_arguments_delta(
                item_id,
                delta,
            ),
    {
        match self.find_item(&item_id) {
            Some(i) => {
                let mut item = self.item_at(i);
                let ghost before = item@;
                match &mut item.base {
                    BaseItem::FunctionCall(function_call) => {
                        function_call.arguments.append(delta.as_str());
                    },
                    _ => {},
                }
                let tool = item.formatted.formatted.tool.take();
                let new_tool = match tool {
                    Some(t) => {
                        let arguments = match t.arguments {
                            Some(a) => {
                                let mut a = a;
                                a.append(delta.as_str());
                                a
                            },
                            None => delta.clone(),
                        };
                        Some(
                            FormattedTool {
                                tool_type: t.tool_type,
                                name: t.name,
                                call_id: t.call_id,
                                arguments: Some(arguments),
                            },
                        )
                    },
                    None => None,
                };
                item.formatted.formatted.tool = new_tool;
                assert(item@ == ConversationView::arguments_appended(before, delta@));
                let ret = item.clone();
                self.replace_item(i, item);
                Ok(
                    (
                        Some(ret),
                        Some(
                            ItemContentDelta {
                                text: None,
                                audio: None,
                                arguments: Some(delta),
                                transcript: None,
                            },
                        ),
                    ),
                )
            },
            None => Err(ConversationError::ItemNotFound(item_id)),
        }
    }

    fn find_item(&self, id: &String) -> (r: Option<usize>)
        requires
            self.wf(),
        ensures
            match r {
                Some(i) => item_index(self@.items, id@) == Some(i as int) && i < self.items@.len(),
                None => item_index(self@.items, id@) is None,
            },
    {
        let mut i: usize = 0;
        while i < self.items.len()
            invariant
                self.wf(),
                i <= self.items@.len(),
                forall|j: int| 0 <= j < i ==> #[trigger] self@.items[j].id() != id@,
            decreases self.items@.len() - i,
        {
            if self.items[i].formatted.id == *id {
                proof {
                    let items = self@.items;
                    assert(items[i as int].id() == id@);
                    let c = choose|j: int| #![trigger items[j]] 0 <= j < items.len() && items[j].id() == id@;
                    assert(items[c].id() == items[i as int].id());
                }
                return Some(i);
            }
            i = i + 1;
        }
        None
    }

    fn find_response(&self, id: &String) -> (r: Option<usize>)
        requires
            self.wf(),
        ensures
            match r {
                Some(i) => response_index(self@.responses, id@) == Some(i as int) && i
                    < self.responses@.len(),
                None => response_index(self@.responses, id@) is None,
            },
    {
        let mut i: usize = 0;
        while i < self.responses.len()
            invariant
                self.wf(),
                i <= self.responses@.len(),
                forall|j: int| 0 <= j < i ==> #[trigger] self@.responses[j].id != id@,
            decreases self.responses@.len() - i,
        {
            if self.responses[i].id == *id {
                proof {
                    let rs = self@.responses;
                    assert(rs[i as int].id == id@);
                    let c = choose|j: int| #![trigger rs[j]] 0 <= j < rs.len() && rs[j].id == id@;
                    assert(rs[c].id == rs[i as int].id);
                }
                return Some(i);
            }
            i = i + 1;
        }
        None
    }

    fn find_speech(&self, id: &String) -> (r: Option<usize>)
        requires
            self.wf(),
        ensures
            match r {
                Some(i) => key_index(self@.queued_speech, id@) == Some(i as int) && i
                    < self.queued_speech_items@.len(),
                None => key_index(self@.queued_speech, id@) is None,
            },
    {
        let mut i: usize = 0;
        while i < self.queued_speech_items.len()
            invariant
                self.wf(),
                i <= self.queued_speech_items@.len(),
                forall|j: int| 0 <= j < i ==> #[trigger] self@.queued_speech[j].0 != id@,
            decreases self.queued_speech_items@.len() - i,
        {
            if self.queued_speech_items[i].0 == *id {
                proof {
                    let s = self@.queued_speech;
                    assert(s[i as int].0 == id@);
                    let c = choose|j: int| #![trigger s[j]] 0 <= j < s.len() && s[j].0 == id@;
                    assert(s[c].0 == s[i as int].0);
                }
                return Some(i);
            }
            i = i + 1;
        }
        None
    }

    fn find_transcript(&self, id: &String) -> (r: Option<usize>)
        requires
            self.wf(),
        ensures
            match r {
                Some(i) => key_index(self@.queued_transcripts, id@) == Some(i as int) && i
                    < self.queued_transcript_items@.len(),
                None => key_index(self@.queued_transcripts, id@) is None,
            },
    {
        let mut i: usize = 0;
        while i < self.queued_transcript_items.len()
            invariant
                self.wf(),
                i <= self.queued_transcript_items@.len(),
                forall|j: int| 0 <= j < i ==> #[trigger] self@.queued_transcripts[j].0 != id@,
            decreases self.queued_transcript_items@.len() - i,
        {
            if self.queued_transcript_items[i].0 == *id {
                proof {
                    let s = self@.queued_transcripts;
                    assert(s[i as int].0 == id@);
                    let c = choose|j: int| #![trigger s[j]] 0 <= j < s.len() && s[j].0 == id@;
                    assert(s[c].0 == s[i as int].0);
                }
                return Some(i);
            }
            i = i + 1;
        }
        None
    }
}

} // verus!
