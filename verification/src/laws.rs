use vstd::prelude::*;

use crate::client_inner::{session_updated, tool_index, tool_names_unique};
use crate::conversation::{
    item_ids_unique, item_index, response_ids_unique, response_index, key_index, keyed_insert, keys_unique, ok_none, ConversationView,
    Outcome,
};
use crate::event::Event;
use crate::item::{BaseItemType, BaseItemView, ItemView, Role};
use crate::session::{
    collapsed_whitespace, is_collapsed, lemma_collapse_idempotent, lemma_collapsed_whitespace_is_collapsed,
    SessionConfigUpdate, SessionConfigView, ToolDefinition,
};
use crate::types::{ContentPart, ContentPartView, ResponseOutputItemDoneEvent};
use crate::types::QueuedSpeechView;

verus! {

proof fn lemma_key_index_of_insert<V>(s: Seq<(Seq<char>, V)>, k: Seq<char>, v: V)
    requires
        keys_unique(s),
    ensures
        key_index(keyed_insert(s, k, v), k) matches Some(j) && keyed_insert(s, k, v)[j] == (k, v),
{
    let t = keyed_insert(s, k, v);
    match key_index(s, k) {
        Some(i) => {
            assert(t[i] == (k, v));
            let c = choose|c: int| #![trigger t[c]] 0 <= c < t.len() && t[c].0 == k;
            if c != i {
                assert(s[c].0 == k);
                assert(s[i].0 == k);
            }
        },
        None => {
            let last = s.len() as int;
            assert(t[last] == (k, v));
            let c = choose|c: int| #![trigger t[c]] 0 <= c < t.len() && t[c].0 == k;
            if c < last {
                assert(s[c].0 == k);
            }
        },
    }
}

/// Once the server has announced an item, the conversation holds an item
/// with its id; an item with a new id is stored at the end, as it is handed back.
pub proof fn lemma_created_item_is_stored(s: ConversationView, item: ItemView)
    requires
        s.wf(),
    ensures
        item_index(s.item_created(item).0.items, item.id()) is Some,
        item_index(s.items, item.id()) is None ==> s.item_created(item).0.items == s.items.push(
            s.item_created(item).1,
        ),
        item_index(s.items, item.id()) is Some ==> s.item_created(item).0.items == s.items,
        item_index(s.items, item.id()) is None ==> item_index(s.item_created(item).0.items, item.id())
            == Some(s.items.len() as int),
        item_index(s.items, item.id()) is None ==> s.item_created(item).0.items[s.items.len() as int]
            == s.item_created(item).1,
{
    let t = s.item_created(item).0;
    if item_index(s.items, item.id()) is None {
        assert(s.item_created(item).1.id() == item.id());
        assert(t.items[s.items.len() as int].id() == item.id());
        let c = choose|c: int| #![trigger t.items[c]] 0 <= c < t.items.len() && t.items[c].id() == item.id();
        if c < s.items.len() {
            assert(s.items[c].id() == item.id());
        }
    } else {
        let i = item_index(s.items, item.id()).unwrap();
        assert(t.items[i].id() == item.id());
    }
}

/// An item that was deleted can no longer be found.
pub proof fn lemma_deleted_item_is_gone(s: ConversationView, item_id: String)
    requires
        s.wf(),
    ensures
        item_index(s.item_deleted(item_id).0.items, item_id@) is None,
        s.item_deleted(item_id).1 is Ok <==> item_index(s.items, item_id@) is Some,
{
    match item_index(s.items, item_id@) {
        None => {},
        Some(i) => {
            let t = s.items.remove(i);
            if exists|j: int| #![trigger t[j]] 0 <= j < t.len() && t[j].id() == item_id@ {
                let j = choose|j: int| #![trigger t[j]] 0 <= j < t.len() && t[j].id() == item_id@;
                let sj = if j < i { j } else { j + 1 };
                assert(t[j] == s.items[sj]);
                assert(s.items[i].id() == item_id@);
            }
        },
    }
}

/// A transcript that arrives before its item is given to the item when the
/// server announces it (an empty transcript shows as a single space).
pub proof fn lemma_early_transcript_reaches_item(
    s: ConversationView,
    item_id: String,
    content_index: usize,
    transcript: String,
    item: ItemView,
)
    requires
        s.wf(),
        item_index(s.items, item_id@) is None,
        item.id() == item_id@,
    ensures
        ({
            let queued = s.transcription_completed(item_id, content_index, transcript).0;
            let shown = if transcript@.len() == 0 {
                seq![' ']
            } else {
                transcript@
            };
            queued.item_created(item).1.props().transcript == shown
        }),
{
    let shown = if transcript@.len() == 0 {
        seq![' ']
    } else {
        transcript@
    };
    let queued = s.transcription_completed(item_id, content_index, transcript).0;
    lemma_key_index_of_insert(s.queued_transcripts, item_id@, shown);
    let (s1, i1) = queued.take_queued_speech(item.with_text(item.base.shown_text()));
    assert(s1.queued_transcripts == queued.queued_transcripts);
    assert(i1.id() == item_id@);
}

/// Speech that the server detected in queued input audio reaches the
/// assistant or system item that it belongs to: the item is announced with
/// the stretch of input audio between the speech's start and end, cut to
/// the audio there is.
pub proof fn lemma_detected_speech_reaches_item(
    s: ConversationView,
    item_id: String,
    audio_start_ms: u64,
    audio_end_ms: u64,
    item: ItemView,
)
    requires
        s.wf(),
        s.queued_input_audio is Some,
        item.id() == item_id@,
        item.base.role() != Some(Role::User),
        item.base.item_type() == BaseItemType::Message,
    ensures
        ({
            let started = s.speech_started(item_id, audio_start_ms);
            let stopped = started.speech_stopped(item_id, audio_end_ms);
            let audio = s.queued_input_audio.unwrap();
            let start = s.clamped_index(audio_start_ms, audio.len());
            let end = s.clamped_index(audio_end_ms, audio.len());
            stopped.item_created(item).1.props().audio == audio.subrange(
                start,
                if end < start {
                    start
                } else {
                    end
                },
            )
        }),
{
    let started = s.speech_started(item_id, audio_start_ms);
    let speech = QueuedSpeechView { audio_start_ms, audio_end_ms: None, audio: None };
    lemma_key_index_of_insert(s.queued_speech, item_id@, speech);
    let k = key_index(started.queued_speech, item_id@).unwrap();
    let stopped = started.speech_stopped(item_id, audio_end_ms);
    let audio = s.queued_input_audio.unwrap();
    let start = s.clamped_index(audio_start_ms, audio.len());
    let end = s.clamped_index(audio_end_ms, audio.len());
    let clipped = QueuedSpeechView {
        audio_start_ms,
        audio_end_ms: Some(audio_end_ms),
        audio: Some(
            audio.subrange(
                start,
                if end < start {
                    start
                } else {
                    end
                },
            ),
        ),
    };
    assert(stopped.queued_speech == started.queued_speech.update(k, (item_id@, clipped)));
    let q = stopped.queued_speech;
    assert(q[k] == (item_id@, clipped));
    let c = choose|c: int| #![trigger q[c]] 0 <= c < q.len() && q[c].0 == item_id@;
    if c != k {
        assert(started.queued_speech[c].0 == item_id@);
        assert(started.queued_speech[k].0 == item_id@);
    }
    assert(key_index(q, item_id@) == Some(k));
}

/// Deltas compose: appending two transcript deltas one after the other is
/// appending them joined.
pub proof fn lemma_transcript_deltas_compose(
    item: ItemView,
    content_index: int,
    first: Seq<char>,
    second: Seq<char>,
)
    ensures
        item.with_transcript_delta(content_index, first).with_transcript_delta(
            content_index,
            second,
        ) == item.with_transcript_delta(content_index, first + second),
{
    let once = item.with_transcript_delta(content_index, first);
    let twice = once.with_transcript_delta(content_index, second);
    let joined = item.with_transcript_delta(content_index, first + second);
    assert(twice.props().transcript =~= joined.props().transcript);
    assert(twice.base =~= joined.base) by {
        match item.base {
            crate::item::BaseItemView::Assistant(m) => {
                if 0 <= content_index < m.content.len() && m.content[content_index] is Text {
                    assert(m.content[content_index]->Text_0.text + first + second
                        =~= m.content[content_index]->Text_0.text + (first + second));
                }
                if 0 <= content_index < m.content.len() && m.content[content_index] is Audio {
                    let t = match m.content[content_index]->Audio_0.transcript {
                        Some(t) => t,
                        None => Seq::empty(),
                    };
                    assert(t + first + second =~= t + (first + second));
                    assert(Seq::<char>::empty() + first =~= first);
                }
                assert(twice.base->Assistant_0.content =~= joined.base->Assistant_0.content);
            },
            crate::item::BaseItemView::User(m) => {
                if 0 <= content_index < m.content.len() && m.content[content_index] is Text {
                    assert(m.content[content_index]->Text_0.text + first + second
                        =~= m.content[content_index]->Text_0.text + (first + second));
                }
                if 0 <= content_index < m.content.len() && m.content[content_index] is Audio {
                    let t = match m.content[content_index]->Audio_0.transcript {
                        Some(t) => t,
                        None => Seq::empty(),
                    };
                    assert(t + first + second =~= t + (first + second));
                    assert(Seq::<char>::empty() + first =~= first);
                }
                assert(twice.base->User_0.content =~= joined.base->User_0.content);
            },
            crate::item::BaseItemView::System(m) => {
                if 0 <= content_index < m.content.len() {
                    assert(m.content[content_index].text + first + second =~= m.content[content_index].text
                        + (first + second));
                }
                assert(twice.base->System_0.content =~= joined.base->System_0.content);
            },
            _ => {},
        }
    }
}

/// Truncating an item keeps a prefix of its audio, no longer than the
/// offset allows, and empties its transcript.
pub proof fn lemma_truncation_keeps_prefix(s: ConversationView, item_id: String, audio_end_ms: u64)
    requires
        s.wf(),
        item_index(s.items, item_id@) is Some,
    ensures
        ({
            let i = item_index(s.items, item_id@).unwrap();
            let before = s.items[i].props().audio;
            let after = s.item_truncated(item_id, audio_end_ms).0.items[i].props();
            &&& after.audio.len() <= before.len()
            &&& after.audio.len() <= s.sample_index(audio_end_ms)
                || after.audio.len() == before.len()
            &&& after.audio == before.subrange(0, after.audio.len() as int)
            &&& after.transcript.len() == 0
        }),
{
    let i = item_index(s.items, item_id@).unwrap();
    let before = s.items[i].props().audio;
    let after = s.item_truncated(item_id, audio_end_ms).0.items[i].props();
    assert(after.audio =~= before.subrange(0, after.audio.len() as int));
}

/// Events about the session or the connection, rather than the
/// conversation, leave the conversation as it is and give nothing back.
pub proof fn lemma_meta_events_change_nothing(s: ConversationView, event: Event)
    requires
        event is SessionCreated || event is SessionUpdated || event is RateLimitsUpdated
            || event is ClientEvent || event is ServerEvent || event is Ping || event is Close,
    ensures
        s.can_process(event),
        s.process(event) == (s, ok_none()),
{
}

/// Once an update has been applied, applying an update that holds nothing
/// leaves the instructions as they are: their whitespace is already collapsed.
pub proof fn lemma_default_update_keeps_instructions(
    cfg: SessionConfigView,
    update: SessionConfigUpdate,
    registered: Seq<ToolDefinition>,
)
    requires
        session_updated(cfg, update, registered).1 is Ok,
    ensures
        ({
            let after = session_updated(cfg, update, registered).0;
            session_updated(after, SessionConfigUpdate::default_spec(), registered).0.instructions
                == after.instructions
        }),
{
    let applied = update.applied_to(cfg);
    lemma_collapse_idempotent(applied.instructions);
}

/// Removing a tool's handler undoes adding it.
pub proof fn lemma_remove_undoes_add(tools: Seq<ToolDefinition>, definition: ToolDefinition)
    requires
        tool_names_unique(tools),
        tool_index(tools, definition.name@) is None,
    ensures
        tool_index(tools.push(definition), definition.name@) == Some(tools.len() as int),
        tools.push(definition).remove(tools.len() as int) == tools,
{
    let t = tools.push(definition);
    let last = tools.len() as int;
    assert(t[last].name@ == definition.name@);
    let c = choose|c: int| #![trigger t[c]] 0 <= c < t.len() && t[c].name@ == definition.name@;
    if c < last {
        assert(tools[c].name@ == definition.name@);
    }
    assert(t.remove(last) =~= tools);
}

/// Where ids are unique, the item with id `items[i].id()` is found at `i`.
proof fn lemma_item_index_at(items: Seq<ItemView>, i: int)
    requires
        item_ids_unique(items),
        0 <= i < items.len(),
    ensures
        item_index(items, items[i].id()) == Some(i),
{
    let id = items[i].id();
    assert(items[i].id() == id);
    let c = choose|c: int| #![trigger items[c]] 0 <= c < items.len() && items[c].id() == id;
    assert(items[c].id() == items[i].id());
}

/// Deleting an item removes that one entry: the items before it stay where
/// they were, the items after it move up by one, in their order, and the
/// deleted item is handed back.
pub proof fn lemma_delete_keeps_order(s: ConversationView, item_id: String, i: int)
    requires
        s.wf(),
        0 <= i < s.items.len(),
        s.items[i].id() == item_id@,
    ensures
        ({
            let (t, out) = s.process(Event::ConversationItemDeleted { item_id });
            &&& t.items.len() == s.items.len() - 1
            &&& forall|j: int| 0 <= j < i ==> #[trigger] t.items[j] == s.items[j]
            &&& forall|j: int| i <= j < t.items.len() ==> #[trigger] t.items[j] == s.items[j + 1]
            &&& out == Ok::<_, crate::conversation::ConversationError>((Some(s.items[i]), None::<crate::item::ItemContentDeltaView>))
        }),
{
    lemma_item_index_at(s.items, i);
}

/// When the server finishes an output item, the stored item with that id
/// takes the finished item's status, keeps its kind and formatted part, is
/// the item handed back, and no other item changes.
pub proof fn lemma_output_item_done_updates_stored(s: ConversationView, res: ResponseOutputItemDoneEvent, i: int)
    requires
        s.wf(),
        0 <= i < s.items.len(),
        s.items[i].id() == res.item@.id(),
        !(s.items[i].base is FunctionCallOutput),
    ensures
        ({
            let (t, out) = s.process(Event::ResponseOutputItemDone(res));
            &&& t.items.len() == s.items.len()
            &&& out matches Ok((Some(x), None)) && t.items[i] == x
            &&& t.items[i].base.status() == res.item@.base.status()
            &&& t.items[i].base.kind() == s.items[i].base.kind()
            &&& t.items[i].formatted == s.items[i].formatted
            &&& forall|j: int| 0 <= j < s.items.len() && j != i ==> #[trigger] t.items[j] == s.items[j]
        }),
{
    lemma_item_index_at(s.items, i);
}

/// The content of a user or assistant message.
pub open spec fn message_content(b: BaseItemView) -> Option<Seq<ContentPartView>> {
    match b {
        BaseItemView::User(m) => Some(m.content),
        BaseItemView::Assistant(m) => Some(m.content),
        _ => None,
    }
}

/// An added content part joins the stored message at the end: its earlier
/// parts stay, it has one part more, the stored item is the one handed
/// back, and no other item changes.
pub proof fn lemma_content_part_joins_stored(s: ConversationView, item_id: String, part: ContentPart, i: int)
    requires
        s.wf(),
        0 <= i < s.items.len(),
        s.items[i].id() == item_id@,
        message_content(s.items[i].base) is Some,
    ensures
        ({
            let (t, out) = s.process(Event::ResponseContentPartAdded { item_id, part });
            let before = message_content(s.items[i].base).unwrap();
            &&& t.items.len() == s.items.len()
            &&& out matches Ok((Some(x), None)) && t.items[i] == x
            &&& message_content(t.items[i].base) matches Some(after) && {
                &&& after.len() == before.len() + 1
                &&& after[before.len() as int] == part@
                &&& forall|k: int| 0 <= k < before.len() ==> #[trigger] after[k] == before[k]
            }
            &&& t.items[i].base.content_part_count() == s.items[i].base.content_part_count() + 1
            &&& t.items[i].formatted == s.items[i].formatted
            &&& forall|j: int| 0 <= j < s.items.len() && j != i ==> #[trigger] t.items[j] == s.items[j]
        }),
{
    lemma_item_index_at(s.items, i);
}

/// The arguments that a function call item's formatted tool holds.
pub open spec fn tool_arguments(it: ItemView) -> Option<Seq<char>> {
    match it.props().tool {
        Some(t) => t.arguments,
        None => None,
    }
}

/// Function call argument deltas accumulate: after two deltas, the call's
/// arguments and its formatted tool's arguments are what they were followed
/// by both deltas, in order; the item stays where it was.
pub proof fn lemma_argument_deltas_accumulate(s: ConversationView, item_id: String, first: String, second: String, i: int)
    requires
        s.wf(),
        0 <= i < s.items.len(),
        s.items[i].id() == item_id@,
        s.items[i].props().tool is Some,
    ensures
        ({
            let s1 = s.process(Event::ResponseFunctionCallArgumentsDelta { item_id, delta: first }).0;
            let s2 = s1.process(Event::ResponseFunctionCallArgumentsDelta { item_id, delta: second }).0;
            let before = match tool_arguments(s.items[i]) {
                Some(a) => a,
                None => Seq::<char>::empty(),
            };
            &&& s2.items.len() == s.items.len()
            &&& tool_arguments(s2.items[i]) == Some(before + first@ + second@)
            &&& (s.items[i].base matches BaseItemView::FunctionCall(f) ==> s2.items[i].base matches BaseItemView::FunctionCall(g)
                && g.arguments == f.arguments + first@ + second@)
        }),
{
    lemma_item_index_at(s.items, i);
    let s1 = s.process(Event::ResponseFunctionCallArgumentsDelta { item_id, delta: first }).0;
    assert(s1.items[i].id() == item_id@);
    let c = choose|c: int| #![trigger s1.items[c]] 0 <= c < s1.items.len() && s1.items[c].id() == item_id@;
    if c != i {
        assert(s1.items[c] == s.items[c]);
        assert(s.items[c].id() == s.items[i].id());
    }
    assert(item_index(s1.items, item_id@) == Some(i));
    let before = match tool_arguments(s.items[i]) {
        Some(a) => a,
        None => Seq::<char>::empty(),
    };
    assert(before + first@ + second@ =~= before + (first@ + second@)) ;
}

/// An accepted session update always leaves the instructions collapsed:
/// only single spaces between words, with the words of the instructions in
/// force (those of the update where it has some). The empty update that
/// registering a tool applies collapses them too.
pub proof fn lemma_accepted_update_collapses_instructions(
    cfg: SessionConfigView,
    update: SessionConfigUpdate,
    registered: Seq<ToolDefinition>,
)
    requires
        session_updated(cfg, update, registered).1 is Ok,
    ensures
        ({
            let after = session_updated(cfg, update, registered).0.instructions;
            let given = match update.instructions {
                Some(i) => i@,
                None => cfg.instructions,
            };
            &&& is_collapsed(after)
            &&& collapsed_whitespace(after) == collapsed_whitespace(given)
        }),
{
    let given = match update.instructions {
        Some(i) => i@,
        None => cfg.instructions,
    };
    lemma_collapsed_whitespace_is_collapsed(given);
    lemma_collapse_idempotent(given);
}

/// The item that an event about an existing item names.
pub open spec fn changed_item_id(event: Event) -> Option<Seq<char>> {
    match event {
        Event::ConversationItemTruncated { item_id, .. } => Some(item_id@),
        Event::ConversationItemInputAudioTranscriptionCompleted { item_id, .. } => Some(item_id@),
        Event::ResponseAudioTranscriptDelta { item_id, .. } => Some(item_id@),
        Event::ResponseTextDelta { item_id, .. } => Some(item_id@),
        Event::ResponseAudioDelta(evt) => Some(evt.item_id@),
        Event::ResponseFunctionCallArgumentsDelta { item_id, .. } => Some(item_id@),
        _ => None,
    }
}

/// An event that changes an existing item changes it where it is stored:
/// the stored item is the item handed back, it keeps its id and place, and
/// no other item changes. Text, transcript and audio deltas extend what the
/// item shows, each only its own part.
pub proof fn lemma_changed_item_is_stored(s: ConversationView, event: Event, i: int)
    requires
        s.wf(),
        s.can_process(event),
        0 <= i < s.items.len(),
        changed_item_id(event) == Some(s.items[i].id()),
    ensures
        ({
            let (t, out) = s.process(event);
            let old_props = s.items[i].props();
            let new_props = t.items[i].props();
            &&& t.items.len() == s.items.len()
            &&& out matches Ok((Some(x), _)) && t.items[i] == x
            &&& t.items[i].id() == s.items[i].id()
            &&& forall|j: int| 0 <= j < s.items.len() && j != i ==> #[trigger] t.items[j] == s.items[j]
            &&& (event matches Event::ResponseTextDelta { delta, .. } ==> new_props.text == old_props.text
                + delta@ && new_props.transcript == old_props.transcript && new_props.audio
                == old_props.audio)
            &&& (event matches Event::ResponseAudioTranscriptDelta { delta, .. } ==> new_props.transcript
                == old_props.transcript + delta@ && new_props.text == old_props.text
                && new_props.audio == old_props.audio)
            &&& (event matches Event::ResponseAudioDelta(evt) ==> new_props.audio == old_props.audio
                + crate::utils::pcm_from_le_bytes(
                crate::utils::spec_base64_decode(evt.delta@).unwrap(),
            ) && new_props.text == old_props.text && new_props.transcript == old_props.transcript)
        }),
{
    lemma_item_index_at(s.items, i);
}

/// An output item announced for a known response joins that response's
/// output at the end; the items of the conversation and the other responses
/// stay as they were.
pub proof fn lemma_output_item_joins_response(
    s: ConversationView,
    response_id: String,
    output_index: u32,
    item: crate::item::Item,
    r: int,
)
    requires
        s.wf(),
        0 <= r < s.responses.len(),
        s.responses[r].id == response_id@,
    ensures
        ({
            let (t, out) = s.process(Event::ResponseOutputItemAdded { response_id, output_index, item });
            let before = s.responses[r].output;
            let after = t.responses[r].output;
            &&& out is Ok
            &&& t.items == s.items
            &&& t.responses.len() == s.responses.len()
            &&& t.responses[r].id == s.responses[r].id
            &&& after.len() == before.len() + 1
            &&& after[before.len() as int] == item@
            &&& forall|k: int| 0 <= k < before.len() ==> #[trigger] after[k] == before[k]
            &&& forall|j: int| 0 <= j < s.responses.len() && j != r ==> #[trigger] t.responses[j] == s.responses[j]
        }),
{
    let c = choose|c: int| #![trigger s.responses[c]] 0 <= c < s.responses.len() && s.responses[c].id == response_id@;
    assert(s.responses[r].id == response_id@);
    assert(response_ids_unique(s.responses));
    assert(response_index(s.responses, response_id@) == Some(r));
}

} // verus!
