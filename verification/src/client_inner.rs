use vstd::prelude::*;

use crate::conversation::{
    item_index, ConversationError, ConversationView, RealtimeConversation,
};
use crate::event::Event;
use crate::item::{
    BaseItem, BaseItemType, BaseItemView, Item, ItemStatus, ItemView, Role, UserItem, ITEM_ID_LENGTH,
    ITEM_ID_PREFIX, ITEM_OBJECT,
};
use crate::types::{ContentPart, FormattedPropertyView};
use crate::utils::{generated_id, pcm_fits_base64, pcm_le_bytes, spec_base64_encode, RealtimeUtils};
use crate::session::{
    clone_tools, collapse_whitespace, collapsed_whitespace, SessionConfig, SessionConfigUpdate,
    SessionConfigView, ToolDefinition, ToolType, VADType,
};
use crate::types::{clone_samples, ApiEvent, ConversationItemTruncate};

verus! {

/// Why the client refused a request.
#[derive(Debug)]
pub enum ClientError {
    /// No tool of the session configuration has this name.
    ToolNotFound(String),
    /// A handler for a tool of this name was added already.
    ToolAlreadyAdded(String),
    /// No handler for a tool of this name was added, so none can be removed.
    ToolDoesNotExist(String),
    /// A session update defines a tool whose name has a handler already.
    ToolAlreadyDefined(String),
    /// A tool of this name was called but has no handler.
    ToolNotAdded(String),
    /// The conversation holds no item with this id.
    ItemNotFound(String),
    /// Only message items can be cancelled.
    NotAMessage,
    /// Only assistant items can be cancelled.
    NotAnAssistantMessage,
}

/// What the application does after the client has looked at an event.
#[derive(Debug)]
pub enum ClientAction {
    /// Nothing more to do for this event.
    Continue,
    /// The server closed the connection: the event loop ends.
    Stop,
    /// A raw server message: read it into its event, let the conversation
    /// process that, and hand the result back to the client.
    Reinterpret(ApiEvent<serde_json::Value>),
    /// Run the handler of tool `name` on the JSON `arguments` and answer call `call_id`.
    CallTool { call_id: String, name: String, arguments: String },
    /// Answer the server's ping with this data.
    Pong(Vec<u8>),
}

/// The position of the tool named `name`, if there is one.
pub open spec fn tool_index(tools: Seq<ToolDefinition>, name: Seq<char>) -> Option<int> {
    if exists|i: int| #![trigger tools[i]] 0 <= i < tools.len() && tools[i].name@ == name {
        Some(choose|i: int| #![trigger tools[i]] 0 <= i < tools.len() && tools[i].name@ == name)
    } else {
        None
    }
}

pub open spec fn tool_names_unique(tools: Seq<ToolDefinition>) -> bool {
    forall|i: int, j: int|
        #![trigger tools[i], tools[j]]
        0 <= i < tools.len() && 0 <= j < tools.len() && tools[i].name@ == tools[j].name@ ==> i == j
}

/// `i` is the first position of a tool named `name`.
pub open spec fn is_first_named(tools: Seq<ToolDefinition>, name: Seq<char>, i: int) -> bool {
    &&& 0 <= i < tools.len()
    &&& tools[i].name@ == name
    &&& forall|j: int| 0 <= j < i ==> #[trigger] tools[j].name@ != name
}

/// The first position of a tool named `name`, if there is one.
pub open spec fn first_tool_index(tools: Seq<ToolDefinition>, name: Seq<char>) -> Option<int> {
    if exists|i: int| is_first_named(tools, name, i) {
        Some(choose|i: int| is_first_named(tools, name, i))
    } else {
        None
    }
}

/// A tool definition as a function tool.
pub open spec fn as_function_tool(t: ToolDefinition) -> ToolDefinition {
    ToolDefinition { tool_type: ToolType::Function, ..t }
}

/// The tool at `i` of an update has the name of a registered tool, and none before it has.
pub open spec fn is_first_conflict(new_tools: Seq<ToolDefinition>, registered: Seq<ToolDefinition>, i: int) -> bool {
    &&& 0 <= i < new_tools.len()
    &&& tool_index(registered, new_tools[i].name@) is Some
    &&& forall|j: int| 0 <= j < i ==> tool_index(registered, #[trigger] new_tools[j].name@) is None
}

/// The tools of a session after an update: those configured, then those the
/// update defines (as function tools), then the registered ones. An update
/// that defines a tool with a registered name is refused, naming the first.
pub open spec fn merged_tools(
    current: Seq<ToolDefinition>,
    update: Option<Vec<ToolDefinition>>,
    registered: Seq<ToolDefinition>,
) -> Result<Seq<ToolDefinition>, ClientError> {
    match update {
        None => Ok(current + registered),
        Some(v) => if exists|i: int| is_first_conflict(v@, registered, i) {
            let i = choose|i: int| is_first_conflict(v@, registered, i);
            Err(ClientError::ToolAlreadyDefined(v@[i].name))
        } else {
            Ok(current + v@.map_values(|t: ToolDefinition| as_function_tool(t)) + registered)
        },
    }
}

/// The session after an update: the fields it holds replace the configured
/// ones; where its tools are accepted, the tools are merged and the
/// instructions have their whitespace collapsed.
pub open spec fn session_updated(
    cfg: SessionConfigView,
    update: SessionConfigUpdate,
    registered: Seq<ToolDefinition>,
) -> (SessionConfigView, Result<(), ClientError>) {
    let applied = update.applied_to(cfg);
    match merged_tools(cfg.tools, update.tools, registered) {
        Err(e) => (applied, Err(e)),
        Ok(tools) => (
            SessionConfigView {
                tools,
                instructions: collapsed_whitespace(applied.instructions),
                ..applied
            },
            Ok(()),
        ),
    }
}

/// An update may only leave a session without tools where it is refused.
pub open spec fn update_leaves_tools(
    cfg: SessionConfigView,
    update: SessionConfigUpdate,
    registered: Seq<ToolDefinition>,
) -> bool {
    match merged_tools(cfg.tools, update.tools, registered) {
        Ok(tools) => tools.len() > 0,
        Err(_) => true,
    }
}

/// Whether all samples are silent (zero).
pub open spec fn all_silent(samples: Seq<i16>) -> bool {
    forall|i: int| 0 <= i < samples.len() ==> samples[i] == 0
}

/// Whether a chunk of input audio is all silence; such chunks are not sent.
pub fn is_silence(samples: &[i16]) -> (r: bool)
    ensures
        r == all_silent(samples@),
{
    let mut i: usize = 0;
    while i < samples.len()
        invariant
            i <= samples@.len(),
            forall|j: int| 0 <= j < i ==> samples@[j] == 0,
        decreases samples@.len() - i,
    {
        if samples[i] != 0 {
            return false;
        }
        i = i + 1;
    }
    true
}

/// Where a chunk of input audio is worth sending (not all silence), the
/// base64 text of its little-endian sample bytes that the append message carries.
pub fn input_audio_append(samples: &[i16]) -> (r: Option<String>)
    requires
        pcm_fits_base64(samples@.len()),
    ensures
        r is None <==> all_silent(samples@),
        r matches Some(text) ==> text@ == spec_base64_encode(pcm_le_bytes(samples@)),
{
    if is_silence(samples) {
        None
    } else {
        Some(RealtimeUtils::array_buffer_to_base64(samples))
    }
}

/// The item of a user message with the given content: a completed user
/// message with a fresh id; no item where the content is empty.
pub fn user_message_item(content: Vec<ContentPart>) -> (r: Option<Item>)
    ensures
        content@.len() == 0 <==> r is None,
        r matches Some(item) ==> {
            &&& item@.base == BaseItemView::User(
                crate::item::MessageView {
                    item_type: BaseItemType::Message,
                    status: ItemStatus::Completed,
                    role: Role::User,
                    content: content@.map_values(|c: ContentPart| c@),
                },
            )
            &&& generated_id(item@.formatted.id, ITEM_ID_PREFIX, ITEM_ID_LENGTH)
            &&& item@.formatted.object == ITEM_OBJECT@
            &&& item@.formatted.previous_item_id is None
            &&& item@.formatted.formatted == FormattedPropertyView::empty()
        },
{
    if content.len() == 0 {
        return None;
    }
    Some(
        Item::new(
            BaseItem::User(
                UserItem {
                    item_type: BaseItemType::Message,
                    status: ItemStatus::Completed,
                    role: Role::User,
                    content,
                },
            ),
        ),
    )
}

/// What a tool's handler gave for a call: its result, as JSON text, or why it failed.
#[derive(Debug, Clone)]
pub enum ToolOutput {
    Output(String),
    Error(String),
}

/// The function call output item that answers a tool call.
#[derive(Debug, Clone)]
pub struct FunctionCallOutputRequest {
    pub item_type: BaseItemType,
    pub call_id: String,
    pub output: ToolOutput,
}

/// The item that answers call `call_id` with what the handler gave: its
/// result, or the message of its error.
pub fn function_call_output(call_id: &str, result: Result<String, String>) -> (r: FunctionCallOutputRequest)
    ensures
        r.item_type == BaseItemType::FunctionCallOutput,
        r.call_id@ == call_id@,
        match result {
            Ok(output) => r.output == ToolOutput::Output(output),
            Err(message) => r.output == ToolOutput::Error(message),
        },
{
    let output = match result {
        Ok(output) => ToolOutput::Output(output),
        Err(message) => ToolOutput::Error(message),
    };
    FunctionCallOutputRequest {
        item_type: BaseItemType::FunctionCallOutput,
        call_id: call_id.to_owned(),
        output,
    }
}

pub struct ClientView {
    pub default_session_config: SessionConfigView,
    pub session_config: SessionConfigView,
    pub conversation: ConversationView,
    pub session_created: bool,
    /// the tools whose handlers were added, in the order they were added
    pub tools: Seq<ToolDefinition>,
    pub input_audio_buffer: Seq<i16>,
}

/// The state of a realtime client: its session configuration, the
/// conversation, the tools that have handlers and the input audio not yet
/// committed. The application holds the connection and the handlers.
pub struct RealtimeClientInner {
    /// the configuration as it was passed in
    default_session_config: SessionConfig,
    /// the configuration in force
    session_config: SessionConfig,
    conversation: RealtimeConversation,
    /// whether the server confirmed the session
    session_created: bool,
    /// the tools whose handlers were added
    tools: Vec<ToolDefinition>,
    /// input audio appended since the last commit
    input_audio_buffer: Vec<i16>,
}

impl View for RealtimeClientInner {
    type V = ClientView;

    closed spec fn view(&self) -> ClientView {
        ClientView {
            default_session_config: self.default_session_config@,
            session_config: self.session_config@,
            conversation: self.conversation@,
            session_created: self.session_created,
            tools: self.tools@,
            input_audio_buffer: self.input_audio_buffer@,
        }
    }
}

impl RealtimeClientInner {
    pub open spec fn wf(&self) -> bool {
        &&& self@.conversation.wf()
        &&& tool_names_unique(self@.tools)
    }

    pub fn new(config: SessionConfig) -> (r: Self)
        ensures
            r.wf(),
            r@.default_session_config == config@,
            r@.session_config == config@,
            r@.conversation.items.len() == 0,
            r@.conversation.responses.len() == 0,
            r@.conversation.queued_speech.len() == 0,
            r@.conversation.queued_transcripts.len() == 0,
            r@.conversation.queued_input_audio is None,
            !r@.session_created,
            r@.tools.len() == 0,
            r@.input_audio_buffer.len() == 0,
    {
        let r = Self {
            default_session_config: config.clone(),
            session_config: config,
            conversation: RealtimeConversation::new(),
            session_created: false,
            tools: Vec::new(),
            input_audio_buffer: Vec::new(),
        };
        assert(r@.tools =~= Seq::<ToolDefinition>::empty());
        r
    }

    /// Back to the configuration passed in: no tools, no buffered audio, no session.
    fn reset_config(&mut self)
        requires
            old(self).wf(),
        ensures
            final(self).wf(),
            final(self)@ == (ClientView {
                session_created: false,
                tools: Seq::empty(),
                session_config: old(self)@.default_session_config,
                input_audio_buffer: Seq::empty(),
                ..old(self)@
            }),
    {
        self.session_created = false;
        self.tools = Vec::new();
        self.session_config = self.default_session_config.clone();
        self.input_audio_buffer = Vec::new();
        assert(self@.tools =~= Seq::<ToolDefinition>::empty());
        assert(self@.input_audio_buffer =~= Seq::<i16>::empty());
    }

    /// What disconnecting does to the state: the session is gone and the
    /// conversation cleared.
    pub fn disconnect(&mut self)
        requires
            old(self).wf(),
        ensures
            final(self).wf(),
            !final(self)@.session_created,
            final(self)@.conversation.default_frequency == old(self)@.conversation.default_frequency,
            final(self)@.conversation.items.len() == 0,
            final(self)@.conversation.responses.len() == 0,
            final(self)@.conversation.queued_speech.len() == 0,
            final(self)@.conversation.queued_transcripts.len() == 0,
            final(self)@.conversation.queued_input_audio is None,
            final(self)@.default_session_config == old(self)@.default_session_config,
            final(self)@.session_config == old(self)@.session_config,
            final(self)@.tools == old(self)@.tools,
            final(self)@.input_audio_buffer == old(self)@.input_audio_buffer,
    {
        self.session_created = false;
        self.conversation.clear();
    }

    /// Disconnects and goes back to the configuration passed in.
    pub fn reset(&mut self)
        requires
            old(self).wf(),
        ensures
            final(self).wf(),
            !final(self)@.session_created,
            final(self)@.conversation.items.len() == 0,
            final(self)@.conversation.responses.len() == 0,
            final(self)@.conversation.queued_speech.len() == 0,
            final(self)@.conversation.queued_transcripts.len() == 0,
            final(self)@.conversation.queued_input_audio is None,
            final(self)@.default_session_config == old(self)@.default_session_config,
            final(self)@.session_config == old(self)@.default_session_config,
            final(self)@.tools.len() == 0,
            final(self)@.input_audio_buffer.len() == 0,
    {
        self.disconnect();
        self.reset_config();
    }

    pub fn get_turn_detection_type(&self) -> (r: Option<VADType>)
        ensures
            r == (match self@.session_config.turn_detection {
                Some(td) => Some(td.vad_type),
                None => None::<VADType>,
            }),
    {
        match &self.session_config.turn_detection {
            Some(td) => Some(td.vad_type),
            None => None,
        }
    }

    /// The configuration in force.
    pub fn session_config(&self) -> (r: &SessionConfig)
        ensures
            r@ == self@.session_config,
    {
        &self.session_config
    }

    /// The tools whose handlers were added.
    pub fn registered_tools(&self) -> (r: &Vec<ToolDefinition>)
        ensures
            r@ == self@.tools,
    {
        &self.tools
    }

    pub fn is_session_created(&self) -> (r: bool)
        ensures
            r == self@.session_created,
    {
        self.session_created
    }

    pub fn set_session_created(&mut self)
        ensures
            final(self)@ == (ClientView { session_created: true, ..old(self)@ }),
    {
        self.session_created = true;
    }

    pub fn conversation(&self) -> (r: &RealtimeConversation)
        ensures
            r@ == self@.conversation,
    {
        &self.conversation
    }

    /// The position of the registered tool named `name`.
    fn registered_index(&self, name: &String) -> (r: Option<usize>)
        requires
            self.wf(),
        ensures
            match r {
                Some(i) => tool_index(self@.tools, name@) == Some(i as int) && i < self@.tools.len(),
                None => tool_index(self@.tools, name@) is None,
            },
    {
        let mut i: usize = 0;
        while i < self.tools.len()
            invariant
                self.wf(),
                i <= self@.tools.len(),
                forall|j: int| 0 <= j < i ==> #[trigger] self@.tools[j].name@ != name@,
            decreases self@.tools.len() - i,
        {
            if self.tools[i].name == *name {
                proof {
                    let tools = self@.tools;
                    assert(tools[i as int].name@ == name@);
                    let c = choose|j: int| #![trigger tools[j]] 0 <= j < tools.len() && tools[j].name@ == name@;
                    assert(tools[c].name@ == tools[i as int].name@);
                }
                return Some(i);
            }
            i = i + 1;
        }
        None
    }

    /// The registered tool named `name`, if it has a handler.
    pub fn registered_tool(&self, name: &str) -> (r: Option<ToolDefinition>)
        requires
            self.wf(),
        ensures
            match tool_index(self@.tools, name@) {
                Some(i) => r == Some(self@.tools[i]),
                None => r is None,
            },
    {
        let key = name.to_owned();
        match self.registered_index(&key) {
            Some(i) => Some(self.tools[i].clone()),
            None => None,
        }
    }

    /// Checks that a tool called `name` has a handler, before it is called.
    pub fn check_tool_call(&self, tool_name: &str) -> (r: Result<ToolDefinition, ClientError>)
        requires
            self.wf(),
        ensures
            match tool_index(self@.tools, tool_name@) {
                Some(i) => r == Ok::<ToolDefinition, ClientError>(self@.tools[i]),
                None => r matches Err(ClientError::ToolNotAdded(n)) && n@ == tool_name@,
            },
    {
        match self.registered_tool(tool_name) {
            Some(t) => Ok(t),
            None => Err(ClientError::ToolNotAdded(tool_name.to_owned())),
        }
    }

    /// Registers a handler's tool, then brings the session's tools up to date.
    pub fn add_tool(&mut self, definition: ToolDefinition) -> (r: Result<ToolDefinition, ClientError>)
        requires
            old(self).wf(),
        ensures
            final(self).wf(),
            match tool_index(old(self)@.tools, definition.name@) {
                Some(_) => r == Err::<ToolDefinition, ClientError>(
                    ClientError::ToolAlreadyAdded(definition.name),
                ) && final(self)@ == old(self)@,
                None => {
                    let registered = old(self)@.tools.push(definition);
                    &&& r == Ok::<ToolDefinition, ClientError>(definition)
                    &&& final(self)@ == (ClientView {
                        tools: registered,
                        session_config: session_updated(
                            old(self)@.session_config,
                            SessionConfigUpdate::default_spec(),
                            registered,
                        ).0,
                        ..old(self)@
                    })
                },
            },
    {
        if self.registered_index(&definition.name).is_some() {
            return Err(ClientError::ToolAlreadyAdded(definition.name));
        }
        let ghost before = self@;
        let registered = definition.clone();
        self.tools.push(definition);
        proof {
            let t = self@.tools;
            assert(t =~= before.tools.push(registered));
            assert forall|i: int, j: int|
                0 <= i < t.len() && 0 <= j < t.len() && #[trigger] t[i].name@ == #[trigger] t[j].name@ implies i == j by {
                if i < before.tools.len() && j == before.tools.len() {
                    assert(before.tools[i].name@ == registered.name@);
                }
                if j < before.tools.len() && i == before.tools.len() {
                    assert(before.tools[j].name@ == registered.name@);
                }
            }
        }
        let result = registered.clone();
        let update = SessionConfigUpdate::default();
        proof {
            assert(merged_tools(self@.session_config.tools, update.tools, self@.tools) == Ok::<
                Seq<ToolDefinition>,
                ClientError,
            >(self@.session_config.tools + self@.tools));
        }
        let _ = self.update_session(update);
        Ok(result)
    }

    /// Registers the handler of a tool that the session configuration defines.
    pub fn add_tool_handler(&mut self, tool_name: &str) -> (r: Result<ToolDefinition, ClientError>)
        requires
            old(self).wf(),
        ensures
            final(self).wf(),
            match first_tool_index(old(self)@.session_config.tools, tool_name@) {
                None => r matches Err(ClientError::ToolNotFound(n)) && n@ == tool_name@
                    && final(self)@ == old(self)@,
                Some(i) => {
                    let definition = old(self)@.session_config.tools[i];
                    match tool_index(old(self)@.tools, tool_name@) {
                        Some(_) => r == Err::<ToolDefinition, ClientError>(
                            ClientError::ToolAlreadyAdded(definition.name),
                        ) && final(self)@ == old(self)@,
                        None => {
                            let registered = old(self)@.tools.push(definition);
                            &&& r == Ok::<ToolDefinition, ClientError>(definition)
                            &&& final(self)@ == (ClientView {
                                tools: registered,
                                session_config: session_updated(
                                    old(self)@.session_config,
                                    SessionConfigUpdate::default_spec(),
                                    registered,
                                ).0,
                                ..old(self)@
                            })
                        },
                    }
                },
            },
    {
        let mut i: usize = 0;
        let ghost tools = self@.session_config.tools;
        let ghost s0 = self@;
        while i < self.session_config.tools.len()
            invariant
                self.wf(),
                self@ == s0,
                s0 == old(self)@,
                tools == self@.session_config.tools,
                i <= tools.len(),
                forall|j: int| 0 <= j < i ==> #[trigger] tools[j].name@ != tool_name@,
            decreases tools.len() - i,
        {
            let key = tool_name.to_owned();
            if self.session_config.tools[i].name == key {
                proof {
                    assert(is_first_named(tools, tool_name@, i as int));
                    let c = choose|c: int| is_first_named(tools, tool_name@, c);
                    if c < i {
                        assert(tools[c].name@ != tool_name@);
                    }
                    if c > i {
                        assert(tools[i as int].name@ != tool_name@);
                    }
                    assert(c == i);
                    assert(first_tool_index(tools, tool_name@) == Some(i as int));
                }
                let definition = self.session_config.tools[i].clone();
                assert(definition == tools[i as int]);
                assert(definition.name@ == tool_name@);
                return self.add_tool(definition);
            }
            i = i + 1;
        }
        proof {
            assert forall|c: int| !is_first_named(tools, tool_name@, c) by {}
        }
        Err(ClientError::ToolNotFound(tool_name.to_owned()))
    }

    /// Removes the handler's tool named `name`.
    pub fn remove_tool(&mut self, name: &str) -> (r: Result<(), ClientError>)
        requires
            old(self).wf(),
        ensures
            final(self).wf(),
            match tool_index(old(self)@.tools, name@) {
                None => r matches Err(ClientError::ToolDoesNotExist(n)) && n@ == name@
                    && final(self)@ == old(self)@,
                Some(i) => r is Ok && final(self)@ == (ClientView {
                    tools: old(self)@.tools.remove(i),
                    ..old(self)@
                }),
            },
    {
        let key = name.to_owned();
        match self.registered_index(&key) {
            None => Err(ClientError::ToolDoesNotExist(key)),
            Some(i) => {
                let ghost before = self@.tools;
                self.tools.remove(i);
                proof {
                    let t = self@.tools;
                    assert(t =~= before.remove(i as int));
                    assert forall|a: int, b: int|
                        0 <= a < t.len() && 0 <= b < t.len() && #[trigger] t[a].name@ == #[trigger] t[b].name@ implies a == b by {
                        let sa = if a < i { a } else { a + 1 };
                        let sb = if b < i { b } else { b + 1 };
                        assert(t[a] == before[sa]);
                        assert(t[b] == before[sb]);
                    }
                }
                Ok(())
            },
        }
    }

    /// Merges the tools that an update defines, and the registered ones, into
    /// the session's tools; gives whether the update defined any.
    pub fn update_session_tools(&mut self, session_config: &SessionConfigUpdate) -> (r: Result<
        bool,
        ClientError,
    >)
        requires
            old(self).wf(),
        ensures
            final(self).wf(),
            match merged_tools(old(self)@.session_config.tools, session_config.tools, old(self)@.tools) {
                Ok(tools) => {
                    &&& r == Ok::<bool, ClientError>(
                        session_config.tools matches Some(v) && v@.len() > 0,
                    )
                    &&& final(self)@ == (ClientView {
                        session_config: SessionConfigView { tools, ..old(self)@.session_config },
                        ..old(self)@
                    })
                },
                Err(e) => r == Err::<bool, ClientError>(e) && final(self)@ == old(self)@,
            },
    {
        let ghost current = self@.session_config.tools;
        let ghost registered = self@.tools;
        let mut use_tools = clone_tools(&self.session_config.tools);
        let mut changed = false;
        match &session_config.tools {
            Some(tools) => {
                let mut i: usize = 0;
                while i < tools.len()
                    invariant
                        self.wf(),
                        self@.tools == registered,
                        session_config.tools == Some(*tools),
                        i <= tools@.len(),
                        use_tools@ == current + tools@.subrange(0, i as int).map_values(
                            |t: ToolDefinition| as_function_tool(t),
                        ),
                        forall|j: int| 0 <= j < i ==> tool_index(registered, #[trigger] tools@[j].name@) is None,
                        changed == (i > 0),
                    decreases tools@.len() - i,
                {
                    let definition = ToolDefinition {
                        tool_type: ToolType::Function,
                        name: tools[i].name.clone(),
                        description: tools[i].description.clone(),
                        parameters: tools[i].parameters.clone(),
                    };
                    if self.registered_index(&definition.name).is_some() {
                        proof {
                            assert(is_first_conflict(tools@, registered, i as int));
                            let c = choose|c: int| is_first_conflict(tools@, registered, c);
                            if c < i {
                                assert(tool_index(registered, tools@[c].name@) is None);
                            }
                            if c > i {
                                assert(tool_index(registered, tools@[i as int].name@) is None);
                            }
                            assert(c == i);
                            assert(definition.name == tools@[i as int].name);
                            assert(session_config.tools == Some(*tools));
                        }
                        return Err(ClientError::ToolAlreadyDefined(definition.name));
                    }
                    proof {
                        assert(definition == as_function_tool(tools@[i as int]));
                    }
                    let ghost before = use_tools@;
                    use_tools.push(definition);
                    assert(use_tools@ =~= current + tools@.subrange(0, i as int + 1).map_values(
                        |t: ToolDefinition| as_function_tool(t),
                    )) by {
                        let prefix = tools@.subrange(0, i as int);
                        assert(tools@.subrange(0, i as int + 1) =~= prefix.push(tools@[i as int]));
                        assert(prefix.push(tools@[i as int]).map_values(|t: ToolDefinition| as_function_tool(t))
                            =~= prefix.map_values(|t: ToolDefinition| as_function_tool(t)).push(
                            as_function_tool(tools@[i as int]),
                        ));
                    }
                    changed = true;
                    i = i + 1;
                }
                proof {
                    assert(tools@.subrange(0, tools@.len() as int) =~= tools@);
                    assert forall|c: int| !is_first_conflict(tools@, registered, c) by {
                        if 0 <= c < tools@.len() {
                            assert(tool_index(registered, tools@[c].name@) is None);
                        }
                    }
                }
            },
            None => {},
        }
        let ghost merged_defined = use_tools@;
        let mut k: usize = 0;
        while k < self.tools.len()
            invariant
                self@.tools == registered,
                k <= registered.len(),
                use_tools@ == merged_defined + registered.subrange(0, k as int),
            decreases registered.len() - k,
        {
            let t = self.tools[k].clone();
            use_tools.push(t);
            assert(use_tools@ =~= merged_defined + registered.subrange(0, k as int + 1));
            k = k + 1;
        }
        assert(registered.subrange(0, registered.len() as int) =~= registered);
        self.session_config.tools = use_tools;
        Ok(changed)
    }

    /// Every field that the update holds, tools apart, replaces the configured one.
    #[verifier::rlimit(60)]
    fn apply_update_fields(&mut self, session_config: &SessionConfigUpdate)
        requires
            old(self).wf(),
        ensures
            final(self).wf(),
            final(self)@ == (ClientView {
                session_config: session_config.applied_to(old(self)@.session_config),
                ..old(self)@
            }),
    {
        match &session_config.modalities {
            Some(modalities) => {
                self.session_config.modalities = crate::session::clone_modalities(modalities);
            },
            None => {},
        }
        match &session_config.instructions {
            Some(instructions) => {
                self.session_config.instructions = instructions.clone();
            },
            None => {},
        }
        match session_config.voice {
            Some(voice) => {
                self.session_config.voice = voice;
            },
            None => {},
        }
        match session_config.input_audio_format {
            Some(format) => {
                self.session_config.input_audio_format = format;
            },
            None => {},
        }
        match session_config.output_audio_format {
            Some(format) => {
                self.session_config.output_audio_format = format;
            },
            None => {},
        }
        match &session_config.input_audio_transcription {
            Some(transcription) => {
                self.session_config.input_audio_transcription = Some(transcription.clone());
            },
            None => {},
        }
        match session_config.turn_detection {
            Some(turn_detection) => {
                self.session_config.turn_detection = turn_detection;
            },
            None => {},
        }
        match &session_config.tool_choice {
            Some(tool_choice) => {
                self.session_config.tool_choice = tool_choice.clone();
            },
            None => {},
        }
        match session_config.temperature_bits {
            Some(temperature_bits) => {
                self.session_config.temperature_bits = temperature_bits;
            },
            None => {},
        }
        match session_config.max_response_output_tokens {
            Some(max_tokens) => {
                self.session_config.max_response_output_tokens = max_tokens;
            },
            None => {},
        }
    }

    /// Whether applying the update leaves the session with tools (or is
    /// refused): the configured or the registered tools are not all absent,
    /// or the update defines some.
    pub fn update_keeps_tools(&self, session_config: &SessionConfigUpdate) -> (r: bool)
        ensures
            r == update_leaves_tools(self@.session_config, *session_config, self@.tools),
    {
        if self.session_config.tools.len() > 0 || self.tools.len() > 0 {
            return true;
        }
        proof {
            let registered = self@.tools;
            let current = self@.session_config.tools;
            if let Some(v) = &session_config.tools {
                    assert forall|i: int| !is_first_conflict(v@, registered, i) by {
                        if 0 <= i < v@.len() {
                            assert(tool_index(registered, v@[i].name@) is None);
                        }
                    }
                    assert((current + v@.map_values(|t: ToolDefinition| as_function_tool(t))
                        + registered).len() == v@.len());
            }
        }
        match &session_config.tools {
            Some(v) => v.len() > 0,
            None => false,
        }
    }

    /// Applies a session update: every field it holds replaces the configured
    /// one, its tools are merged with the configured and registered ones, and
    /// the instructions get their whitespace collapsed. Sending the new
    /// configuration, where the client is connected, is left to the caller.
    pub fn update_session(&mut self, session_config: SessionConfigUpdate) -> (r: Result<(), ClientError>)
        requires
            old(self).wf(),
            update_leaves_tools(old(self)@.session_config, session_config, old(self)@.tools),
        ensures
            final(self).wf(),
            (final(self)@.session_config, r) == session_updated(
                old(self)@.session_config,
                session_config,
                old(self)@.tools,
            ),
            final(self)@ == (ClientView { session_config: final(self)@.session_config, ..old(self)@ }),
            final(self)@.session_config.tools.len() > 0 || r is Err,
    {
        let ghost before = self@;
        self.apply_update_fields(&session_config);
        assert(self@.session_config == session_config.applied_to(before.session_config));
        match self.update_session_tools(&session_config) {
            Err(e) => {
                return Err(e);
            },
            Ok(_) => {},
        }
        let collapsed = collapse_whitespace(self.session_config.instructions.as_str());
        self.session_config.instructions = collapsed;
        Ok(())
    }

    /// `update_session` with an update that holds nothing: the registered
    /// tools are merged into the session's tools again.
    pub fn update_session_default(&mut self) -> (r: Result<(), ClientError>)
        requires
            old(self).wf(),
            old(self)@.session_config.tools.len() + old(self)@.tools.len() > 0,
        ensures
            final(self).wf(),
            r is Ok,
            (final(self)@.session_config, r) == session_updated(
                old(self)@.session_config,
                SessionConfigUpdate::default_spec(),
                old(self)@.tools,
            ),
            final(self)@ == (ClientView { session_config: final(self)@.session_config, ..old(self)@ }),
    {
        self.update_session(SessionConfigUpdate::default())
    }

    /// Records appended input audio, once it has been sent.
    pub fn append_input_audio(&mut self, array_buffer: Vec<i16>)
        requires
            array_buffer@.len() > 0,
        ensures
            final(self)@ == (ClientView {
                input_audio_buffer: old(self)@.input_audio_buffer + array_buffer@,
                ..old(self)@
            }),
    {
        let mut array_buffer = array_buffer;
        self.input_audio_buffer.append(&mut array_buffer);
    }

    /// Hands the buffered input audio to the conversation for the next user
    /// message, and empties the buffer.
    pub fn queue_input_audio(&mut self) -> (r: Vec<i16>)
        requires
            old(self).wf(),
        ensures
            final(self).wf(),
            r@ == old(self)@.input_audio_buffer,
            final(self)@ == (ClientView {
                conversation: ConversationView {
                    queued_input_audio: Some(old(self)@.input_audio_buffer),
                    ..old(self)@.conversation
                },
                input_audio_buffer: Seq::empty(),
                ..old(self)@
            }),
    {
        let res = self.conversation.queue_input_audio(clone_samples(&self.input_audio_buffer));
        self.input_audio_buffer = Vec::new();
        assert(self@.input_audio_buffer =~= Seq::<i16>::empty());
        res
    }

    /// Whether the buffered input audio must be committed and queued before a
    /// response is requested: without server-side turn detection, buffered
    /// audio is committed by the client.
    pub fn needs_commit_before_response(&self) -> (r: bool)
        ensures
            r == (self@.session_config.turn_detection is None && self@.input_audio_buffer.len()
                > 0),
    {
        self.session_config.turn_detection.is_none() && self.input_audio_buffer.len() > 0
    }

    /// Decides how a response is cancelled: an empty id cancels the current
    /// response only (`None`); otherwise the item must be an assistant
    /// message, and it comes back so that its audio can be truncated.
    pub fn cancel_response(&self, id: &str) -> (r: Result<Option<Item>, ClientError>)
        requires
            self.wf(),
        ensures
            id@.len() == 0 ==> r matches Ok(None),
            id@.len() > 0 ==> match item_index(self@.conversation.items, id@) {
                None => r matches Err(ClientError::ItemNotFound(n)) && n@ == id@,
                Some(i) => match self@.conversation.items[i].base {
                    BaseItemView::Assistant(m) => if m.item_type == BaseItemType::Message {
                        r matches Ok(Some(item)) && item@ == self@.conversation.items[i]
                    } else {
                        r matches Err(ClientError::NotAMessage)
                    },
                    _ => r matches Err(ClientError::NotAnAssistantMessage),
                },
            },
    {
        if id.is_empty() {
            return Ok(None);
        }
        let item = match self.conversation.get_item(id) {
            Some(item) => item,
            None => {
                return Err(ClientError::ItemNotFound(id.to_owned()));
            },
        };
        match &item.base {
            BaseItem::Assistant(assistant_item) => {
                if assistant_item.item_type != BaseItemType::Message {
                    return Err(ClientError::NotAMessage);
                }
            },
            _ => {
                return Err(ClientError::NotAnAssistantMessage);
            },
        }
        Ok(Some(item))
    }

    /// The truncation that cancelling an assistant message asks the server
    /// for: the item keeps the audio of its first `sample_count` samples,
    /// given in whole milliseconds (rounded down, and at most `i64::MAX`). At
    /// a frequency of zero any samples are endless (`i64::MAX`), and none are
    /// nothing.
    pub fn truncation_for(&self, id: &str, sample_count: usize) -> (r: ConversationItemTruncate)
        ensures
            r.item_id@ == id@,
            r.audio_end_ms == if self@.conversation.default_frequency == 0 {
                if sample_count == 0 {
                    0
                } else {
                    i64::MAX as int
                }
            } else if sample_count * 1000 / (self@.conversation.default_frequency as int)
                <= i64::MAX {
                sample_count * 1000 / (self@.conversation.default_frequency as int)
            } else {
                i64::MAX as int
            },
    {
        let frequency = self.conversation.frequency() as u128;
        let audio_end_ms: i64 = if frequency == 0 {
            if sample_count == 0 {
                0
            } else {
                i64::MAX
            }
        } else {
            let scaled = (sample_count as u128) * 1000u128;
            let ms = scaled / frequency;
            if ms <= i64::MAX as u128 {
                ms as i64
            } else {
                i64::MAX
            }
        };
        ConversationItemTruncate { item_id: id.to_owned(), audio_end_ms }
    }

    /// Decides what follows from an event in the client's event loop: a
    /// raw server message is handed back to be read and processed, a finished
    /// function call is to be run, a close ends the loop, a ping is answered,
    /// and a created session is recorded.
    pub fn handle_event(&mut self, event: Event) -> (r: ClientAction)
        ensures
            match event {
                Event::ServerEvent(api_event) => r == ClientAction::Reinterpret(api_event)
                    && final(self)@ == old(self)@,
                Event::ResponseFunctionCallArgumentsDone { name, arguments, call_id, .. } => r
                    == (ClientAction::CallTool { call_id, name, arguments }) && final(self)@ == old(
                    self,
                )@,
                Event::Close { .. } => r == ClientAction::Stop && final(self)@ == old(self)@,
                Event::SessionCreated { .. } => r == ClientAction::Continue && final(self)@ == (
                ClientView { session_created: true, ..old(self)@ }),
                Event::Ping { data } => r == ClientAction::Pong(data) && final(self)@ == old(self)@,
                _ => r == ClientAction::Continue && final(self)@ == old(self)@,
            },
    {
        match event {
            Event::ServerEvent(api_event) => ClientAction::Reinterpret(api_event),
            Event::ResponseFunctionCallArgumentsDone { name, arguments, call_id, .. } => {
                ClientAction::CallTool { call_id, name, arguments }
            },
            Event::Close { .. } => ClientAction::Stop,
            Event::SessionCreated { .. } => {
                self.session_created = true;
                ClientAction::Continue
            },
            Event::Ping { data } => ClientAction::Pong(data),
            _ => ClientAction::Continue,
        }
    }

    /// Lets the conversation process an event read from a server message,
    /// where it can take it (`None` where it cannot, with nothing changed).
    pub fn process_server_event(&mut self, event: Event) -> (r: Option<
        Result<crate::conversation::ConversationHandlerReturntype, ConversationError>,
    >)
        requires
            old(self).wf(),
        ensures
            final(self).wf(),
            final(self)@ == (ClientView { conversation: final(self)@.conversation, ..old(self)@ }),
            match r {
                None => !old(self)@.conversation.can_process(event) && final(self)@ == old(self)@,
                Some(res) => old(self)@.conversation.can_process(event) && (
                final(self)@.conversation,
                crate::conversation::outcome_of(res),
            ) == old(self)@.conversation.process(event),
            },
    {
        self.conversation.try_process_event(event)
    }
}

} // verus!
