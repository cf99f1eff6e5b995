use vstd::prelude::*;

use crate::event::Event;
use crate::types::ApiEvent;
use crate::utils::{generated_id, RealtimeUtils};

verus! {

/// The address of the realtime service.
pub const REALTIME_URL: &'static str = "wss://api.openai.com/v1/realtime";

/// The model that is asked for where none is named.
pub const DEFAULT_MODEL: &'static str = "gpt-4o-realtime-preview-2024-10-01";

/// The value of the header that opts in to the realtime protocol.
pub const BETA_HEADER_VALUE: &'static str = "realtime=v1";

/// The prefix of the ids of messages that the client sends.
pub const EVENT_ID_PREFIX: &'static str = "evt_";

/// The length of the ids of messages that the client sends.
pub const EVENT_ID_LENGTH: usize = 16;

#[derive(Debug, Clone)]
pub struct RealtimeAPISettings {
    pub api_key: Option<String>,
    pub debug: bool,
}

impl Default for RealtimeAPISettings {
    fn default() -> (r: Self)
        ensures
            r.api_key is None,
            !r.debug,
    {
        RealtimeAPISettings { api_key: None, debug: false }
    }
}

/// Why the connection refused a request.
#[derive(Debug, Clone, Copy, PartialEq, Eq, Structural)]
pub enum ApiError {
    AlreadyConnected,
    NotConnected,
}

/// The request that opens the connection.
#[derive(Debug)]
pub struct ConnectRequest {
    /// the service address with the model asked for
    pub url: String,
    /// the value of the `Authorization` header
    pub authorization: String,
    /// the value of the `OpenAI-Beta` header
    pub beta: String,
}

/// What the socket delivered, as far as the connection cares: a server
/// message already read into its envelope, a close, a ping, something that
/// is ignored, or a failure.
#[derive(Debug)]
pub enum SocketMessage {
    Text(ApiEvent<serde_json::Value>),
    Close,
    Ping(Vec<u8>),
    Unsupported,
    Failed,
}

/// What the connection passes on for a socket message, and whether it stops
/// listening afterwards.
#[derive(Debug)]
pub struct SocketStep {
    pub event: Option<Event>,
    pub stop: bool,
}

/// The connection to the realtime service, as far as its decisions go; the
/// socket itself is held by the application.
pub struct RealtimeAPI {
    api_key: Option<String>,
    url: String,
    connected: bool,
    debug: bool,
}

impl RealtimeAPI {
    pub closed spec fn spec_api_key(&self) -> Option<String> {
        self.api_key
    }

    pub closed spec fn spec_url(&self) -> Seq<char> {
        self.url@
    }

    pub closed spec fn spec_connected(&self) -> bool {
        self.connected
    }

    pub closed spec fn spec_debug(&self) -> bool {
        self.debug
    }

    /// Not connected, to the realtime service, with the settings' key.
    pub fn new(settings: RealtimeAPISettings) -> (r: Self)
        ensures
            r.spec_api_key() == settings.api_key,
            r.spec_url() == REALTIME_URL@,
            !r.spec_connected(),
            r.spec_debug() == settings.debug,
    {
        RealtimeAPI {
            api_key: settings.api_key,
            url: REALTIME_URL.to_owned(),
            connected: false,
            debug: settings.debug,
        }
    }

    pub fn is_connected(&self) -> (r: bool)
        ensures
            r == self.spec_connected(),
    {
        self.connected
    }

    /// Whether connecting deserves a warning: there is no key for the
    /// realtime service.
    pub fn lacks_api_key(&self) -> (r: bool)
        ensures
            r == (self.spec_api_key() is None && self.spec_url() == REALTIME_URL@),
    {
        let default_url = REALTIME_URL.to_owned();
        self.api_key.is_none() && self.url == default_url
    }

    /// The request that opens the connection: the address names the model
    /// (the default model where none is given) and the key is sent as a
    /// bearer token (an empty one where there is no key, which the server
    /// refuses). Refused while connected.
    pub fn connect(&self, model: Option<&str>) -> (r: Result<ConnectRequest, ApiError>)
        ensures
            self.spec_connected() ==> r == Err::<ConnectRequest, ApiError>(ApiError::AlreadyConnected),
            !self.spec_connected() ==> (r matches Ok(req) && {
                let m = match model {
                    Some(m) => m@,
                    None => DEFAULT_MODEL@,
                };
                &&& req.url@ == self.spec_url() + "?model="@ + m
                &&& req.authorization@ == "Bearer "@ + match self.spec_api_key() {
                    Some(key) => key@,
                    None => Seq::<char>::empty(),
                }
                &&& req.beta@ == BETA_HEADER_VALUE@
            }),
    {
        if self.connected {
            return Err(ApiError::AlreadyConnected);
        }
        let model = match model {
            Some(m) => m,
            None => DEFAULT_MODEL,
        };
        let mut url = self.url.clone();
        url.append("?model=");
        url.append(model);
        let mut authorization = "Bearer ".to_owned();
        match &self.api_key {
            Some(key) => authorization.append(key.as_str()),
            None => {},
        }
        Ok(ConnectRequest { url, authorization, beta: BETA_HEADER_VALUE.to_owned() })
    }

    /// Records that the socket was opened.
    pub fn mark_connected(&mut self)
        ensures
            final(self).spec_connected(),
            final(self).spec_api_key() == old(self).spec_api_key(),
            final(self).spec_url() == old(self).spec_url(),
            final(self).spec_debug() == old(self).spec_debug(),
    {
        self.connected = true;
    }

    /// Records that the socket was closed.
    pub fn disconnect(&mut self)
        ensures
            !final(self).spec_connected(),
            final(self).spec_api_key() == old(self).spec_api_key(),
            final(self).spec_url() == old(self).spec_url(),
            final(self).spec_debug() == old(self).spec_debug(),
    {
        self.connected = false;
    }

    /// Sending (a message or a pong) needs a connection.
    pub fn check_connected(&self) -> (r: Result<(), ApiError>)
        ensures
            r == (if self.spec_connected() {
                Ok::<(), ApiError>(())
            } else {
                Err(ApiError::NotConnected)
            }),
    {
        if self.connected {
            Ok(())
        } else {
            Err(ApiError::NotConnected)
        }
    }

    /// The envelope of a message to send: a fresh id, the message type, and
    /// the data. Refused while not connected.
    pub fn envelope<T>(&self, event_name: &str, data: Option<T>) -> (r: Result<ApiEvent<T>, ApiError>)
        ensures
            !self.spec_connected() ==> r == Err::<ApiEvent<T>, ApiError>(ApiError::NotConnected),
            self.spec_connected() ==> (r matches Ok(e) && e.event_type@ == event_name@ && e.data
                == data && generated_id(e.event_id@, EVENT_ID_PREFIX, EVENT_ID_LENGTH)),
    {
        if !self.connected {
            return Err(ApiError::NotConnected);
        }
        Ok(
            ApiEvent {
                event_id: RealtimeUtils::generate_id(EVENT_ID_PREFIX, EVENT_ID_LENGTH),
                event_type: event_name.to_owned(),
                data,
            },
        )
    }

    /// What the listener passes on for a socket message: server messages as
    /// they are; a close, a failure or the end of the stream as a close event
    /// that ends listening; pings as ping events; anything else not at all.
    pub fn socket_step(message: SocketMessage) -> (r: SocketStep)
        ensures
            match message {
                SocketMessage::Text(api_event) => r.event == Some(Event::ServerEvent(api_event))
                    && !r.stop,
                SocketMessage::Close => r.event == Some(Event::Close { error: false }) && r.stop,
                SocketMessage::Ping(data) => r.event == Some(Event::Ping { data }) && !r.stop,
                SocketMessage::Unsupported => r.event is None && !r.stop,
                SocketMessage::Failed => r.event == Some(Event::Close { error: true }) && r.stop,
            },
    {
        match message {
            SocketMessage::Text(api_event) => SocketStep {
                event: Some(Event::ServerEvent(api_event)),
                stop: false,
            },
            SocketMessage::Close => SocketStep { event: Some(Event::Close { error: false }), stop: true },
            SocketMessage::Ping(data) => SocketStep { event: Some(Event::Ping { data }), stop: false },
            SocketMessage::Unsupported => SocketStep { event: None, stop: false },
            SocketMessage::Failed => SocketStep { event: Some(Event::Close { error: true }), stop: true },
        }
    }
}

} // verus!
