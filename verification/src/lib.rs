//! A client library for a realtime voice/text conversation service.
//!
//! The library keeps the conversation state that the server's events build up
//! (items, responses, queued speech and transcripts), decides what the client
//! does with each event, merges session configuration updates, encodes audio
//! for the wire and prepares microphone input. Network, audio devices and JSON
//! (de)serialisation are done by the application around it.
pub mod types;
pub mod item;
pub mod utils;
pub mod session;
pub mod event;
pub mod conversation;
pub mod client_inner;
pub mod api;
pub mod recorder;
pub mod laws;
