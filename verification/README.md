# realtime_client

A client for a realtime voice and text conversation service, with its logic
verified by Verus.

- `src/` is the verified library: the conversation state that the server's
  events build up (`conversation`), the items and content parts it holds
  (`item`, `types`), the session configuration and how updates merge into it
  (`session`, `client_inner`), what the client does with each event
  (`client_inner::handle_event`), the connection's decisions (`api`), audio
  encodings (`utils`), microphone buffering and playback queues (`recorder`),
  and laws that relate several operations (`laws`).
- `app/` is ordinary Rust around it: the websocket, the async event loop, tool
  handlers, audio devices and files, and the JSON form of the messages
  (`app/wire.rs`, copies of the library's types with serde derives).
- `tests/` runs the library on concrete values.

Floating-point settings (temperature, detection threshold, rate-limit reset
times) are held in the library as the bits of their single-precision values.
