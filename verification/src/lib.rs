//! Publishes socket.io events through redis, as an emitter outside any
//! socket.io server process.
//!
//! Two adapter protocols are covered: the JavaScript redis adapter (a
//! MessagePack packet published on `prefix#namespace#[room#]`) and the
//! Python `socketio.RedisManager` (a JSON message published on a single
//! manager channel).  The library computes what is to be published; the
//! publishing itself is a network operation left to the caller.

pub mod redis_client;
pub mod text;
pub mod javascript;
pub mod python;
pub mod emitter;
pub mod laws;
