//! The verified core of a room-based chat and location-sharing service.
//!
//! The real-time relay is the heart of it:
//!
//! - `event`, `parts`, `json`, `ident` and `codec` hold the envelope
//!   protocol: the closed set of envelopes, and how one is read from and
//!   written as a JSON object;
//! - `channel` and `websocket` hold the registry of room broadcasters over
//!   bounded broadcast channels;
//! - `voice_call` and `voice_call_signaling` hold the record of a voice call
//!   and the table of calls with its transitions;
//! - `dispatch` and `session` hold what an envelope leads to, and the state
//!   of one client connection.
//!
//! Around it stand the plain rules of the HTTP side: `config`, `database`,
//! `cookie_header`, `session_cookie`, `password`, `token`, `requests` and
//! `response`, with `text` and `clock` as their tools.
//!
//! What the outside crates do is marked as such in the modules that call
//! them; everything else is proved against the contracts written there.

pub mod channel;
pub mod clock;
pub mod codec;
pub mod config;
pub mod cookie_header;
pub mod database;
pub mod dispatch;
pub mod event;
pub mod ident;
pub mod json;
pub mod parts;
pub mod password;
pub mod requests;
pub mod response;
pub mod session;
pub mod session_cookie;
pub mod text;
pub mod token;
pub mod voice_call;
pub mod voice_call_signaling;
pub mod websocket;
