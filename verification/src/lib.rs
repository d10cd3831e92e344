//! A chat-to-speech relay: the message-to-audio pipeline and the per-guild
//! playback queues, as data and decisions. Network, audio output and
//! persistence are left to the caller, which performs the actions that the
//! library decides on and hands back what happened.

pub mod ids;
pub mod track;
pub mod session;
pub mod wave;
pub mod prefs;
pub mod text;
pub mod filter;
pub mod registry;
pub mod command;
pub mod tts;
pub mod pipeline;
pub mod headers;
pub mod config;
