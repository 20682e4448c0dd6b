//! A real-time MIDI event translator.
//!
//! Incoming Note-On events are rewritten into Program Change messages
//! according to a configurable note-to-program mapping; Note-Off events are
//! always dropped, and every other event is either forwarded unchanged or
//! filtered out, depending on the configuration.

pub mod config;
pub mod event;
pub mod laws;
pub mod translator;
