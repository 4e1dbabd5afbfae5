//! Synchronisation logic of a media server: dynamic regex rules pulled from
//! remote sources, and a Simkl integration (scrobbling, device login,
//! continue-watching).
//!
//! Every decision is a pure function or a step on an explicit state. The
//! caller performs the requests, reads the clock and stores the results.

pub mod api;
pub mod device_auth;
pub mod dynamic_regex;
pub mod http;
pub mod ids;
pub mod json;
pub mod laws;
pub mod media;
pub mod patterns;
pub mod playback;
pub mod progress;
pub mod regex_sync;
pub mod scrobble;
pub mod settings;
pub mod simkl;
pub mod text;
pub mod time;
