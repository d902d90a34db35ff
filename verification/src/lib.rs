//! Verified core logic of the Codex client: synthetic thread items, the realtime
//! WebRTC call setup, the working-status word list, the directory prompt state
//! machine and the client version string.

pub mod version;
pub mod paths;
pub mod text;
pub mod thread_items;
pub mod headers;
pub mod realtime_webrtc;
pub mod directory_prompt;
pub mod status_words;
