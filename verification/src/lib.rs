//! Verified core of the vacs air-traffic voice client: audio device selection,
//! keybind resolution and dispatch, radio state tracking and call bookkeeping.

pub mod backend;
pub mod text;
pub mod seqs;
pub mod device;
pub mod mock;
pub mod platform;
pub mod keybinds;
pub mod radio;
pub mod calls;
pub mod track_audio;
pub mod audio;
pub mod config;
pub mod signaling;
pub mod webrtc;
pub mod external;
pub mod wav;
pub mod playback;
pub mod call_events;
