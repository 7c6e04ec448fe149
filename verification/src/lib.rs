//! Verified decision logic of a realtime voice conversation: the native
//! WebRTC media session and the chat widget's realtime conversation state.
pub mod webrtc;
pub mod user_input;
pub mod realtime;
