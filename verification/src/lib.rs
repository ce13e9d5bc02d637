//! Core state machines of a media bridge between a buffer-oriented
//! pipeline and a WebRTC peer connection: the codec registry, the
//! per-pad negotiation state of the sink element, the bind/fill state
//! of the per-track receiver element, and the routing of dynamically
//! announced source pads.

pub mod errors;
pub mod media_type;
pub mod receiver;
pub mod routing;
pub mod sink;
pub mod webrtc_glue;
