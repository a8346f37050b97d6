//! Core logic of the vinput speech-input daemon: the D-Bus payload types,
//! the LLM post-processor, the adaptor registry and the recording state machine.

pub mod protocol;
pub mod text;
pub mod post_processor;
pub mod adaptor_manager;
pub mod daemon;
pub mod laws;
