//! Orchestration core of a voice assistant: audio container handling,
//! request construction and response interpretation for the speech
//! recognition, chat and speech synthesis services, conversation history,
//! server-sent-event framing, and the turn sequencing that ties them together.
pub mod wav;
pub mod error;
pub mod embedded;
pub mod encoding;
pub mod asr;
pub mod llm;
pub mod models;
pub mod registry;
pub mod screen;
pub mod sse;
pub mod text;
pub mod tts;
pub mod turn;
