//! Verified core of a push-to-talk voice-input assistant: settings defaults,
//! the vocabulary dictionary, hotkey parsing, streaming transcript chunking,
//! and the decisions taken around speech and LLM services.

pub mod text;
pub mod vocab;
pub mod dictionary;
pub mod config;
pub mod hotkey;
pub mod json;
pub mod llm;
pub mod recognition;
pub mod languages;
pub mod injection;
