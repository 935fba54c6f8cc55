//! Prompt construction and response mapping for an assistant that answers
//! through a locally served language model.
//!
//! The library decides what the model server is sent and what is made of its
//! answer; reaching the server is left to the caller.

pub mod ai_service;
pub mod decimal;
pub mod prompt;
pub mod text;

pub use ai_service::{AIRequest, AIResponse, AIService, GenerationCall};
