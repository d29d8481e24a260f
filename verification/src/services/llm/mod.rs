//! LLM provider services.

pub mod embedding;
pub mod llm;
pub mod text_generation;
