//! The decisions of the service integrations (Supabase, LLM providers,
//! Qdrant): what to send, and what a reply means. The calls themselves are
//! made by the binary.

pub mod common;
pub mod llm;
pub mod supabase;
pub mod vectordb;
