//! API request and response models, with the validation rules that the API
//! boundary applies to them.

pub mod auth;
pub mod defaults;
pub mod error;
pub mod llm;

pub mod vectordb;
