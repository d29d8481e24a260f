//! Decisions of the HTTP endpoints: what a request is answered with, given
//! what the services returned. Routing itself lives in the binary.

pub mod auth;
pub mod auth_handler;
pub mod llm;
pub mod logging;
pub mod vectordb;
