//! Verified core of the backend service: configuration, request models,
//! error mapping, authentication parsing and the owner-scoping rules of the
//! vector store, with the I/O left to the binary around it.

pub mod text;
pub mod config;
pub mod string_map;
pub mod validation;
pub mod http_status;
pub mod models;
pub mod api;
pub mod domain;
pub mod http_auth;
pub mod json;
pub mod identifiers;
pub mod utils;
pub mod services;
pub mod upstream;
pub mod infrastructure;
pub mod app;
