//! Supabase services.

pub mod auth;
pub mod database;
pub mod storage;
