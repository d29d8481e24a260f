//! Supabase adapters.

pub mod auth_gateway;
pub mod models;
