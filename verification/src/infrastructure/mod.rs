//! Vendor adapters.

pub mod supabase;
