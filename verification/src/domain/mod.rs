//! Domain entities, independent of transport and vendors.

pub mod auth;
